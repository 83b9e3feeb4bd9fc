use vstd::prelude::*;

use super::chars::DIGIT_ZERO;

verus! {

/// An integer literal, as the digits that spell it.
#[derive(Debug, PartialEq)]
pub struct JackInt(pub Vec<u8>);

/// ASCII digits.
pub open spec fn is_int_byte(c: u8) -> bool {
    c > 47 && c < 58
}

/// The first position at or after `i` that is not a digit, or the length of
/// `s`.
pub open spec fn int_end(s: Seq<u8>, i: int) -> int
    decreases s.len() - i,
{
    if i >= s.len() {
        s.len() as int
    } else if !is_int_byte(s[i]) {
        i
    } else {
        int_end(s, i + 1)
    }
}

pub proof fn lemma_int_end_bounds(s: Seq<u8>, i: int)
    requires
        0 <= i <= s.len(),
    ensures
        i <= int_end(s, i) <= s.len(),
    decreases s.len() - i,
{
    if i < s.len() && is_int_byte(s[i]) {
        lemma_int_end_bounds(s, i + 1);
    }
}

/// `10` to the power `i`.
pub open spec fn pow10(i: nat) -> int
    decreases i,
{
    if i == 0 {
        1
    } else {
        10 * pow10((i - 1) as nat)
    }
}

/// What the `i`-th byte from the right adds to the number: its distance from
/// `'0'` times `10^i`.
pub open spec fn digit_term(s: Seq<u8>, i: nat) -> int {
    (s[s.len() - 1 - i] as int - DIGIT_ZERO as int) * pow10(i)
}

/// The sum of the terms of the `n` rightmost bytes.
pub open spec fn int_partial(s: Seq<u8>, n: nat) -> int
    decreases n,
{
    if n == 0 {
        0
    } else {
        int_partial(s, (n - 1) as nat) + digit_term(s, (n - 1) as nat)
    }
}

/// The decimal value that the bytes spell.
pub open spec fn decimal_value(s: Seq<u8>) -> int {
    int_partial(s, s.len())
}

/// Every term and every partial sum of the conversion fits in an `i16`.
pub open spec fn fits_i16_steps(s: Seq<u8>) -> bool {
    &&& forall|i: nat| i < s.len() ==> i16::MIN <= #[trigger] digit_term(s, i) <= i16::MAX
    &&& forall|n: nat| n <= s.len() ==> i16::MIN <= #[trigger] int_partial(s, n) <= i16::MAX
}

fn pow10_i16(i: usize) -> (r: i16)
    requires
        i <= 4,
    ensures
        r == pow10(i as nat),
        1 <= r <= 10000,
{
    reveal_with_fuel(pow10, 5);
    match i {
        0 => 1,
        1 => 10,
        2 => 100,
        3 => 1000,
        _ => 10000,
    }
}

impl JackInt {
    /// Reads an integer literal at the start of `buff`: the longest run of
    /// digits. Returns it, its length, and whether another byte follows it.
    pub fn parse_int_literal(buff: &[u8]) -> (r: (Self, usize, bool))
        ensures
            r.1 == int_end(buff@, 0),
            r.0.0@ == buff@.subrange(0, r.1 as int),
            r.2 == (r.1 < buff@.len()),
    {
        let mut l: usize = 0;
        let mut v: Vec<u8> = Vec::new();
        proof {
            lemma_int_end_bounds(buff@, 0);
        }
        loop
            invariant
                l <= buff@.len(),
                int_end(buff@, l as int) == int_end(buff@, 0),
                v@ == buff@.subrange(0, l as int),
            decreases buff@.len() - l,
        {
            if l == buff.len() {
                return (JackInt(v), l, false);
            }
            let c = buff[l];
            if !Self::is_int_char(c) {
                return (JackInt(v), l, true);
            }
            v.push(c);
            l = l + 1;
            assert(v@ =~= buff@.subrange(0, l as int));
        }
    }

    /// The number that the literal spells, computed digit by digit from the
    /// right in 16-bit arithmetic. A literal longer than five bytes is
    /// refused, as is one whose computation leaves the `i16` range.
    pub fn to_int(&self) -> (r: i16)
        requires
            self.0@.len() <= 5,
            fits_i16_steps(self.0@),
        ensures
            r == decimal_value(self.0@),
    {
        let l = self.0.len();
        let mut sum: i16 = 0;
        let mut i: usize = 0;
        while i < l
            invariant
                l == self.0@.len(),
                l <= 5,
                i <= l,
                fits_i16_steps(self.0@),
                sum == int_partial(self.0@, i as nat),
            decreases l - i,
        {
            let d: i16 = self.0[l - 1 - i] as i16 - 48;
            let p = pow10_i16(i);
            assert(i16::MIN <= digit_term(self.0@, i as nat) <= i16::MAX);
            assert(i16::MIN <= int_partial(self.0@, (i + 1) as nat) <= i16::MAX);
            let t: i16 = d * p;
            sum = sum + t;
            i = i + 1;
        }
        sum
    }

    /// The number that the literal spells when its computation stays within
    /// `i16`: at most five bytes, every term and every partial sum in range.
    pub fn checked_to_int(&self) -> (r: Option<i16>)
        ensures
            r is Some == (self.0@.len() <= 5 && fits_i16_steps(self.0@)),
            r matches Some(v) ==> v == decimal_value(self.0@),
    {
        let l = self.0.len();
        if l > 5 {
            return None;
        }
        let mut sum: i32 = 0;
        let mut i: usize = 0;
        while i < l
            invariant
                l == self.0@.len(),
                l <= 5,
                i <= l,
                sum == int_partial(self.0@, i as nat),
                forall|j: nat| j < i ==> i16::MIN <= #[trigger] digit_term(self.0@, j) <= i16::MAX,
                forall|n: nat| n <= i ==> i16::MIN <= #[trigger] int_partial(self.0@, n) <= i16::MAX,
            decreases l - i,
        {
            let d: i32 = self.0[l - 1 - i] as i32 - 48;
            let p: i32 = pow10_i16(i) as i32;
            assert(-48 * 10000 <= d * p <= 207 * 10000) by (nonlinear_arith)
                requires
                    -48 <= d <= 207,
                    1 <= p <= 10000,
            {}
            let t: i32 = d * p;
            assert(t == digit_term(self.0@, i as nat));
            if t < -32768 || t > 32767 {
                return None;
            }
            let s2: i32 = sum + t;
            assert(s2 == int_partial(self.0@, (i + 1) as nat));
            if s2 < -32768 || s2 > 32767 {
                return None;
            }
            sum = s2;
            i = i + 1;
        }
        Some(sum as i16)
    }

    /// ASCII digits.
    pub fn is_int_char(c: u8) -> (r: bool)
        ensures
            r == is_int_byte(c),
    {
        c > 47 && c < 58
    }
}

} // verus!

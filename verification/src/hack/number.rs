use vstd::prelude::*;

verus! {

/// All bytes are ASCII digits.
pub open spec fn all_digits(s: Seq<u8>) -> bool {
    forall|i: int| 0 <= i < s.len() ==> 48 <= #[trigger] s[i] <= 57
}

/// The decimal value of digits, most significant first.
pub open spec fn digits_value(s: Seq<u8>) -> nat
    decreases s.len(),
{
    if s.len() == 0 {
        0
    } else {
        digits_value(s.drop_last()) * 10 + (s.last() - 48) as nat
    }
}

/// How a 16-bit integer is read from text: an optional `+` or `-`, then at
/// least one digit and nothing else, with the value in range.
pub open spec fn spec_parse_i16(s: Seq<u8>) -> Option<i16> {
    let neg = s.len() > 0 && s[0] == 45u8;
    let start: int = if s.len() > 0 && (s[0] == 45u8 || s[0] == 43u8) {
        1
    } else {
        0
    };
    let d = s.subrange(start, s.len() as int);
    if d.len() == 0 || !all_digits(d) {
        None
    } else if neg {
        if digits_value(d) <= 32768 {
            Some((-digits_value(d)) as i16)
        } else {
            None
        }
    } else if digits_value(d) <= 32767 {
        Some(digits_value(d) as i16)
    } else {
        None
    }
}

/// More digits never make a smaller value.
pub proof fn lemma_digits_value_grows(s: Seq<u8>, k: int)
    requires
        0 <= k <= s.len(),
        all_digits(s),
    ensures
        digits_value(s.subrange(0, k)) <= digits_value(s),
    decreases s.len() - k,
{
    if k < s.len() {
        let t = s.subrange(0, k + 1);
        assert(t.drop_last() =~= s.subrange(0, k));
        assert(48 <= t.last());
        lemma_digits_value_grows(s, k + 1);
    } else {
        assert(s.subrange(0, k) =~= s);
    }
}

/// Reads a 16-bit integer as the standard library's `i16` parser does.
pub fn parse_i16(s: &[u8]) -> (r: Option<i16>)
    ensures
        r == spec_parse_i16(s@),
{
    let n = s.len();
    if n == 0 {
        return None;
    }
    let neg = s[0] == 45;
    let start: usize = if s[0] == 45 || s[0] == 43 {
        1
    } else {
        0
    };
    let ghost d = s@.subrange(start as int, n as int);
    if start == n {
        return None;
    }
    let mut v: u32 = 0;
    let mut i: usize = start;
    while i < n
        invariant
            start <= i <= n,
            n == s@.len(),
            n > 0,
            start == (if s@[0] == 45u8 || s@[0] == 43u8 {
                1usize
            } else {
                0usize
            }),
            neg == (s@[0] == 45u8),
            start < n,
            d == s@.subrange(start as int, n as int),
            all_digits(s@.subrange(start as int, i as int)),
            v == digits_value(s@.subrange(start as int, i as int)),
            v <= 32768,
        decreases n - i,
    {
        let c = s[i];
        if c < 48 || c > 57 {
            assert(d[i - start] == c);
            return None;
        }
        proof {
            let p = s@.subrange(start as int, i + 1);
            assert(p.drop_last() =~= s@.subrange(start as int, i as int));
            assert(p.last() == c);
        }
        let nv: u32 = v * 10 + (c - 48) as u32;
        if nv > 32768 {
            proof {
                let p = s@.subrange(start as int, i + 1);
                if all_digits(d) {
                    assert(p =~= d.subrange(0, i + 1 - start));
                    lemma_digits_value_grows(d, i + 1 - start);
                }
            }
            return None;
        }
        v = nv;
        i = i + 1;
    }
    assert(s@.subrange(start as int, n as int) =~= d);
    if neg {
        Some((0 - v as i32) as i16)
    } else if v <= 32767 {
        Some(v as i16)
    } else {
        None
    }
}

} // verus!

use vstd::prelude::*;

verus! {

/// Whether two byte strings are equal.
pub fn bytes_equal(a: &[u8], b: &[u8]) -> (r: bool)
    ensures
        r == (a@ == b@),
{
    if a.len() != b.len() {
        return false;
    }
    let mut i: usize = 0;
    while i < a.len()
        invariant
            a@.len() == b@.len(),
            i <= a@.len(),
            forall|j: int| 0 <= j < i ==> a@[j] == b@[j],
        decreases a@.len() - i,
    {
        if a[i] != b[i] {
            return false;
        }
        i = i + 1;
    }
    assert(a@ =~= b@);
    true
}

/// The decimal digits of `n`, most significant first, in ASCII.
pub open spec fn nat_digits(n: nat) -> Seq<u8>
    decreases n,
{
    if n < 10 {
        seq![(48 + n) as u8]
    } else {
        nat_digits(n / 10).push((48 + n % 10) as u8)
    }
}

/// The decimal text of an integer, with a leading `-` when it is negative.
pub open spec fn int_text(n: int) -> Seq<u8> {
    if n < 0 {
        seq![45u8] + nat_digits((-n) as nat)
    } else {
        nat_digits(n as nat)
    }
}

/// Appends the decimal digits of `n`.
pub fn push_digits(out: &mut Vec<u8>, n: u64)
    ensures
        final(out)@ == old(out)@ + nat_digits(n as nat),
    decreases n,
{
    if n >= 10 {
        push_digits(out, n / 10);
    }
    out.push((48 + n % 10) as u8);
    proof {
        if n >= 10 {
            assert(old(out)@ + nat_digits(n as nat) =~= old(out)@ + nat_digits((n / 10) as nat)
                + seq![(48 + n % 10) as u8]);
        }
    }
}

/// Appends the decimal text of `n`.
pub fn push_int(out: &mut Vec<u8>, n: i64)
    requires
        n > i64::MIN,
    ensures
        final(out)@ == old(out)@ + int_text(n as int),
{
    if n < 0 {
        out.push(45);
        push_digits(out, (-n) as u64);
        assert(final(out)@ =~= old(out)@ + int_text(n as int));
    } else {
        push_digits(out, n as u64);
    }
}

/// The decimal text of `n`.
pub fn int_to_text(n: i64) -> (r: Vec<u8>)
    requires
        n > i64::MIN,
    ensures
        r@ == int_text(n as int),
{
    let mut out = Vec::new();
    push_int(&mut out, n);
    assert(out@ =~= int_text(n as int));
    out
}

/// Appends all of `src`.
pub fn push_all(out: &mut Vec<u8>, src: &[u8])
    ensures
        final(out)@ == old(out)@ + src@,
{
    let mut i: usize = 0;
    while i < src.len()
        invariant
            i <= src@.len(),
            out@ == old(out)@ + src@.subrange(0, i as int),
        decreases src@.len() - i,
    {
        out.push(src[i]);
        i = i + 1;
        assert(out@ =~= old(out)@ + src@.subrange(0, i as int));
    }
    assert(src@.subrange(0, src@.len() as int) =~= src@);
}

/// The first position at or after `i` that holds `x`, or the length.
pub open spec fn byte_pos(t: Seq<u8>, x: u8, i: int) -> int
    decreases t.len() - i,
{
    if i >= t.len() {
        t.len() as int
    } else if i >= 0 && t[i] == x {
        i
    } else {
        byte_pos(t, x, i + 1)
    }
}

/// The first position at or after `from` that holds `x`, or the length.
pub fn find_byte(t: &[u8], x: u8, from: usize) -> (r: usize)
    requires
        from <= t@.len(),
    ensures
        r == byte_pos(t@, x, from as int),
        from <= r <= t@.len(),
{
    proof {
        lemma_byte_pos_bounds(t@, x, from as int);
    }
    let mut i = from;
    while i < t.len()
        invariant
            from <= i <= t@.len(),
            byte_pos(t@, x, from as int) == byte_pos(t@, x, i as int),
        decreases t@.len() - i,
    {
        if t[i] == x {
            return i;
        }
        i = i + 1;
    }
    i
}

/// The position found lies between the start and the length, and holds the
/// byte unless it is the length.
pub proof fn lemma_byte_pos_bounds(t: Seq<u8>, x: u8, i: int)
    requires
        0 <= i <= t.len(),
    ensures
        i <= byte_pos(t, x, i) <= t.len(),
        byte_pos(t, x, i) < t.len() ==> t[byte_pos(t, x, i)] == x,
        forall|j: int| i <= j < byte_pos(t, x, i) ==> t[j] != x,
    decreases t.len() - i,
{
    if i < t.len() && t[i] != x {
        lemma_byte_pos_bounds(t, x, i + 1);
    }
}

} // verus!

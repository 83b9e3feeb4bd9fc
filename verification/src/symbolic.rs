use vstd::prelude::*;

verus! {

/// A value with a textual form that can be written into a byte buffer.
pub trait SymbolicElem: Sized {
    /// The value's text.
    spec fn spec_symbols(&self) -> Seq<u8>;

    /// Writes the value's text at the start of `buff` and returns its length;
    /// the rest of `buff` is left as it was.
    fn write_symbols(&self, buff: &mut [u8]) -> (r: usize)
        requires
            self.spec_symbols().len() <= old(buff)@.len(),
        ensures
            r == self.spec_symbols().len(),
            final(buff)@ == self.spec_symbols() + old(buff)@.subrange(r as int, old(buff)@.len() as int),
    ;
}

/// `buff` with `src` written over it from position `at`.
pub open spec fn written_at(buff: Seq<u8>, at: int, src: Seq<u8>) -> Seq<u8> {
    buff.subrange(0, at) + src + buff.subrange(at + src.len(), buff.len() as int)
}

/// Writes `src` into `buff` from position `at`.
pub fn write_bytes_at(buff: &mut [u8], at: usize, src: &[u8])
    requires
        at + src@.len() <= old(buff)@.len(),
    ensures
        final(buff)@ == written_at(old(buff)@, at as int, src@),
{
    let n = buff.len();
    let mut i: usize = 0;
    while i < src.len()
        invariant
            n == buff@.len(),
            at + src@.len() <= old(buff)@.len(),
            buff@.len() == old(buff)@.len(),
            i <= src@.len(),
            buff@ == old(buff)@.subrange(0, at as int) + src@.subrange(0, i as int)
                + old(buff)@.subrange(at + i, old(buff)@.len() as int),
        decreases src@.len() - i,
    {
        buff[at + i] = src[i];
        i = i + 1;
        assert(buff@ =~= old(buff)@.subrange(0, at as int) + src@.subrange(0, i as int)
            + old(buff)@.subrange(at + i, old(buff)@.len() as int));
    }
    assert(src@.subrange(0, src@.len() as int) =~= src@);
}

} // verus!

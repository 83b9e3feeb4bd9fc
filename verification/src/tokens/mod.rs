use vstd::prelude::*;

pub mod chars;
pub mod comment;
pub mod ident;
pub mod intlit;
pub mod keyword;
pub mod munch;
pub mod stringlit;
pub mod symbol;
pub mod token;
pub mod tokenizer;

pub use comment::JackComment;
pub use ident::JackIdent;
pub use intlit::JackInt;
pub use stringlit::JackString;
pub use keyword::{JackKeyword, keyword_text, spec_bytes_to_keyword};
pub use token::{trim_start, JackToken, JackTokenV};
pub use symbol::{JackSymbol, spec_char_to_symbol, symbol_char};

verus! {

/// `p` is a prefix of `s`.
pub open spec fn has_prefix(s: Seq<u8>, p: Seq<u8>) -> bool {
    p.len() <= s.len() && s.subrange(0, p.len() as int) == p
}

/// Whether `buff` starts with the bytes of `pat`.
pub fn starts_with(buff: &[u8], pat: &[u8]) -> (r: bool)
    ensures
        r == has_prefix(buff@, pat@),
{
    if pat.len() > buff.len() {
        return false;
    }
    let mut i: usize = 0;
    while i < pat.len()
        invariant
            pat@.len() <= buff@.len(),
            i <= pat@.len(),
            forall|j: int| 0 <= j < i ==> buff@[j] == pat@[j],
        decreases pat@.len() - i,
    {
        if buff[i] != pat[i] {
            assert(buff@.subrange(0, pat@.len() as int)[i as int] != pat@[i as int]);
            return false;
        }
        i = i + 1;
    }
    assert(buff@.subrange(0, pat@.len() as int) =~= pat@);
    true
}

} // verus!

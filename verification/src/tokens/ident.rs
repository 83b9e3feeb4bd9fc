use vstd::prelude::*;

use super::chars::UNDERSCORE;
use super::intlit::{is_int_byte, JackInt};

verus! {

/// An identifier: letters, digits and underscores.
#[derive(Debug, PartialEq)]
pub struct JackIdent(pub Vec<u8>);

/// ASCII letters and `_`.
pub open spec fn is_ident_byte(c: u8) -> bool {
    (c > 96 && c < 123) || (c > 64 && c < 91) || c == UNDERSCORE
}

/// The first position at or after `i` whose byte cannot continue an
/// identifier, or the length of `s`.
pub open spec fn ident_end(s: Seq<u8>, i: int) -> int
    decreases s.len() - i,
{
    if i >= s.len() {
        s.len() as int
    } else if !is_ident_byte(s[i]) && !is_int_byte(s[i]) {
        i
    } else {
        ident_end(s, i + 1)
    }
}

pub proof fn lemma_ident_end_bounds(s: Seq<u8>, i: int)
    requires
        0 <= i <= s.len(),
    ensures
        i <= ident_end(s, i) <= s.len(),
    decreases s.len() - i,
{
    if i < s.len() && (is_ident_byte(s[i]) || is_int_byte(s[i])) {
        lemma_ident_end_bounds(s, i + 1);
    }
}

impl JackIdent {
    /// Reads an identifier at the start of `buff`: the longest run of letters,
    /// digits and underscores. Returns it, its length, and whether another
    /// byte follows it in `buff`.
    pub fn parse_ident(buff: &[u8]) -> (r: (Self, usize, bool))
        ensures
            r.1 == ident_end(buff@, 0),
            r.0.0@ == buff@.subrange(0, r.1 as int),
            r.2 == (r.1 < buff@.len()),
    {
        let mut l: usize = 0;
        let mut v: Vec<u8> = Vec::new();
        proof {
            lemma_ident_end_bounds(buff@, 0);
        }
        loop
            invariant
                l <= buff@.len(),
                ident_end(buff@, l as int) == ident_end(buff@, 0),
                v@ == buff@.subrange(0, l as int),
            decreases buff@.len() - l,
        {
            if l == buff.len() {
                return (JackIdent(v), l, false);
            }
            let c = buff[l];
            if !Self::is_ident_char(c) && !JackInt::is_int_char(c) {
                return (JackIdent(v), l, true);
            }
            v.push(c);
            l = l + 1;
            assert(v@ =~= buff@.subrange(0, l as int));
        }
    }

    /// ASCII letters and `_` can start an identifier.
    pub fn is_ident_char(c: u8) -> (r: bool)
        ensures
            r == is_ident_byte(c),
    {
        if c > 96 && c < 123 {
            return true;
        }
        if c > 64 && c < 91 {
            return true;
        }
        c == UNDERSCORE
    }
}

} // verus!

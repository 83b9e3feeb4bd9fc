use vstd::prelude::*;

use super::chars::QUOTE;

verus! {

/// A string literal's text, without its quotes.
#[derive(Debug, PartialEq)]
pub struct JackString(pub Vec<u8>);

/// The first position at or after `i` that holds a `"`, or the length of `s`.
pub open spec fn quote_pos(s: Seq<u8>, i: int) -> int
    decreases s.len() - i,
{
    if i >= s.len() {
        s.len() as int
    } else if s[i] == QUOTE {
        i
    } else {
        quote_pos(s, i + 1)
    }
}

pub proof fn lemma_quote_pos_bounds(s: Seq<u8>, i: int)
    requires
        0 <= i <= s.len(),
    ensures
        i <= quote_pos(s, i) <= s.len(),
    decreases s.len() - i,
{
    if i < s.len() && s[i] != QUOTE {
        lemma_quote_pos_bounds(s, i + 1);
    }
}

impl JackString {
    /// Reads the body of a string literal from `buff`, which starts just after
    /// the opening quote. Returns the text and the bytes taken including the
    /// closing quote; when no quote closes it, nothing and the length of
    /// `buff`.
    pub fn parse_string_literal(buff: &[u8]) -> (r: (Option<Self>, usize))
        requires
            buff@.len() < usize::MAX,
        ensures
            ({
                let p = quote_pos(buff@, 0);
                &&& p < buff@.len() ==> r.0 is Some && r.1 == p + 1
                &&& p == buff@.len() ==> r.0 is None && r.1 == p
                &&& r.0 matches Some(t) ==> t.0@ == buff@.subrange(0, p)
            }),
    {
        let mut l: usize = 0;
        let mut v: Vec<u8> = Vec::new();
        proof {
            lemma_quote_pos_bounds(buff@, 0);
        }
        loop
            invariant
                buff@.len() < usize::MAX,
                l <= buff@.len(),
                quote_pos(buff@, l as int) == quote_pos(buff@, 0),
                v@ == buff@.subrange(0, l as int),
            decreases buff@.len() - l,
        {
            if l == buff.len() {
                return (None, l);
            }
            let c = buff[l];
            if c == QUOTE {
                return (Some(JackString(v)), l + 1);
            }
            v.push(c);
            l = l + 1;
            assert(v@ =~= buff@.subrange(0, l as int));
        }
    }
}

} // verus!

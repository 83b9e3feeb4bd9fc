use vstd::prelude::*;

use crate::tokens::{JackKeyword, JackToken, JackTokenV};

verus! {

/// The memory segment that a Jack variable lives in.
#[derive(Debug, PartialEq, Eq, Structural, Clone, Copy)]
pub enum JackSegment {
    Arg,
    Lcl,
    Field,
    Static,
}

impl Default for JackSegment {
    fn default() -> (r: Self)
        ensures
            r == JackSegment::Arg,
    {
        JackSegment::Arg
    }
}

/// The segment that a declaration keyword opens: `var` inside a subroutine,
/// `field` and `static` at class level.
pub open spec fn spec_segment_from_token(t: JackTokenV, global: bool) -> Option<JackSegment> {
    match (t, global) {
        (JackTokenV::Keyword(JackKeyword::Var), false) => Some(JackSegment::Lcl),
        (JackTokenV::Keyword(JackKeyword::Field), true) => Some(JackSegment::Field),
        (JackTokenV::Keyword(JackKeyword::Static), true) => Some(JackSegment::Static),
        _ => None,
    }
}

impl JackSegment {
    /// The segment that the declaration keyword `token` opens, at class level
    /// when `global` holds. The token is left as it was.
    pub fn from_token(token: &mut JackToken, global: bool) -> (r: Option<Self>)
        ensures
            final(token)@ == old(token)@,
            r == spec_segment_from_token(old(token)@, global),
    {
        match (&*token, global) {
            (JackToken::Keyword(JackKeyword::Var), false) => Some(Self::Lcl),
            (JackToken::Keyword(JackKeyword::Field), true) => Some(Self::Field),
            (JackToken::Keyword(JackKeyword::Static), true) => Some(Self::Static),
            _ => None,
        }
    }
}

} // verus!

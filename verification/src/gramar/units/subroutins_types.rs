use vstd::prelude::*;

use crate::tokens::{JackKeyword, JackToken, JackTokenV};

verus! {

/// The kind of a subroutine.
#[derive(Debug, PartialEq, Eq, Structural, Clone, Copy)]
pub enum JackSubroutineType {
    Method,
    Function,
    Constructor,
}

impl Default for JackSubroutineType {
    fn default() -> (r: Self)
        ensures
            r == JackSubroutineType::Method,
    {
        JackSubroutineType::Method
    }
}

/// The subroutine kind that a keyword names.
pub open spec fn spec_subroutine_type_from_token(t: JackTokenV) -> Option<JackSubroutineType> {
    match t {
        JackTokenV::Keyword(JackKeyword::Method) => Some(JackSubroutineType::Method),
        JackTokenV::Keyword(JackKeyword::Function) => Some(JackSubroutineType::Function),
        JackTokenV::Keyword(JackKeyword::Constructor) => Some(JackSubroutineType::Constructor),
        _ => None,
    }
}

impl JackSubroutineType {
    /// The subroutine kind that `token` names. The token is left as it was.
    pub fn from_token(token: &mut JackToken) -> (r: Option<Self>)
        ensures
            final(token)@ == old(token)@,
            r == spec_subroutine_type_from_token(old(token)@),
    {
        match &*token {
            JackToken::Keyword(JackKeyword::Method) => Some(Self::Method),
            JackToken::Keyword(JackKeyword::Function) => Some(Self::Function),
            JackToken::Keyword(JackKeyword::Constructor) => Some(Self::Constructor),
            _ => None,
        }
    }
}

} // verus!

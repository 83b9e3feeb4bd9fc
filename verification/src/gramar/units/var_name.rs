use vstd::prelude::*;

use crate::tokens::{JackToken, JackTokenV};

use super::style::{spec_style_check, JackVariableNameStyle};

verus! {

/// The name of a variable, subroutine or class.
#[derive(Debug, PartialEq, Eq, Hash)]
pub struct JackVariableName(pub Vec<u8>);

impl Default for JackVariableName {
    fn default() -> (r: Self)
        ensures
            r.0@ == Seq::<u8>::empty(),
    {
        JackVariableName(Vec::new())
    }
}

impl Clone for JackVariableName {
    fn clone(&self) -> (r: Self)
        ensures
            r.0@ == self.0@,
    {
        JackVariableName(self.0.clone())
    }
}

impl JackVariableName {
    /// Moves the name out, leaving an empty one.
    pub fn take(&mut self) -> (r: Self)
        ensures
            r.0@ == old(self).0@,
            final(self).0@ == Seq::<u8>::empty(),
    {
        let mut tmp = Vec::new();
        std::mem::swap(&mut tmp, &mut self.0);
        Self(tmp)
    }

    /// The name that an identifier token holds, when it passes the style
    /// check. A name taken this way is moved out of the token, which keeps an
    /// empty identifier; otherwise the token is left as it was.
    pub fn from_token(token: &mut JackToken, style: JackVariableNameStyle, is_strict: bool) -> (r:
        Option<Self>)
        ensures
            match old(token)@ {
                JackTokenV::Ident(i) => if spec_style_check(style, i, is_strict) {
                    &&& r matches Some(n) && n.0@ == i
                    &&& final(token)@ == JackTokenV::Ident(Seq::empty())
                } else {
                    r is None && final(token)@ == old(token)@
                },
                _ => r is None && final(token)@ == old(token)@,
            },
    {
        match token {
            JackToken::Ident(ident) => {
                if style.check(ident.0.as_slice(), is_strict) {
                    let mut v = Vec::new();
                    std::mem::swap(&mut v, &mut ident.0);
                    Some(Self(v))
                } else {
                    None
                }
            },
            _ => None,
        }
    }
}

} // verus!

use vstd::prelude::*;

use crate::tokens::{JackKeyword, JackToken, JackTokenV};
use crate::util::bytes_equal;

verus! {

/// The built-in types, with `Array` and `String` among them.
#[derive(Debug, PartialEq, Eq, Structural, Clone, Copy)]
pub enum JackBasicType {
    Int,
    Char,
    Bool,
    String,
    Arr,
    Void,
}

/// The type of a Jack variable or subroutine: built-in, or a class by name.
#[derive(Debug, PartialEq)]
pub enum JackType {
    Basic(JackBasicType),
    Class(Vec<u8>),
}

/// A type with a class name taken as a sequence.
pub enum JackTypeV {
    Basic(JackBasicType),
    Class(Seq<u8>),
}

impl View for JackType {
    type V = JackTypeV;

    open spec fn view(&self) -> JackTypeV {
        match self {
            JackType::Basic(b) => JackTypeV::Basic(*b),
            JackType::Class(c) => JackTypeV::Class(c@),
        }
    }
}

impl Default for JackType {
    fn default() -> (r: Self)
        ensures
            r@ == JackTypeV::Basic(JackBasicType::Arr),
    {
        JackType::Basic(JackBasicType::Arr)
    }
}

impl Clone for JackType {
    fn clone(&self) -> (r: Self)
        ensures
            r@ == self@,
    {
        match self {
            JackType::Basic(b) => JackType::Basic(*b),
            JackType::Class(c) => JackType::Class(c.clone()),
        }
    }
}

/// `Array`
pub open spec fn array_name() -> Seq<u8> {
    seq![65u8, 114u8, 114u8, 97u8, 121u8]
}

/// `String`
pub open spec fn string_name() -> Seq<u8> {
    seq![83u8, 116u8, 114u8, 105u8, 110u8, 103u8]
}

/// The type that a token names: a type keyword, `Array`, `String`, or any
/// other identifier as a class name.
pub open spec fn spec_type_from_token(t: JackTokenV) -> Option<JackTypeV> {
    match t {
        JackTokenV::Keyword(JackKeyword::Char) => Some(JackTypeV::Basic(JackBasicType::Char)),
        JackTokenV::Keyword(JackKeyword::Int) => Some(JackTypeV::Basic(JackBasicType::Int)),
        JackTokenV::Keyword(JackKeyword::Boolean) => Some(JackTypeV::Basic(JackBasicType::Bool)),
        JackTokenV::Keyword(JackKeyword::Void) => Some(JackTypeV::Basic(JackBasicType::Void)),
        JackTokenV::Ident(i) => if i == array_name() {
            Some(JackTypeV::Basic(JackBasicType::Arr))
        } else if i == string_name() {
            Some(JackTypeV::Basic(JackBasicType::String))
        } else {
            Some(JackTypeV::Class(i))
        },
        _ => None,
    }
}

/// The name under which a type's methods are called: a class's own name,
/// `Array` or `String`. Other built-in types have none.
pub open spec fn type_class_name(t: JackTypeV) -> Seq<u8> {
    match t {
        JackTypeV::Class(c) => c,
        JackTypeV::Basic(JackBasicType::Arr) => array_name(),
        _ => string_name(),
    }
}

/// A type whose methods can be called: a class, `Array` or `String`.
pub open spec fn has_class_name(t: JackTypeV) -> bool {
    t is Class || t == JackTypeV::Basic(JackBasicType::Arr) || t == JackTypeV::Basic(
        JackBasicType::String,
    )
}

impl JackType {
    pub fn is_array(&self) -> (r: bool)
        ensures
            r == (self@ == JackTypeV::Basic(JackBasicType::Arr)),
    {
        match self {
            JackType::Basic(JackBasicType::Arr) => true,
            _ => false,
        }
    }

    pub fn is_void(&self) -> (r: bool)
        ensures
            r == (self@ == JackTypeV::Basic(JackBasicType::Void)),
    {
        match self {
            JackType::Basic(JackBasicType::Void) => true,
            _ => false,
        }
    }

    /// Whether the type has a class name: a class, `Array` or `String`.
    pub fn has_class(&self) -> (r: bool)
        ensures
            r == has_class_name(self@),
    {
        match self {
            JackType::Class(_) => true,
            JackType::Basic(JackBasicType::Arr) => true,
            JackType::Basic(JackBasicType::String) => true,
            _ => false,
        }
    }

    /// The type's class name; only classes, `Array` and `String` have one.
    pub fn as_slice(&self) -> (r: &[u8])
        requires
            has_class_name(self@),
        ensures
            r@ == type_class_name(self@),
    {
        match self {
            Self::Class(class) => class.as_slice(),
            Self::Basic(JackBasicType::Arr) => {
                let a: &[u8] = &[65u8, 114u8, 114u8, 97u8, 121u8];
                assert(a@ =~= array_name());
                a
            },
            _ => {
                let s: &[u8] = &[83u8, 116u8, 114u8, 105u8, 110u8, 103u8];
                assert(s@ =~= string_name());
                s
            },
        }
    }

    /// Moves the type out: a class name is taken and left empty, a built-in
    /// type is copied.
    pub fn take(&mut self) -> (r: Self)
        ensures
            r@ == old(self)@,
            final(self)@ == (match old(self)@ {
                JackTypeV::Class(_) => JackTypeV::Class(Seq::empty()),
                b => b,
            }),
    {
        match self {
            Self::Basic(basic) => Self::Basic(*basic),
            Self::Class(class) => {
                let mut tmp = Vec::new();
                std::mem::swap(class, &mut tmp);
                Self::Class(tmp)
            },
        }
    }

    /// The type that `token` names. An identifier's bytes are moved into a
    /// class type and the token keeps an empty identifier; other tokens are
    /// left as they were.
    pub fn from_token(token: &mut JackToken) -> (r: Option<Self>)
        ensures
            match r {
                Some(t) => spec_type_from_token(old(token)@) == Some(t@),
                None => spec_type_from_token(old(token)@) is None,
            },
            final(token)@ == (match old(token)@ {
                JackTokenV::Ident(i) => if i == array_name() || i == string_name() {
                    old(token)@
                } else {
                    JackTokenV::Ident(Seq::empty())
                },
                t => t,
            }),
    {
        match token {
            JackToken::Keyword(JackKeyword::Char) => Some(JackType::Basic(JackBasicType::Char)),
            JackToken::Keyword(JackKeyword::Int) => Some(JackType::Basic(JackBasicType::Int)),
            JackToken::Keyword(JackKeyword::Boolean) => Some(JackType::Basic(JackBasicType::Bool)),
            JackToken::Keyword(JackKeyword::Void) => Some(JackType::Basic(JackBasicType::Void)),
            JackToken::Ident(ident) => {
                let array: &[u8] = &[65u8, 114u8, 114u8, 97u8, 121u8];
                let string: &[u8] = &[83u8, 116u8, 114u8, 105u8, 110u8, 103u8];
                assert(array@ =~= array_name());
                assert(string@ =~= string_name());
                if bytes_equal(ident.0.as_slice(), array) {
                    Some(JackType::Basic(JackBasicType::Arr))
                } else if bytes_equal(ident.0.as_slice(), string) {
                    Some(JackType::Basic(JackBasicType::String))
                } else {
                    let mut v = Vec::new();
                    std::mem::swap(&mut v, &mut ident.0);
                    Some(JackType::Class(v))
                }
            },
            _ => None,
        }
    }
}

} // verus!

use vstd::prelude::*;
use vstd::utf8::{decode_utf8, valid_utf8};

verus! {

/// The naming convention that a variable name must follow in strict mode.
#[derive(Debug, PartialEq, Eq, Structural, Clone, Copy)]
pub enum JackVariableNameStyle {
    Utf8,
    ConstantCase,
    CamelCase,
    PascalCase,
}

impl Default for JackVariableNameStyle {
    fn default() -> (r: Self)
        ensures
            r == JackVariableNameStyle::Utf8,
    {
        JackVariableNameStyle::Utf8
    }
}

/// What `inflections::case::is_camel_case` answers for a string.
pub uninterp spec fn camel_case_holds(s: Seq<char>) -> bool;

/// What `inflections::case::is_constant_case` answers for a string.
pub uninterp spec fn constant_case_holds(s: Seq<char>) -> bool;

/// What `inflections::case::is_pascal_case` answers for a string.
pub uninterp spec fn pascal_case_holds(s: Seq<char>) -> bool;

/// Calls `std::str::from_utf8`, which accepts exactly the valid UTF-8 byte
/// strings and reads them as the characters they encode.
#[verifier::external_body]
fn utf8_text(data: &[u8]) -> (r: Option<&str>)
    ensures
        r is Some <==> valid_utf8(data@),
        r matches Some(s) ==> s@ == decode_utf8(data@),
{
    std::str::from_utf8(data).ok()
}

/// Calls `inflections::case::is_camel_case`. Its answer (whether the string
/// equals its own camelCase form, under Unicode case mapping) is not written
/// out here: the contract only names it, as a function of the string.
#[verifier::external_body]
fn camel_case(s: &str) -> (r: bool)
    ensures
        r == camel_case_holds(s@),
{
    inflections::case::is_camel_case(s)
}

/// Calls `inflections::case::is_constant_case`. Its answer (whether the string
/// equals its own CONSTANT_CASE form) is only named here, as a function of
/// the string.
#[verifier::external_body]
fn constant_case(s: &str) -> (r: bool)
    ensures
        r == constant_case_holds(s@),
{
    inflections::case::is_constant_case(s)
}

/// Calls `inflections::case::is_pascal_case`. Its answer (whether the string
/// equals its own PascalCase form) is only named here, as a function of the
/// string.
#[verifier::external_body]
fn pascal_case(s: &str) -> (r: bool)
    ensures
        r == pascal_case_holds(s@),
{
    inflections::case::is_pascal_case(s)
}

/// Whether a name follows a style once the bytes are read as UTF-8.
pub open spec fn style_holds(style: JackVariableNameStyle, text: Seq<char>) -> bool {
    match style {
        JackVariableNameStyle::Utf8 => true,
        JackVariableNameStyle::CamelCase => camel_case_holds(text),
        JackVariableNameStyle::ConstantCase => constant_case_holds(text),
        JackVariableNameStyle::PascalCase => pascal_case_holds(text),
    }
}

/// Whether `data` passes the check: always outside strict mode; in strict
/// mode, when it is valid UTF-8 and follows the style.
pub open spec fn spec_style_check(style: JackVariableNameStyle, data: Seq<u8>, is_strict: bool) -> bool {
    !is_strict || (valid_utf8(data) && style_holds(style, decode_utf8(data)))
}

impl JackVariableNameStyle {
    /// Checks a name against the style. Outside strict mode every name
    /// passes; in strict mode the name must be UTF-8 and follow the style.
    pub fn check(&self, data: &[u8], is_strict: bool) -> (r: bool)
        ensures
            r == spec_style_check(*self, data@, is_strict),
    {
        if !is_strict {
            return true;
        }
        if let Some(v) = utf8_text(data) {
            match self {
                Self::Utf8 => true,
                Self::CamelCase => camel_case(v),
                Self::ConstantCase => constant_case(v),
                Self::PascalCase => pascal_case(v),
            }
        } else {
            false
        }
    }
}

} // verus!

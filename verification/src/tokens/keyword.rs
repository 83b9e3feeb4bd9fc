use vstd::prelude::*;

use super::has_prefix;
use super::starts_with;

verus! {

/// A reserved word of the Jack language.
#[derive(Debug, PartialEq, Eq, Structural, Clone, Copy)]
pub enum JackKeyword {
    Constructor,
    Function,
    Boolean,
    Method,
    Static,
    Return,
    Class,
    Field,
    False,
    While,
    Char,
    Void,
    True,
    Null,
    This,
    Else,
    Var,
    Int,
    Let,
    Do,
    If,
}

impl Default for JackKeyword {
    fn default() -> (r: Self)
        ensures
            r == JackKeyword::Constructor,
    {
        JackKeyword::Constructor
    }
}

/// The spelling of a keyword in Jack source text.
pub open spec fn keyword_text(k: JackKeyword) -> Seq<u8> {
    match k {
        JackKeyword::Constructor => seq![99u8, 111u8, 110u8, 115u8, 116u8, 114u8, 117u8, 99u8, 116u8, 111u8, 114u8],
        JackKeyword::Function => seq![102u8, 117u8, 110u8, 99u8, 116u8, 105u8, 111u8, 110u8],
        JackKeyword::Boolean => seq![98u8, 111u8, 111u8, 108u8, 101u8, 97u8, 110u8],
        JackKeyword::Method => seq![109u8, 101u8, 116u8, 104u8, 111u8, 100u8],
        JackKeyword::Static => seq![115u8, 116u8, 97u8, 116u8, 105u8, 99u8],
        JackKeyword::Return => seq![114u8, 101u8, 116u8, 117u8, 114u8, 110u8],
        JackKeyword::Class => seq![99u8, 108u8, 97u8, 115u8, 115u8],
        JackKeyword::Field => seq![102u8, 105u8, 101u8, 108u8, 100u8],
        JackKeyword::False => seq![102u8, 97u8, 108u8, 115u8, 101u8],
        JackKeyword::While => seq![119u8, 104u8, 105u8, 108u8, 101u8],
        JackKeyword::Char => seq![99u8, 104u8, 97u8, 114u8],
        JackKeyword::Void => seq![118u8, 111u8, 105u8, 100u8],
        JackKeyword::True => seq![116u8, 114u8, 117u8, 101u8],
        JackKeyword::Null => seq![110u8, 117u8, 108u8, 108u8],
        JackKeyword::This => seq![116u8, 104u8, 105u8, 115u8],
        JackKeyword::Else => seq![101u8, 108u8, 115u8, 101u8],
        JackKeyword::Var => seq![118u8, 97u8, 114u8],
        JackKeyword::Int => seq![105u8, 110u8, 116u8],
        JackKeyword::Let => seq![108u8, 101u8, 116u8],
        JackKeyword::Do => seq![100u8, 111u8],
        JackKeyword::If => seq![105u8, 102u8],
    }
}

/// The keyword that a byte sequence starts with, the keywords being tried in
/// a fixed order (the first one whose spelling is a prefix wins).
pub open spec fn spec_bytes_to_keyword(s: Seq<u8>) -> Option<JackKeyword> {
    if has_prefix(s, keyword_text(JackKeyword::Class)) {
        Some(JackKeyword::Class)
    } else if has_prefix(s, keyword_text(JackKeyword::Constructor)) {
        Some(JackKeyword::Constructor)
    } else if has_prefix(s, keyword_text(JackKeyword::Method)) {
        Some(JackKeyword::Method)
    } else if has_prefix(s, keyword_text(JackKeyword::Function)) {
        Some(JackKeyword::Function)
    } else if has_prefix(s, keyword_text(JackKeyword::Field)) {
        Some(JackKeyword::Field)
    } else if has_prefix(s, keyword_text(JackKeyword::Static)) {
        Some(JackKeyword::Static)
    } else if has_prefix(s, keyword_text(JackKeyword::Var)) {
        Some(JackKeyword::Var)
    } else if has_prefix(s, keyword_text(JackKeyword::Int)) {
        Some(JackKeyword::Int)
    } else if has_prefix(s, keyword_text(JackKeyword::Char)) {
        Some(JackKeyword::Char)
    } else if has_prefix(s, keyword_text(JackKeyword::Boolean)) {
        Some(JackKeyword::Boolean)
    } else if has_prefix(s, keyword_text(JackKeyword::Void)) {
        Some(JackKeyword::Void)
    } else if has_prefix(s, keyword_text(JackKeyword::True)) {
        Some(JackKeyword::True)
    } else if has_prefix(s, keyword_text(JackKeyword::False)) {
        Some(JackKeyword::False)
    } else if has_prefix(s, keyword_text(JackKeyword::Null)) {
        Some(JackKeyword::Null)
    } else if has_prefix(s, keyword_text(JackKeyword::This)) {
        Some(JackKeyword::This)
    } else if has_prefix(s, keyword_text(JackKeyword::Let)) {
        Some(JackKeyword::Let)
    } else if has_prefix(s, keyword_text(JackKeyword::Do)) {
        Some(JackKeyword::Do)
    } else if has_prefix(s, keyword_text(JackKeyword::If)) {
        Some(JackKeyword::If)
    } else if has_prefix(s, keyword_text(JackKeyword::Else)) {
        Some(JackKeyword::Else)
    } else if has_prefix(s, keyword_text(JackKeyword::While)) {
        Some(JackKeyword::While)
    } else if has_prefix(s, keyword_text(JackKeyword::Return)) {
        Some(JackKeyword::Return)
    } else {
        None
    }
}

impl JackKeyword {
    /// `var`, `static` and `field` open a variable declaration.
    pub fn is_var_declar(&self) -> (r: bool)
        ensures
            r == (*self == JackKeyword::Var || *self == JackKeyword::Static || *self
                == JackKeyword::Field),
    {
        match self {
            Self::Var => true,
            Self::Static => true,
            Self::Field => true,
            _ => false,
        }
    }

    /// `true`, `false`, `this` and `null` are constant values.
    pub fn is_value(&self) -> (r: bool)
        ensures
            r == (*self == JackKeyword::True || *self == JackKeyword::False || *self
                == JackKeyword::This || *self == JackKeyword::Null),
    {
        match self {
            Self::True => true,
            Self::False => true,
            Self::This => true,
            Self::Null => true,
            _ => false,
        }
    }

    /// `function`, `method` and `constructor` open a subroutine.
    pub fn is_function(&self) -> (r: bool)
        ensures
            r == (*self == JackKeyword::Function || *self == JackKeyword::Method || *self
                == JackKeyword::Constructor),
    {
        match self {
            Self::Function => true,
            Self::Method => true,
            Self::Constructor => true,
            _ => false,
        }
    }

    /// `char`, `boolean`, `int` and `void` name built-in types.
    pub fn is_type(&self) -> (r: bool)
        ensures
            r == (*self == JackKeyword::Char || *self == JackKeyword::Boolean || *self
                == JackKeyword::Int || *self == JackKeyword::Void),
    {
        match self {
            Self::Char => true,
            Self::Boolean => true,
            Self::Int => true,
            Self::Void => true,
            _ => false,
        }
    }

    /// The keyword that `buff` starts with, if any.
    pub fn bytes_to_keyword(buff: &[u8]) -> (r: Option<Self>)
        ensures
            r == spec_bytes_to_keyword(buff@),
    {
        if starts_with(buff, &[99u8, 108u8, 97u8, 115u8, 115u8]) {
            assert([99u8, 108u8, 97u8, 115u8, 115u8]@ =~= keyword_text(JackKeyword::Class));
            return Some(Self::Class);
        }
        assert([99u8, 108u8, 97u8, 115u8, 115u8]@ =~= keyword_text(JackKeyword::Class));
        if starts_with(buff, &[99u8, 111u8, 110u8, 115u8, 116u8, 114u8, 117u8, 99u8, 116u8, 111u8, 114u8]) {
            assert([99u8, 111u8, 110u8, 115u8, 116u8, 114u8, 117u8, 99u8, 116u8, 111u8, 114u8]@ =~= keyword_text(JackKeyword::Constructor));
            return Some(Self::Constructor);
        }
        assert([99u8, 111u8, 110u8, 115u8, 116u8, 114u8, 117u8, 99u8, 116u8, 111u8, 114u8]@ =~= keyword_text(JackKeyword::Constructor));
        if starts_with(buff, &[109u8, 101u8, 116u8, 104u8, 111u8, 100u8]) {
            assert([109u8, 101u8, 116u8, 104u8, 111u8, 100u8]@ =~= keyword_text(JackKeyword::Method));
            return Some(Self::Method);
        }
        assert([109u8, 101u8, 116u8, 104u8, 111u8, 100u8]@ =~= keyword_text(JackKeyword::Method));
        if starts_with(buff, &[102u8, 117u8, 110u8, 99u8, 116u8, 105u8, 111u8, 110u8]) {
            assert([102u8, 117u8, 110u8, 99u8, 116u8, 105u8, 111u8, 110u8]@ =~= keyword_text(JackKeyword::Function));
            return Some(Self::Function);
        }
        assert([102u8, 117u8, 110u8, 99u8, 116u8, 105u8, 111u8, 110u8]@ =~= keyword_text(JackKeyword::Function));
        if starts_with(buff, &[102u8, 105u8, 101u8, 108u8, 100u8]) {
            assert([102u8, 105u8, 101u8, 108u8, 100u8]@ =~= keyword_text(JackKeyword::Field));
            return Some(Self::Field);
        }
        assert([102u8, 105u8, 101u8, 108u8, 100u8]@ =~= keyword_text(JackKeyword::Field));
        if starts_with(buff, &[115u8, 116u8, 97u8, 116u8, 105u8, 99u8]) {
            assert([115u8, 116u8, 97u8, 116u8, 105u8, 99u8]@ =~= keyword_text(JackKeyword::Static));
            return Some(Self::Static);
        }
        assert([115u8, 116u8, 97u8, 116u8, 105u8, 99u8]@ =~= keyword_text(JackKeyword::Static));
        if starts_with(buff, &[118u8, 97u8, 114u8]) {
            assert([118u8, 97u8, 114u8]@ =~= keyword_text(JackKeyword::Var));
            return Some(Self::Var);
        }
        assert([118u8, 97u8, 114u8]@ =~= keyword_text(JackKeyword::Var));
        if starts_with(buff, &[105u8, 110u8, 116u8]) {
            assert([105u8, 110u8, 116u8]@ =~= keyword_text(JackKeyword::Int));
            return Some(Self::Int);
        }
        assert([105u8, 110u8, 116u8]@ =~= keyword_text(JackKeyword::Int));
        if starts_with(buff, &[99u8, 104u8, 97u8, 114u8]) {
            assert([99u8, 104u8, 97u8, 114u8]@ =~= keyword_text(JackKeyword::Char));
            return Some(Self::Char);
        }
        assert([99u8, 104u8, 97u8, 114u8]@ =~= keyword_text(JackKeyword::Char));
        if starts_with(buff, &[98u8, 111u8, 111u8, 108u8, 101u8, 97u8, 110u8]) {
            assert([98u8, 111u8, 111u8, 108u8, 101u8, 97u8, 110u8]@ =~= keyword_text(JackKeyword::Boolean));
            return Some(Self::Boolean);
        }
        assert([98u8, 111u8, 111u8, 108u8, 101u8, 97u8, 110u8]@ =~= keyword_text(JackKeyword::Boolean));
        if starts_with(buff, &[118u8, 111u8, 105u8, 100u8]) {
            assert([118u8, 111u8, 105u8, 100u8]@ =~= keyword_text(JackKeyword::Void));
            return Some(Self::Void);
        }
        assert([118u8, 111u8, 105u8, 100u8]@ =~= keyword_text(JackKeyword::Void));
        if starts_with(buff, &[116u8, 114u8, 117u8, 101u8]) {
            assert([116u8, 114u8, 117u8, 101u8]@ =~= keyword_text(JackKeyword::True));
            return Some(Self::True);
        }
        assert([116u8, 114u8, 117u8, 101u8]@ =~= keyword_text(JackKeyword::True));
        if starts_with(buff, &[102u8, 97u8, 108u8, 115u8, 101u8]) {
            assert([102u8, 97u8, 108u8, 115u8, 101u8]@ =~= keyword_text(JackKeyword::False));
            return Some(Self::False);
        }
        assert([102u8, 97u8, 108u8, 115u8, 101u8]@ =~= keyword_text(JackKeyword::False));
        if starts_with(buff, &[110u8, 117u8, 108u8, 108u8]) {
            assert([110u8, 117u8, 108u8, 108u8]@ =~= keyword_text(JackKeyword::Null));
            return Some(Self::Null);
        }
        assert([110u8, 117u8, 108u8, 108u8]@ =~= keyword_text(JackKeyword::Null));
        if starts_with(buff, &[116u8, 104u8, 105u8, 115u8]) {
            assert([116u8, 104u8, 105u8, 115u8]@ =~= keyword_text(JackKeyword::This));
            return Some(Self::This);
        }
        assert([116u8, 104u8, 105u8, 115u8]@ =~= keyword_text(JackKeyword::This));
        if starts_with(buff, &[108u8, 101u8, 116u8]) {
            assert([108u8, 101u8, 116u8]@ =~= keyword_text(JackKeyword::Let));
            return Some(Self::Let);
        }
        assert([108u8, 101u8, 116u8]@ =~= keyword_text(JackKeyword::Let));
        if starts_with(buff, &[100u8, 111u8]) {
            assert([100u8, 111u8]@ =~= keyword_text(JackKeyword::Do));
            return Some(Self::Do);
        }
        assert([100u8, 111u8]@ =~= keyword_text(JackKeyword::Do));
        if starts_with(buff, &[105u8, 102u8]) {
            assert([105u8, 102u8]@ =~= keyword_text(JackKeyword::If));
            return Some(Self::If);
        }
        assert([105u8, 102u8]@ =~= keyword_text(JackKeyword::If));
        if starts_with(buff, &[101u8, 108u8, 115u8, 101u8]) {
            assert([101u8, 108u8, 115u8, 101u8]@ =~= keyword_text(JackKeyword::Else));
            return Some(Self::Else);
        }
        assert([101u8, 108u8, 115u8, 101u8]@ =~= keyword_text(JackKeyword::Else));
        if starts_with(buff, &[119u8, 104u8, 105u8, 108u8, 101u8]) {
            assert([119u8, 104u8, 105u8, 108u8, 101u8]@ =~= keyword_text(JackKeyword::While));
            return Some(Self::While);
        }
        assert([119u8, 104u8, 105u8, 108u8, 101u8]@ =~= keyword_text(JackKeyword::While));
        if starts_with(buff, &[114u8, 101u8, 116u8, 117u8, 114u8, 110u8]) {
            assert([114u8, 101u8, 116u8, 117u8, 114u8, 110u8]@ =~= keyword_text(JackKeyword::Return));
            return Some(Self::Return);
        }
        assert([114u8, 101u8, 116u8, 117u8, 114u8, 110u8]@ =~= keyword_text(JackKeyword::Return));
        None
    }

    /// The number of bytes of the keyword's spelling.
    pub fn size(&self) -> (r: usize)
        ensures
            r == keyword_text(*self).len(),
    {
        match self {
            Self::Constructor => 11,
            Self::Function => 8,
            Self::Boolean => 7,
            Self::Method => 6,
            Self::Static => 6,
            Self::Return => 6,
            Self::Class => 5,
            Self::Field => 5,
            Self::False => 5,
            Self::While => 5,
            Self::Char => 4,
            Self::Void => 4,
            Self::True => 4,
            Self::Null => 4,
            Self::This => 4,
            Self::Else => 4,
            Self::Var => 3,
            Self::Int => 3,
            Self::Let => 3,
            Self::Do => 2,
            Self::If => 2,
        }
    }
}

/// Every keyword is recognised from its own spelling, whatever follows it.
pub proof fn lemma_keyword_text_roundtrip(k: JackKeyword, rest: Seq<u8>)
    ensures
        spec_bytes_to_keyword(keyword_text(k) + rest) == Some(k),
{
    let s = keyword_text(k) + rest;
    assert(s.subrange(0, keyword_text(k).len() as int) =~= keyword_text(k));
    if k == JackKeyword::Constructor {
        assert(s[1] != keyword_text(JackKeyword::Class)[1]);
    }
    if k == JackKeyword::Function {
        assert(s[0] != keyword_text(JackKeyword::Class)[0]);
        assert(s[0] != keyword_text(JackKeyword::Constructor)[0]);
        assert(s[0] != keyword_text(JackKeyword::Method)[0]);
    }
    if k == JackKeyword::Boolean {
        assert(s[0] != keyword_text(JackKeyword::Class)[0]);
        assert(s[0] != keyword_text(JackKeyword::Constructor)[0]);
        assert(s[0] != keyword_text(JackKeyword::Method)[0]);
        assert(s[0] != keyword_text(JackKeyword::Function)[0]);
        assert(s[0] != keyword_text(JackKeyword::Field)[0]);
        assert(s[0] != keyword_text(JackKeyword::Static)[0]);
        assert(s[0] != keyword_text(JackKeyword::Var)[0]);
        assert(s[0] != keyword_text(JackKeyword::Int)[0]);
        assert(s[0] != keyword_text(JackKeyword::Char)[0]);
    }
    if k == JackKeyword::Method {
        assert(s[0] != keyword_text(JackKeyword::Class)[0]);
        assert(s[0] != keyword_text(JackKeyword::Constructor)[0]);
    }
    if k == JackKeyword::Static {
        assert(s[0] != keyword_text(JackKeyword::Class)[0]);
        assert(s[0] != keyword_text(JackKeyword::Constructor)[0]);
        assert(s[0] != keyword_text(JackKeyword::Method)[0]);
        assert(s[0] != keyword_text(JackKeyword::Function)[0]);
        assert(s[0] != keyword_text(JackKeyword::Field)[0]);
    }
    if k == JackKeyword::Return {
        assert(s[0] != keyword_text(JackKeyword::Class)[0]);
        assert(s[0] != keyword_text(JackKeyword::Constructor)[0]);
        assert(s[0] != keyword_text(JackKeyword::Method)[0]);
        assert(s[0] != keyword_text(JackKeyword::Function)[0]);
        assert(s[0] != keyword_text(JackKeyword::Field)[0]);
        assert(s[0] != keyword_text(JackKeyword::Static)[0]);
        assert(s[0] != keyword_text(JackKeyword::Var)[0]);
        assert(s[0] != keyword_text(JackKeyword::Int)[0]);
        assert(s[0] != keyword_text(JackKeyword::Char)[0]);
        assert(s[0] != keyword_text(JackKeyword::Boolean)[0]);
        assert(s[0] != keyword_text(JackKeyword::Void)[0]);
        assert(s[0] != keyword_text(JackKeyword::True)[0]);
        assert(s[0] != keyword_text(JackKeyword::False)[0]);
        assert(s[0] != keyword_text(JackKeyword::Null)[0]);
        assert(s[0] != keyword_text(JackKeyword::This)[0]);
        assert(s[0] != keyword_text(JackKeyword::Let)[0]);
        assert(s[0] != keyword_text(JackKeyword::Do)[0]);
        assert(s[0] != keyword_text(JackKeyword::If)[0]);
        assert(s[0] != keyword_text(JackKeyword::Else)[0]);
        assert(s[0] != keyword_text(JackKeyword::While)[0]);
    }
    if k == JackKeyword::Class {

    }
    if k == JackKeyword::Field {
        assert(s[0] != keyword_text(JackKeyword::Class)[0]);
        assert(s[0] != keyword_text(JackKeyword::Constructor)[0]);
        assert(s[0] != keyword_text(JackKeyword::Method)[0]);
        assert(s[1] != keyword_text(JackKeyword::Function)[1]);
    }
    if k == JackKeyword::False {
        assert(s[0] != keyword_text(JackKeyword::Class)[0]);
        assert(s[0] != keyword_text(JackKeyword::Constructor)[0]);
        assert(s[0] != keyword_text(JackKeyword::Method)[0]);
        assert(s[1] != keyword_text(JackKeyword::Function)[1]);
        assert(s[1] != keyword_text(JackKeyword::Field)[1]);
        assert(s[0] != keyword_text(JackKeyword::Static)[0]);
        assert(s[0] != keyword_text(JackKeyword::Var)[0]);
        assert(s[0] != keyword_text(JackKeyword::Int)[0]);
        assert(s[0] != keyword_text(JackKeyword::Char)[0]);
        assert(s[0] != keyword_text(JackKeyword::Boolean)[0]);
        assert(s[0] != keyword_text(JackKeyword::Void)[0]);
        assert(s[0] != keyword_text(JackKeyword::True)[0]);
    }
    if k == JackKeyword::While {
        assert(s[0] != keyword_text(JackKeyword::Class)[0]);
        assert(s[0] != keyword_text(JackKeyword::Constructor)[0]);
        assert(s[0] != keyword_text(JackKeyword::Method)[0]);
        assert(s[0] != keyword_text(JackKeyword::Function)[0]);
        assert(s[0] != keyword_text(JackKeyword::Field)[0]);
        assert(s[0] != keyword_text(JackKeyword::Static)[0]);
        assert(s[0] != keyword_text(JackKeyword::Var)[0]);
        assert(s[0] != keyword_text(JackKeyword::Int)[0]);
        assert(s[0] != keyword_text(JackKeyword::Char)[0]);
        assert(s[0] != keyword_text(JackKeyword::Boolean)[0]);
        assert(s[0] != keyword_text(JackKeyword::Void)[0]);
        assert(s[0] != keyword_text(JackKeyword::True)[0]);
        assert(s[0] != keyword_text(JackKeyword::False)[0]);
        assert(s[0] != keyword_text(JackKeyword::Null)[0]);
        assert(s[0] != keyword_text(JackKeyword::This)[0]);
        assert(s[0] != keyword_text(JackKeyword::Let)[0]);
        assert(s[0] != keyword_text(JackKeyword::Do)[0]);
        assert(s[0] != keyword_text(JackKeyword::If)[0]);
        assert(s[0] != keyword_text(JackKeyword::Else)[0]);
    }
    if k == JackKeyword::Char {
        assert(s[1] != keyword_text(JackKeyword::Class)[1]);
        assert(s[1] != keyword_text(JackKeyword::Constructor)[1]);
        assert(s[0] != keyword_text(JackKeyword::Method)[0]);
        assert(s[0] != keyword_text(JackKeyword::Function)[0]);
        assert(s[0] != keyword_text(JackKeyword::Field)[0]);
        assert(s[0] != keyword_text(JackKeyword::Static)[0]);
        assert(s[0] != keyword_text(JackKeyword::Var)[0]);
        assert(s[0] != keyword_text(JackKeyword::Int)[0]);
    }
    if k == JackKeyword::Void {
        assert(s[0] != keyword_text(JackKeyword::Class)[0]);
        assert(s[0] != keyword_text(JackKeyword::Constructor)[0]);
        assert(s[0] != keyword_text(JackKeyword::Method)[0]);
        assert(s[0] != keyword_text(JackKeyword::Function)[0]);
        assert(s[0] != keyword_text(JackKeyword::Field)[0]);
        assert(s[0] != keyword_text(JackKeyword::Static)[0]);
        assert(s[1] != keyword_text(JackKeyword::Var)[1]);
        assert(s[0] != keyword_text(JackKeyword::Int)[0]);
        assert(s[0] != keyword_text(JackKeyword::Char)[0]);
        assert(s[0] != keyword_text(JackKeyword::Boolean)[0]);
    }
    if k == JackKeyword::True {
        assert(s[0] != keyword_text(JackKeyword::Class)[0]);
        assert(s[0] != keyword_text(JackKeyword::Constructor)[0]);
        assert(s[0] != keyword_text(JackKeyword::Method)[0]);
        assert(s[0] != keyword_text(JackKeyword::Function)[0]);
        assert(s[0] != keyword_text(JackKeyword::Field)[0]);
        assert(s[0] != keyword_text(JackKeyword::Static)[0]);
        assert(s[0] != keyword_text(JackKeyword::Var)[0]);
        assert(s[0] != keyword_text(JackKeyword::Int)[0]);
        assert(s[0] != keyword_text(JackKeyword::Char)[0]);
        assert(s[0] != keyword_text(JackKeyword::Boolean)[0]);
        assert(s[0] != keyword_text(JackKeyword::Void)[0]);
    }
    if k == JackKeyword::Null {
        assert(s[0] != keyword_text(JackKeyword::Class)[0]);
        assert(s[0] != keyword_text(JackKeyword::Constructor)[0]);
        assert(s[0] != keyword_text(JackKeyword::Method)[0]);
        assert(s[0] != keyword_text(JackKeyword::Function)[0]);
        assert(s[0] != keyword_text(JackKeyword::Field)[0]);
        assert(s[0] != keyword_text(JackKeyword::Static)[0]);
        assert(s[0] != keyword_text(JackKeyword::Var)[0]);
        assert(s[0] != keyword_text(JackKeyword::Int)[0]);
        assert(s[0] != keyword_text(JackKeyword::Char)[0]);
        assert(s[0] != keyword_text(JackKeyword::Boolean)[0]);
        assert(s[0] != keyword_text(JackKeyword::Void)[0]);
        assert(s[0] != keyword_text(JackKeyword::True)[0]);
        assert(s[0] != keyword_text(JackKeyword::False)[0]);
    }
    if k == JackKeyword::This {
        assert(s[0] != keyword_text(JackKeyword::Class)[0]);
        assert(s[0] != keyword_text(JackKeyword::Constructor)[0]);
        assert(s[0] != keyword_text(JackKeyword::Method)[0]);
        assert(s[0] != keyword_text(JackKeyword::Function)[0]);
        assert(s[0] != keyword_text(JackKeyword::Field)[0]);
        assert(s[0] != keyword_text(JackKeyword::Static)[0]);
        assert(s[0] != keyword_text(JackKeyword::Var)[0]);
        assert(s[0] != keyword_text(JackKeyword::Int)[0]);
        assert(s[0] != keyword_text(JackKeyword::Char)[0]);
        assert(s[0] != keyword_text(JackKeyword::Boolean)[0]);
        assert(s[0] != keyword_text(JackKeyword::Void)[0]);
        assert(s[1] != keyword_text(JackKeyword::True)[1]);
        assert(s[0] != keyword_text(JackKeyword::False)[0]);
        assert(s[0] != keyword_text(JackKeyword::Null)[0]);
    }
    if k == JackKeyword::Else {
        assert(s[0] != keyword_text(JackKeyword::Class)[0]);
        assert(s[0] != keyword_text(JackKeyword::Constructor)[0]);
        assert(s[0] != keyword_text(JackKeyword::Method)[0]);
        assert(s[0] != keyword_text(JackKeyword::Function)[0]);
        assert(s[0] != keyword_text(JackKeyword::Field)[0]);
        assert(s[0] != keyword_text(JackKeyword::Static)[0]);
        assert(s[0] != keyword_text(JackKeyword::Var)[0]);
        assert(s[0] != keyword_text(JackKeyword::Int)[0]);
        assert(s[0] != keyword_text(JackKeyword::Char)[0]);
        assert(s[0] != keyword_text(JackKeyword::Boolean)[0]);
        assert(s[0] != keyword_text(JackKeyword::Void)[0]);
        assert(s[0] != keyword_text(JackKeyword::True)[0]);
        assert(s[0] != keyword_text(JackKeyword::False)[0]);
        assert(s[0] != keyword_text(JackKeyword::Null)[0]);
        assert(s[0] != keyword_text(JackKeyword::This)[0]);
        assert(s[0] != keyword_text(JackKeyword::Let)[0]);
        assert(s[0] != keyword_text(JackKeyword::Do)[0]);
        assert(s[0] != keyword_text(JackKeyword::If)[0]);
    }
    if k == JackKeyword::Var {
        assert(s[0] != keyword_text(JackKeyword::Class)[0]);
        assert(s[0] != keyword_text(JackKeyword::Constructor)[0]);
        assert(s[0] != keyword_text(JackKeyword::Method)[0]);
        assert(s[0] != keyword_text(JackKeyword::Function)[0]);
        assert(s[0] != keyword_text(JackKeyword::Field)[0]);
        assert(s[0] != keyword_text(JackKeyword::Static)[0]);
    }
    if k == JackKeyword::Int {
        assert(s[0] != keyword_text(JackKeyword::Class)[0]);
        assert(s[0] != keyword_text(JackKeyword::Constructor)[0]);
        assert(s[0] != keyword_text(JackKeyword::Method)[0]);
        assert(s[0] != keyword_text(JackKeyword::Function)[0]);
        assert(s[0] != keyword_text(JackKeyword::Field)[0]);
        assert(s[0] != keyword_text(JackKeyword::Static)[0]);
        assert(s[0] != keyword_text(JackKeyword::Var)[0]);
    }
    if k == JackKeyword::Let {
        assert(s[0] != keyword_text(JackKeyword::Class)[0]);
        assert(s[0] != keyword_text(JackKeyword::Constructor)[0]);
        assert(s[0] != keyword_text(JackKeyword::Method)[0]);
        assert(s[0] != keyword_text(JackKeyword::Function)[0]);
        assert(s[0] != keyword_text(JackKeyword::Field)[0]);
        assert(s[0] != keyword_text(JackKeyword::Static)[0]);
        assert(s[0] != keyword_text(JackKeyword::Var)[0]);
        assert(s[0] != keyword_text(JackKeyword::Int)[0]);
        assert(s[0] != keyword_text(JackKeyword::Char)[0]);
        assert(s[0] != keyword_text(JackKeyword::Boolean)[0]);
        assert(s[0] != keyword_text(JackKeyword::Void)[0]);
        assert(s[0] != keyword_text(JackKeyword::True)[0]);
        assert(s[0] != keyword_text(JackKeyword::False)[0]);
        assert(s[0] != keyword_text(JackKeyword::Null)[0]);
        assert(s[0] != keyword_text(JackKeyword::This)[0]);
    }
    if k == JackKeyword::Do {
        assert(s[0] != keyword_text(JackKeyword::Class)[0]);
        assert(s[0] != keyword_text(JackKeyword::Constructor)[0]);
        assert(s[0] != keyword_text(JackKeyword::Method)[0]);
        assert(s[0] != keyword_text(JackKeyword::Function)[0]);
        assert(s[0] != keyword_text(JackKeyword::Field)[0]);
        assert(s[0] != keyword_text(JackKeyword::Static)[0]);
        assert(s[0] != keyword_text(JackKeyword::Var)[0]);
        assert(s[0] != keyword_text(JackKeyword::Int)[0]);
        assert(s[0] != keyword_text(JackKeyword::Char)[0]);
        assert(s[0] != keyword_text(JackKeyword::Boolean)[0]);
        assert(s[0] != keyword_text(JackKeyword::Void)[0]);
        assert(s[0] != keyword_text(JackKeyword::True)[0]);
        assert(s[0] != keyword_text(JackKeyword::False)[0]);
        assert(s[0] != keyword_text(JackKeyword::Null)[0]);
        assert(s[0] != keyword_text(JackKeyword::This)[0]);
        assert(s[0] != keyword_text(JackKeyword::Let)[0]);
    }
    if k == JackKeyword::If {
        assert(s[0] != keyword_text(JackKeyword::Class)[0]);
        assert(s[0] != keyword_text(JackKeyword::Constructor)[0]);
        assert(s[0] != keyword_text(JackKeyword::Method)[0]);
        assert(s[0] != keyword_text(JackKeyword::Function)[0]);
        assert(s[0] != keyword_text(JackKeyword::Field)[0]);
        assert(s[0] != keyword_text(JackKeyword::Static)[0]);
        assert(s[0] != keyword_text(JackKeyword::Var)[0]);
        assert(s[1] != keyword_text(JackKeyword::Int)[1]);
        assert(s[0] != keyword_text(JackKeyword::Char)[0]);
        assert(s[0] != keyword_text(JackKeyword::Boolean)[0]);
        assert(s[0] != keyword_text(JackKeyword::Void)[0]);
        assert(s[0] != keyword_text(JackKeyword::True)[0]);
        assert(s[0] != keyword_text(JackKeyword::False)[0]);
        assert(s[0] != keyword_text(JackKeyword::Null)[0]);
        assert(s[0] != keyword_text(JackKeyword::This)[0]);
        assert(s[0] != keyword_text(JackKeyword::Let)[0]);
        assert(s[0] != keyword_text(JackKeyword::Do)[0]);
    }
}

/// Each keyword is spelt as the Jack language writes it.
pub proof fn lemma_keyword_spellings()
    ensures
        keyword_text(JackKeyword::Constructor) == seq!['c' as u8, 'o' as u8, 'n' as u8, 's' as u8, 't' as u8, 'r' as u8, 'u' as u8, 'c' as u8, 't' as u8, 'o' as u8, 'r' as u8],
        keyword_text(JackKeyword::Function) == seq!['f' as u8, 'u' as u8, 'n' as u8, 'c' as u8, 't' as u8, 'i' as u8, 'o' as u8, 'n' as u8],
        keyword_text(JackKeyword::Boolean) == seq!['b' as u8, 'o' as u8, 'o' as u8, 'l' as u8, 'e' as u8, 'a' as u8, 'n' as u8],
        keyword_text(JackKeyword::Method) == seq!['m' as u8, 'e' as u8, 't' as u8, 'h' as u8, 'o' as u8, 'd' as u8],
        keyword_text(JackKeyword::Static) == seq!['s' as u8, 't' as u8, 'a' as u8, 't' as u8, 'i' as u8, 'c' as u8],
        keyword_text(JackKeyword::Return) == seq!['r' as u8, 'e' as u8, 't' as u8, 'u' as u8, 'r' as u8, 'n' as u8],
        keyword_text(JackKeyword::Class) == seq!['c' as u8, 'l' as u8, 'a' as u8, 's' as u8, 's' as u8],
        keyword_text(JackKeyword::Field) == seq!['f' as u8, 'i' as u8, 'e' as u8, 'l' as u8, 'd' as u8],
        keyword_text(JackKeyword::False) == seq!['f' as u8, 'a' as u8, 'l' as u8, 's' as u8, 'e' as u8],
        keyword_text(JackKeyword::While) == seq!['w' as u8, 'h' as u8, 'i' as u8, 'l' as u8, 'e' as u8],
        keyword_text(JackKeyword::Char) == seq!['c' as u8, 'h' as u8, 'a' as u8, 'r' as u8],
        keyword_text(JackKeyword::Void) == seq!['v' as u8, 'o' as u8, 'i' as u8, 'd' as u8],
        keyword_text(JackKeyword::True) == seq!['t' as u8, 'r' as u8, 'u' as u8, 'e' as u8],
        keyword_text(JackKeyword::Null) == seq!['n' as u8, 'u' as u8, 'l' as u8, 'l' as u8],
        keyword_text(JackKeyword::This) == seq!['t' as u8, 'h' as u8, 'i' as u8, 's' as u8],
        keyword_text(JackKeyword::Else) == seq!['e' as u8, 'l' as u8, 's' as u8, 'e' as u8],
        keyword_text(JackKeyword::Var) == seq!['v' as u8, 'a' as u8, 'r' as u8],
        keyword_text(JackKeyword::Int) == seq!['i' as u8, 'n' as u8, 't' as u8],
        keyword_text(JackKeyword::Let) == seq!['l' as u8, 'e' as u8, 't' as u8],
        keyword_text(JackKeyword::Do) == seq!['d' as u8, 'o' as u8],
        keyword_text(JackKeyword::If) == seq!['i' as u8, 'f' as u8],
{
}

} // verus!

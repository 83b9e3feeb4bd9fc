use vstd::prelude::*;

verus! {

/// A one-byte symbol of the Jack language.
#[derive(Debug, PartialEq, Eq, Structural, Clone, Copy)]
pub enum JackSymbol {
    OpenCurlyBracket,
    CloseCurlyBracket,
    OpenSquareBracket,
    CloseSquareBracket,
    OpenRoundBracket,
    CloseRoundBracket,
    Period,
    Comma,
    Semicolon,
    Plus,
    Minus,
    Multiply,
    Divide,
    And,
    Or,
    Less,
    Greater,
    Eq,
    Not,
}

/// The byte that spells a symbol in Jack source text.
pub open spec fn symbol_char(s: JackSymbol) -> u8 {
    match s {
        JackSymbol::OpenCurlyBracket => 123u8,
        JackSymbol::CloseCurlyBracket => 125u8,
        JackSymbol::OpenSquareBracket => 91u8,
        JackSymbol::CloseSquareBracket => 93u8,
        JackSymbol::OpenRoundBracket => 40u8,
        JackSymbol::CloseRoundBracket => 41u8,
        JackSymbol::Period => 46u8,
        JackSymbol::Comma => 44u8,
        JackSymbol::Semicolon => 59u8,
        JackSymbol::Plus => 43u8,
        JackSymbol::Minus => 45u8,
        JackSymbol::Multiply => 42u8,
        JackSymbol::Divide => 47u8,
        JackSymbol::And => 38u8,
        JackSymbol::Or => 124u8,
        JackSymbol::Less => 60u8,
        JackSymbol::Greater => 62u8,
        JackSymbol::Eq => 61u8,
        JackSymbol::Not => 126u8,
    }
}

/// The symbol spelled by a byte, if any.
pub open spec fn spec_char_to_symbol(c: u8) -> Option<JackSymbol> {
    if c == 40u8 {
        Some(JackSymbol::OpenRoundBracket)
    } else if c == 41u8 {
        Some(JackSymbol::CloseRoundBracket)
    } else if c == 91u8 {
        Some(JackSymbol::OpenSquareBracket)
    } else if c == 93u8 {
        Some(JackSymbol::CloseSquareBracket)
    } else if c == 123u8 {
        Some(JackSymbol::OpenCurlyBracket)
    } else if c == 125u8 {
        Some(JackSymbol::CloseCurlyBracket)
    } else if c == 46u8 {
        Some(JackSymbol::Period)
    } else if c == 44u8 {
        Some(JackSymbol::Comma)
    } else if c == 59u8 {
        Some(JackSymbol::Semicolon)
    } else if c == 43u8 {
        Some(JackSymbol::Plus)
    } else if c == 45u8 {
        Some(JackSymbol::Minus)
    } else if c == 42u8 {
        Some(JackSymbol::Multiply)
    } else if c == 47u8 {
        Some(JackSymbol::Divide)
    } else if c == 38u8 {
        Some(JackSymbol::And)
    } else if c == 124u8 {
        Some(JackSymbol::Or)
    } else if c == 60u8 {
        Some(JackSymbol::Less)
    } else if c == 62u8 {
        Some(JackSymbol::Greater)
    } else if c == 61u8 {
        Some(JackSymbol::Eq)
    } else if c == 126u8 {
        Some(JackSymbol::Not)
    } else {
        None
    }
}

impl JackSymbol {
    /// Binary operators: `& | = > < + - * /`.
    pub fn is_op(&self) -> (r: bool)
        ensures
            r == (*self == JackSymbol::And || *self == JackSymbol::Or || *self == JackSymbol::Eq
                || *self == JackSymbol::Greater || *self == JackSymbol::Less || *self
                == JackSymbol::Plus || *self == JackSymbol::Minus || *self == JackSymbol::Multiply
                || *self == JackSymbol::Divide),
    {
        match self {
            JackSymbol::And => true,
            JackSymbol::Or => true,
            JackSymbol::Eq => true,
            JackSymbol::Greater => true,
            JackSymbol::Less => true,
            JackSymbol::Plus => true,
            JackSymbol::Minus => true,
            JackSymbol::Multiply => true,
            JackSymbol::Divide => true,
            _ => false,
        }
    }

    /// Unary operators: `~` and `-`.
    pub fn is_unary_op(&self) -> (r: bool)
        ensures
            r == (*self == JackSymbol::Not || *self == JackSymbol::Minus),
    {
        match self {
            JackSymbol::Not => true,
            JackSymbol::Minus => true,
            _ => false,
        }
    }

    /// The symbol spelled by the byte `c`, if any.
    pub fn char_to_symbol(c: u8) -> (r: Option<Self>)
        ensures
            r == spec_char_to_symbol(c),
    {
        match c {
            40 => Some(Self::OpenRoundBracket),
            41 => Some(Self::CloseRoundBracket),
            91 => Some(Self::OpenSquareBracket),
            93 => Some(Self::CloseSquareBracket),
            123 => Some(Self::OpenCurlyBracket),
            125 => Some(Self::CloseCurlyBracket),
            46 => Some(Self::Period),
            44 => Some(Self::Comma),
            59 => Some(Self::Semicolon),
            43 => Some(Self::Plus),
            45 => Some(Self::Minus),
            42 => Some(Self::Multiply),
            47 => Some(Self::Divide),
            38 => Some(Self::And),
            124 => Some(Self::Or),
            60 => Some(Self::Less),
            62 => Some(Self::Greater),
            61 => Some(Self::Eq),
            126 => Some(Self::Not),
            _ => None,
        }
    }
}

/// Reading a symbol's byte gives the symbol back, and a byte read as a symbol
/// is that symbol's byte.
pub proof fn lemma_symbol_char_roundtrip(s: JackSymbol, c: u8)
    ensures
        spec_char_to_symbol(symbol_char(s)) == Some(s),
        spec_char_to_symbol(c) == Some(s) ==> c == symbol_char(s),
{
}

/// Each symbol is spelt with its Jack character.
pub proof fn lemma_symbol_spellings()
    ensures
        symbol_char(JackSymbol::OpenCurlyBracket) == '{' as u8,
        symbol_char(JackSymbol::CloseCurlyBracket) == '}' as u8,
        symbol_char(JackSymbol::OpenSquareBracket) == '[' as u8,
        symbol_char(JackSymbol::CloseSquareBracket) == ']' as u8,
        symbol_char(JackSymbol::OpenRoundBracket) == '(' as u8,
        symbol_char(JackSymbol::CloseRoundBracket) == ')' as u8,
        symbol_char(JackSymbol::Period) == '.' as u8,
        symbol_char(JackSymbol::Comma) == ',' as u8,
        symbol_char(JackSymbol::Semicolon) == ';' as u8,
        symbol_char(JackSymbol::Plus) == '+' as u8,
        symbol_char(JackSymbol::Minus) == '-' as u8,
        symbol_char(JackSymbol::Multiply) == '*' as u8,
        symbol_char(JackSymbol::Divide) == '/' as u8,
        symbol_char(JackSymbol::And) == '&' as u8,
        symbol_char(JackSymbol::Or) == '|' as u8,
        symbol_char(JackSymbol::Less) == '<' as u8,
        symbol_char(JackSymbol::Greater) == '>' as u8,
        symbol_char(JackSymbol::Eq) == '=' as u8,
        symbol_char(JackSymbol::Not) == '~' as u8,
{
}

} // verus!

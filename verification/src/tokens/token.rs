use vstd::prelude::*;
use vstd::slice::slice_subrange;

use super::chars::{count_newlines, CARRIAGE_RETURN, NEWLINE, QUOTE, SPACE, TAB};
use super::comment::{spec_parse_comment, starts_comment, JackComment};
use super::ident::{ident_end, is_ident_byte, JackIdent};
use super::intlit::{int_end, is_int_byte, JackInt};
use super::keyword::{keyword_text, spec_bytes_to_keyword, JackKeyword};
use super::stringlit::{lemma_quote_pos_bounds, quote_pos, JackString};
use super::symbol::{spec_char_to_symbol, JackSymbol};

verus! {

/// A lexical unit of Jack source text.
#[derive(Debug, PartialEq)]
pub enum JackToken {
    Keyword(JackKeyword),
    Symbol(JackSymbol),
    IntLiteral(JackInt),
    StringLiteral(JackString),
    Comment(JackComment),
    Ident(JackIdent),
}

/// A token with its bytes taken as a sequence.
pub enum JackTokenV {
    Keyword(JackKeyword),
    Symbol(JackSymbol),
    IntLiteral(Seq<u8>),
    StringLiteral(Seq<u8>),
    Comment(Seq<u8>),
    Ident(Seq<u8>),
}

impl View for JackToken {
    type V = JackTokenV;

    open spec fn view(&self) -> JackTokenV {
        match self {
            JackToken::Keyword(k) => JackTokenV::Keyword(*k),
            JackToken::Symbol(s) => JackTokenV::Symbol(*s),
            JackToken::IntLiteral(i) => JackTokenV::IntLiteral(i.0@),
            JackToken::StringLiteral(s) => JackTokenV::StringLiteral(s.0@),
            JackToken::Comment(c) => JackTokenV::Comment(c.0@),
            JackToken::Ident(i) => JackTokenV::Ident(i.0@),
        }
    }
}

/// The token view of an optional token.
pub open spec fn opt_token_view(t: Option<JackToken>) -> Option<JackTokenV> {
    match t {
        Some(t) => Some(t@),
        None => None,
    }
}

/// Bytes that separate tokens: space, line feed, carriage return, tab.
pub open spec fn is_blank(c: u8) -> bool {
    c == SPACE || c == NEWLINE || c == CARRIAGE_RETURN || c == TAB
}

/// The first position at or after `i` that is not blank, or the length of `s`.
pub open spec fn blank_end(s: Seq<u8>, i: int) -> int
    decreases s.len() - i,
{
    if i >= s.len() {
        s.len() as int
    } else if !is_blank(s[i]) {
        i
    } else {
        blank_end(s, i + 1)
    }
}

/// The line count and column after reading the first `n` bytes of `s`,
/// starting at column `col`: a line feed adds a line and resets the column,
/// a space or a tab moves the column by one.
pub open spec fn blank_position(s: Seq<u8>, n: int, col: int) -> (int, int)
    decreases n,
{
    if n <= 0 {
        (0, col)
    } else {
        let (lines, c) = blank_position(s, n - 1, col);
        let b = s[n - 1];
        if b == SPACE || b == TAB {
            (lines, c + 1)
        } else if b == NEWLINE {
            (lines + 1, 0)
        } else {
            (lines, c)
        }
    }
}

pub proof fn lemma_blank_end_bounds(s: Seq<u8>, i: int)
    requires
        0 <= i <= s.len(),
    ensures
        i <= blank_end(s, i) <= s.len(),
    decreases s.len() - i,
{
    if i < s.len() && is_blank(s[i]) {
        lemma_blank_end_bounds(s, i + 1);
    }
}

pub proof fn lemma_blank_position_bounds(s: Seq<u8>, n: int, col: int)
    requires
        0 <= n,
        0 <= col,
    ensures
        0 <= blank_position(s, n, col).0 <= n,
        0 <= blank_position(s, n, col).1 <= col + n,
    decreases n,
{
    if n > 0 {
        lemma_blank_position_bounds(s, n - 1, col);
    }
}

fn is_blank_char(c: u8) -> (r: bool)
    ensures
        r == is_blank(c),
{
    c == SPACE || c == NEWLINE || c == CARRIAGE_RETURN || c == TAB
}

/// Skips the blanks at the start of `buff`, starting at column `s`. Returns
/// the bytes skipped, the line feeds among them and the column reached.
pub fn trim_start(buff: &[u8], s: usize) -> (r: (usize, usize, usize))
    requires
        s + buff@.len() <= usize::MAX,
    ensures
        r.0 == blank_end(buff@, 0),
        (r.1 as int, r.2 as int) == blank_position(buff@, r.0 as int, s as int),
{
    let mut cursor: usize = 0;
    let mut lines: usize = 0;
    let mut symbols: usize = s;
    proof {
        lemma_blank_end_bounds(buff@, 0);
    }
    while cursor < buff.len() && is_blank_char(buff[cursor])
        invariant
            s + buff@.len() <= usize::MAX,
            cursor <= buff@.len(),
            blank_end(buff@, cursor as int) == blank_end(buff@, 0),
            (lines as int, symbols as int) == blank_position(buff@, cursor as int, s as int),
        decreases buff@.len() - cursor,
    {
        let c = buff[cursor];
        proof {
            lemma_blank_position_bounds(buff@, cursor as int, s as int);
        }
        if c == SPACE {
            symbols = symbols + 1;
        } else if c == NEWLINE {
            lines = lines + 1;
            symbols = 0;
        } else if c == TAB {
            symbols = symbols + 1;
        }
        cursor = cursor + 1;
    }
    (cursor, lines, symbols)
}

/// The token read at the start of `s`, the bytes it takes, the line feeds
/// inside it, and whether it is known to be complete (a token that may go on
/// past the end of `s` is not).
///
/// The alternatives are tried in order: a comment; nothing at all when `s` is
/// empty; a symbol; a string literal; an integer literal; a keyword that is
/// not followed by a letter, a digit or `_`; an identifier.
pub open spec fn spec_bytes_to_token(s: Seq<u8>) -> (Option<JackTokenV>, int, int, bool) {
    if starts_comment(s) {
        let c = spec_parse_comment(s);
        (Some(JackTokenV::Comment(c.0.unwrap())), c.1, c.2, c.3)
    } else if s.len() == 0 {
        (None, 0, 0, false)
    } else if spec_char_to_symbol(s[0]) is Some {
        (Some(JackTokenV::Symbol(spec_char_to_symbol(s[0]).unwrap())), 1, 0, true)
    } else if s[0] == QUOTE {
        let body = s.subrange(1, s.len() as int);
        let p = quote_pos(body, 0);
        if p < body.len() {
            (Some(JackTokenV::StringLiteral(body.subrange(0, p))), p + 2, 0, true)
        } else {
            (None, p + 1, 0, false)
        }
    } else if is_int_byte(s[0]) {
        let e = int_end(s, 0);
        (Some(JackTokenV::IntLiteral(s.subrange(0, e))), e, 0, e < s.len())
    } else if spec_bytes_to_keyword(s) is Some && !({
        let n = keyword_text(spec_bytes_to_keyword(s).unwrap()).len();
        n < s.len() && (is_ident_byte(s[n as int]) || is_int_byte(s[n as int]))
    }) {
        let k = spec_bytes_to_keyword(s).unwrap();
        (Some(JackTokenV::Keyword(k)), keyword_text(k).len() as int, 0, true)
    } else {
        let e = ident_end(s, 0);
        (Some(JackTokenV::Ident(s.subrange(0, e))), e, 0, e < s.len())
    }
}

impl JackToken {
    /// Reads one token at the start of `buff`. Returns the token (none when
    /// `buff` is empty or holds an unclosed string literal), the bytes it
    /// takes, the line feeds inside it, and whether it is complete.
    pub fn bytes_to_token(buff: &[u8]) -> (r: (Option<Self>, usize, usize, bool))
        requires
            buff@.len() < usize::MAX,
        ensures
            (opt_token_view(r.0), r.1 as int, r.2 as int, r.3) == spec_bytes_to_token(buff@),
    {
        let cursor: usize = 0;
        let (comment, comment_len, lines, terminator) = JackComment::parse_comment(buff);
        if comment.is_some() {
            return (
                match comment {
                    Some(x) => Some(Self::Comment(x)),
                    None => None,
                },
                comment_len + cursor,
                lines,
                terminator,
            );
        }
        if buff.len() == 0 {
            return (None, cursor, 0, false);
        }
        let c: u8 = buff[cursor];
        if let Some(symbol) = JackSymbol::char_to_symbol(c) {
            return (Some(JackToken::Symbol(symbol)), cursor + 1, 0, true);
        }
        if c == QUOTE {
            let body = slice_subrange(buff, cursor + 1, buff.len());
            proof {
                lemma_quote_pos_bounds(body@, 0);
            }
            let (answer, literal_len) = JackString::parse_string_literal(body);
            let with_terminator = answer.is_some();
            return (
                match answer {
                    Some(x) => Some(Self::StringLiteral(x)),
                    None => None,
                },
                literal_len + cursor + 1,
                0,
                with_terminator,
            );
        }
        if JackInt::is_int_char(c) {
            let (answer, literal_len, with_terminator) = JackInt::parse_int_literal(buff);
            return (Some(Self::IntLiteral(answer)), literal_len + cursor, 0, with_terminator);
        }
        if let Some(keyword) = JackKeyword::bytes_to_keyword(buff) {
            let keyword_size = keyword.size();
            let continues = keyword_size < buff.len() && (JackIdent::is_ident_char(
                buff[keyword_size],
            ) || JackInt::is_int_char(buff[keyword_size]));
            if !continues {
                return (Some(JackToken::Keyword(keyword)), cursor + keyword_size, 0, true);
            }
        }
        let (result, ident_size, with_terminator) = JackIdent::parse_ident(buff);
        (Some(Self::Ident(result)), ident_size + cursor, 0, with_terminator)
    }
}

} // verus!

use vstd::prelude::*;

use super::chars::{count_newlines, lemma_count_newlines_push, CARRIAGE_RETURN, NEWLINE, SLASH, STAR};

verus! {

/// The text of a `//` or `/** */` comment, without its delimiters.
#[derive(Debug, PartialEq)]
pub struct JackComment(pub Vec<u8>);

/// `s` starts a comment: `//` or `/**`.
pub open spec fn starts_comment(s: Seq<u8>) -> bool {
    &&& s.len() > 1
    &&& s[0] == SLASH
    &&& (s[1] == SLASH || (s.len() > 2 && s[1] == STAR && s[2] == STAR))
}

/// A comment that starts with `/**` runs to the next `*/`; one that starts
/// with `//` runs to the end of the line.
pub open spec fn is_multiline_comment(s: Seq<u8>) -> bool {
    s[1] != SLASH
}

/// Where the comment's text begins.
pub open spec fn comment_text_start(s: Seq<u8>) -> int {
    if is_multiline_comment(s) {
        3
    } else {
        2
    }
}

/// Position `p` closes the comment: `*/` for a block comment, a line feed or
/// a carriage return for a line comment.
pub open spec fn is_comment_stop(s: Seq<u8>, p: int, multiline: bool) -> bool {
    if multiline {
        s[p] == STAR && p + 1 < s.len() && s[p + 1] == SLASH
    } else {
        s[p] == NEWLINE || s[p] == CARRIAGE_RETURN
    }
}

/// The first position at or after `i` that closes the comment, or the length
/// of `s` when there is none.
pub open spec fn comment_stop(s: Seq<u8>, i: int, multiline: bool) -> int
    decreases s.len() - i,
{
    if i >= s.len() {
        s.len() as int
    } else if is_comment_stop(s, i, multiline) {
        i
    } else {
        comment_stop(s, i + 1, multiline)
    }
}

/// The result of reading a comment at the start of `s`: its text, the number
/// of bytes it takes, the line feeds inside a block comment, and whether it
/// was closed before the end of `s`.
pub open spec fn spec_parse_comment(s: Seq<u8>) -> (Option<Seq<u8>>, int, int, bool) {
    if !starts_comment(s) {
        (None, 0, 0, true)
    } else {
        let multi = is_multiline_comment(s);
        let start = comment_text_start(s);
        let p = comment_stop(s, start, multi);
        let text = s.subrange(start, p);
        let lines = if multi {
            count_newlines(text) as int
        } else {
            0
        };
        if p < s.len() {
            (Some(text), p + if multi {
                2int
            } else {
                1int
            }, lines, true)
        } else {
            (Some(text), s.len() as int + 1, lines, false)
        }
    }
}

pub proof fn lemma_comment_stop_le(s: Seq<u8>, i: int, multiline: bool)
    requires
        0 <= i <= s.len(),
    ensures
        i <= comment_stop(s, i, multiline) <= s.len(),
    decreases s.len() - i,
{
    if i < s.len() && !is_comment_stop(s, i, multiline) {
        lemma_comment_stop_le(s, i + 1, multiline);
    }
}

impl JackComment {
    /// Reads a comment at the start of `buff`. Returns the comment (none when
    /// `buff` does not start with `//` or `/**`), the bytes it takes, the line
    /// feeds inside it, and whether it ended before the end of `buff`.
    pub fn parse_comment(buff: &[u8]) -> (r: (Option<Self>, usize, usize, bool))
        requires
            buff@.len() < usize::MAX,
        ensures
            ({
                let sp = spec_parse_comment(buff@);
                &&& r.0 is Some <==> sp.0 is Some
                &&& r.0 matches Some(c) ==> sp.0 == Some(c.0@)
                &&& r.1 == sp.1
                &&& r.2 == sp.2
                &&& r.3 == sp.3
            }),
    {
        let ghost s = buff@;
        if buff.len() == 0 || buff[0] != SLASH {
            return (None, 0, 0, true);
        }
        let is_multiline = if buff.len() > 1 && buff[1] == SLASH {
            false
        } else if buff.len() > 2 && buff[1] == STAR && buff[2] == STAR {
            true
        } else {
            return (None, 0, 0, true);
        };
        let start: usize = if is_multiline {
            3
        } else {
            2
        };
        let mut l: usize = start;
        let mut v: Vec<u8> = Vec::new();
        let mut lines: usize = 0;
        proof {
            lemma_comment_stop_le(s, start as int, is_multiline);
        }
        loop
            invariant
                s == buff@,
                s.len() < usize::MAX,
                starts_comment(s),
                is_multiline == is_multiline_comment(s),
                start == comment_text_start(s),
                start <= l <= s.len(),
                comment_stop(s, l as int, is_multiline) == comment_stop(
                    s,
                    start as int,
                    is_multiline,
                ),
                v@ == s.subrange(start as int, l as int),
                lines == if is_multiline {
                    count_newlines(v@) as int
                } else {
                    0
                },
                lines <= l,
            decreases s.len() - l,
        {
            if l == buff.len() {
                return (Some(JackComment(v)), l + 1, lines, false);
            }
            let c = buff[l];
            if !is_multiline && (c == NEWLINE || c == CARRIAGE_RETURN) {
                return (Some(JackComment(v)), l + 1, 0, true);
            }
            if is_multiline && c == STAR && l + 1 < buff.len() && buff[l + 1] == SLASH {
                return (Some(JackComment(v)), l + 2, lines, true);
            }
            proof {
                lemma_count_newlines_push(v@, c);
            }
            if c == NEWLINE {
                lines = lines + 1;
            }
            v.push(c);
            l = l + 1;
            assert(v@ =~= s.subrange(start as int, l as int));
        }
    }
}

} // verus!

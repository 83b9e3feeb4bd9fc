use vstd::prelude::*;
use vstd::slice::slice_subrange;

use super::chars::count_newlines;
use super::comment::{
    comment_stop, comment_text_start, is_multiline_comment, lemma_comment_stop_le,
    spec_parse_comment, starts_comment,
};
use super::ident::lemma_ident_end_bounds;
use super::intlit::lemma_int_end_bounds;
use super::keyword::{keyword_text, spec_bytes_to_keyword};
use super::stringlit::{lemma_quote_pos_bounds, quote_pos};
use super::token::{
    blank_end, blank_position, lemma_blank_end_bounds, lemma_blank_position_bounds,
    opt_token_view, spec_bytes_to_token, trim_start, JackToken, JackTokenV,
};
use super::has_prefix;

verus! {

/// Line feeds never outnumber the bytes.
pub proof fn lemma_count_newlines_le(s: Seq<u8>)
    ensures
        count_newlines(s) <= s.len(),
    decreases s.len(),
{
    if s.len() > 0 {
        lemma_count_newlines_le(s.drop_last());
    }
}

/// The stop found for a comment closes it.
pub proof fn lemma_comment_stop_closes(s: Seq<u8>, i: int, multiline: bool)
    requires
        0 <= i <= s.len(),
    ensures
        comment_stop(s, i, multiline) < s.len() ==> super::comment::is_comment_stop(
            s,
            comment_stop(s, i, multiline),
            multiline,
        ),
    decreases s.len() - i,
{
    if i < s.len() && !super::comment::is_comment_stop(s, i, multiline) {
        lemma_comment_stop_closes(s, i + 1, multiline);
    }
}

/// A complete token takes no more than the bytes there are, holds no more
/// line feeds than bytes, and a comment takes at least three bytes.
pub proof fn lemma_bytes_to_token_bounds(s: Seq<u8>)
    ensures
        spec_bytes_to_token(s).3 ==> 0 <= spec_bytes_to_token(s).1 <= s.len(),
        spec_bytes_to_token(s).1 <= s.len() + 1,
        0 <= spec_bytes_to_token(s).2 <= spec_bytes_to_token(s).1,
        spec_bytes_to_token(s).1 >= 0,
        spec_bytes_to_token(s).0 matches Some(JackTokenV::Comment(_)) ==> spec_bytes_to_token(s).1
            >= 3,
{
    if starts_comment(s) {
        let multi = is_multiline_comment(s);
        let start = comment_text_start(s);
        lemma_comment_stop_le(s, start, multi);
        lemma_comment_stop_closes(s, start, multi);
        let p = comment_stop(s, start, multi);
        lemma_count_newlines_le(s.subrange(start, p));
    } else if s.len() == 0 {
    } else if super::symbol::spec_char_to_symbol(s[0]) is Some {
    } else if s[0] == super::chars::QUOTE {
        let body = s.subrange(1, s.len() as int);
        lemma_quote_pos_bounds(body, 0);
    } else if super::intlit::is_int_byte(s[0]) {
        lemma_int_end_bounds(s, 0);
    } else if spec_bytes_to_keyword(s) is Some && !({
        let n = keyword_text(spec_bytes_to_keyword(s).unwrap()).len();
        n < s.len() && (super::ident::is_ident_byte(s[n as int]) || super::intlit::is_int_byte(
            s[n as int],
        ))
    }) {
        let k = spec_bytes_to_keyword(s).unwrap();
        assert(has_prefix(s, keyword_text(k)));
    } else {
        lemma_ident_end_bounds(s, 0);
    }
}

/// Where a tokenizer stands: its position, line and column, how many tokens
/// it handed out, and whether it reached the end.
pub struct TokenizerState {
    pub cursor: nat,
    pub line: nat,
    pub symbol: nat,
    pub idx: nat,
    pub eof: bool,
}

/// A token with where it was found: its number, its offset and size, and
/// the line and column where it starts.
pub struct JackTokenContext {
    pub payload: JackToken,
    pub idx: usize,
    pub offset: usize,
    pub size: usize,
    pub line: usize,
    pub symbol: usize,
}

/// A located token by its view.
pub struct TokenContextV {
    pub payload: JackTokenV,
    pub idx: nat,
    pub offset: nat,
    pub size: nat,
    pub line: nat,
    pub symbol: nat,
}

impl View for JackTokenContext {
    type V = TokenContextV;

    open spec fn view(&self) -> TokenContextV {
        TokenContextV {
            payload: self.payload@,
            idx: self.idx as nat,
            offset: self.offset as nat,
            size: self.size as nat,
            line: self.line as nat,
            symbol: self.symbol as nat,
        }
    }
}

/// The next token of the text `b` from state `st`: blanks are skipped, the
/// token is read, comments are passed over when `skip` holds, and a token
/// that runs to the end of the text ends the reading.
pub open spec fn next_token_spec(b: Seq<u8>, st: TokenizerState, skip: bool) -> (
    Option<TokenContextV>,
    TokenizerState,
)
    decreases b.len() - st.cursor,
{
    if st.eof || st.cursor > b.len() {
        (None, st)
    } else {
        let rest = b.subrange(st.cursor as int, b.len() as int);
        let trim = blank_end(rest, 0);
        let (tl, ts) = blank_position(rest, trim, st.symbol as int);
        let c1 = st.cursor + trim;
        let line1 = st.line + tl;
        let t = spec_bytes_to_token(b.subrange(c1, b.len() as int));
        let symbol2 = (ts + t.1) as nat;
        let line2 = (line1 + t.2) as nat;
        if !t.3 {
            (None, TokenizerState { cursor: c1 as nat, line: line2, symbol: symbol2, eof: true, ..st })
        } else {
            let c2 = (c1 + t.1) as nat;
            let next = TokenizerState { cursor: c2, line: line2, symbol: symbol2, eof: false, ..st };
            if skip && t.0 matches Some(JackTokenV::Comment(_)) {
                proof {
                    lemma_blank_end_bounds(rest, 0);
                    lemma_bytes_to_token_bounds(b.subrange(c1, b.len() as int));
                }
                next_token_spec(b, next, skip)
            } else {
                (
                    match t.0 {
                        Some(p) => Some(
                            TokenContextV {
                                payload: p,
                                idx: st.idx,
                                offset: c1 as nat,
                                size: t.1 as nat,
                                line: line1 as nat,
                                symbol: ts as nat,
                            },
                        ),
                        None => None,
                    },
                    TokenizerState { idx: st.idx + 1, ..next },
                )
            }
        }
    }
}

/// A reader of Jack tokens from a text held in memory.
pub struct JackTokenizer {
    buffer: Vec<u8>,
    cursor: usize,
    eof: bool,
    skip_comments: bool,
    token_idx: usize,
    line: usize,
    symbol: usize,
}

impl JackTokenizer {
    /// The text being read.
    pub closed spec fn text(&self) -> Seq<u8> {
        self.buffer@
    }

    /// Whether comments are passed over.
    pub closed spec fn skips_comments(&self) -> bool {
        self.skip_comments
    }

    pub closed spec fn state(&self) -> TokenizerState {
        TokenizerState {
            cursor: self.cursor as nat,
            line: self.line as nat,
            symbol: self.symbol as nat,
            idx: self.token_idx as nat,
            eof: self.eof,
        }
    }

    pub closed spec fn wf(&self) -> bool {
        &&& self.buffer@.len() < usize::MAX
        &&& self.cursor <= self.buffer@.len()
        &&& !self.eof ==> self.line <= self.cursor && self.symbol <= self.cursor
    }

    /// A tokenizer at the start of `content`.
    pub fn new(content: Vec<u8>, skip_comments: bool) -> (r: Self)
        requires
            content@.len() < usize::MAX,
        ensures
            r.wf(),
            r.text() == content@,
            r.skips_comments() == skip_comments,
            r.state() == (TokenizerState { cursor: 0, line: 0, symbol: 0, idx: 0, eof: false }),
    {
        Self {
            buffer: content,
            cursor: 0,
            token_idx: 0,
            line: 0,
            symbol: 0,
            eof: false,
            skip_comments,
        }
    }

    /// The next token and where it was found, or none once the text ends.
    pub fn next_token(&mut self) -> (r: Option<JackTokenContext>)
        requires
            old(self).wf(),
            old(self).state().idx < usize::MAX,
        ensures
            final(self).wf(),
            final(self).text() == old(self).text(),
            final(self).skips_comments() == old(self).skips_comments(),
            ({
                let (t, st) = next_token_spec(
                    old(self).text(),
                    old(self).state(),
                    old(self).skips_comments(),
                );
                &&& final(self).state() == st
                &&& match r {
                    Some(c) => t == Some(c@),
                    None => t is None,
                }
            }),
    {
        let ghost b = self.buffer@;
        let ghost skip = self.skip_comments;
        let ghost goal = next_token_spec(b, self.state(), skip);
        let len = self.buffer.len();
        loop
            invariant
                b == self.buffer@,
                b == old(self).buffer@,
                len == b.len(),
                skip == self.skip_comments,
                skip == old(self).skip_comments,
                self.token_idx < usize::MAX,
                goal == next_token_spec(old(self).text(), old(self).state(), old(self).skips_comments()),
                self.wf(),
                self.token_idx == old(self).token_idx,
                goal == next_token_spec(b, self.state(), skip),
            decreases len - self.cursor,
        {
            if self.eof {
                return None;
            }
            let ghost st0 = self.state();
            let rest = slice_subrange(self.buffer.as_slice(), self.cursor, len);
            proof {
                lemma_blank_end_bounds(rest@, 0);
            }
            let (trim_size, trim_lines, trim_symbols) = trim_start(rest, self.symbol);
            proof {
                lemma_blank_position_bounds(rest@, trim_size as int, self.symbol as int);
            }
            self.symbol = trim_symbols;
            self.line = self.line + trim_lines;
            self.cursor = self.cursor + trim_size;
            let tail = slice_subrange(self.buffer.as_slice(), self.cursor, len);
            let (token, token_size, lines, terminator) = JackToken::bytes_to_token(tail);
            proof {
                lemma_bytes_to_token_bounds(tail@);
            }
            let offset = self.cursor;
            let line1 = self.line;
            let column = self.symbol;
            if !terminator {
                self.symbol = self.symbol + token_size;
                self.line = self.line + lines;
                self.eof = true;
                return None;
            }
            self.symbol = self.symbol + token_size;
            self.line = self.line + lines;
            self.cursor = self.cursor + token_size;
            let is_comment = match &token {
                Some(JackToken::Comment(_)) => true,
                _ => false,
            };
            if self.skip_comments && is_comment {
                continue;
            }
            let idx = self.token_idx;
            self.token_idx = self.token_idx + 1;
            return match token {
                Some(payload) => Some(
                    JackTokenContext {
                        payload,
                        idx,
                        offset,
                        size: token_size,
                        line: line1,
                        symbol: column,
                    },
                ),
                None => None,
            };
        }
    }
}


/// A state from which no more token comes: the end was reached, or the
/// position lies past the text.
pub open spec fn tokenizer_done(b: Seq<u8>, st: TokenizerState) -> bool {
    st.eof || st.cursor > b.len()
}

/// The results of `n` successive reads from state `st`, and the state
/// they leave.
pub open spec fn token_run(b: Seq<u8>, st: TokenizerState, skip: bool, n: nat) -> (
    Seq<Option<TokenContextV>>,
    TokenizerState,
)
    decreases n,
{
    if n == 0 {
        (seq![], st)
    } else {
        let (r, s1) = token_run(b, st, skip, (n - 1) as nat);
        let (t, s2) = next_token_spec(b, s1, skip);
        (r.push(t), s2)
    }
}

/// One read: from a finished state it gives nothing and changes nothing; a
/// read that gives nothing leaves the tokenizer finished; a token read
/// carries the current number, the number then moves on by one, and no
/// comment is handed out while comments are skipped.
pub proof fn lemma_next_token_step(b: Seq<u8>, st: TokenizerState, skip: bool)
    ensures
        ({
            let (t, st2) = next_token_spec(b, st, skip);
            &&& tokenizer_done(b, st) ==> t is None && st2 == st
            &&& t is None ==> tokenizer_done(b, st2) && st2.idx == st.idx
            &&& t matches Some(c) ==> c.idx == st.idx && st2.idx == st.idx + 1 && (skip
                ==> !(c.payload is Comment))
        }),
    decreases b.len() - st.cursor,
{
    if st.eof || st.cursor > b.len() {
    } else {
        let rest = b.subrange(st.cursor as int, b.len() as int);
        let trim = blank_end(rest, 0);
        let (tl, ts) = blank_position(rest, trim, st.symbol as int);
        let c1 = st.cursor + trim;
        let line1 = st.line + tl;
        let t = spec_bytes_to_token(b.subrange(c1, b.len() as int));
        let symbol2 = (ts + t.1) as nat;
        let line2 = (line1 + t.2) as nat;
        if t.3 {
            assert(t.0 is Some);
            let c2 = (c1 + t.1) as nat;
            let next = TokenizerState { cursor: c2, line: line2, symbol: symbol2, eof: false, ..st };
            if skip && t.0 matches Some(JackTokenV::Comment(_)) {
                lemma_blank_end_bounds(rest, 0);
                lemma_bytes_to_token_bounds(b.subrange(c1, b.len() as int));
                lemma_next_token_step(b, next, skip);
            }
        }
    }
}

/// Successive reads hand out tokens numbered on from the first state's
/// number with no gap, hand out no comment while comments are skipped, and
/// once a read gives nothing every later read gives nothing too.
pub proof fn lemma_token_run(b: Seq<u8>, st: TokenizerState, skip: bool, n: nat)
    ensures
        ({
            let (r, s) = token_run(b, st, skip, n);
            &&& r.len() == n
            &&& forall|i: int| 0 <= i < n ==> (#[trigger] r[i] matches Some(c) ==> c.idx == st.idx + i
                && (skip ==> !(c.payload is Comment)))
            &&& forall|i: int, j: int| 0 <= i < j < n && #[trigger] r[i] is None ==> #[trigger] r[j] is None
            &&& (forall|i: int| 0 <= i < n ==> #[trigger] r[i] is Some) ==> s.idx == st.idx + n
            &&& (exists|i: int| 0 <= i < n && #[trigger] r[i] is None) ==> tokenizer_done(b, s)
        }),
    decreases n,
{
    if n > 0 {
        let m = (n - 1) as nat;
        lemma_token_run(b, st, skip, m);
        let (r0, s1) = token_run(b, st, skip, m);
        lemma_next_token_step(b, s1, skip);
        let (t, s2) = next_token_spec(b, s1, skip);
        let r = r0.push(t);
        assert(token_run(b, st, skip, n) == (r, s2));
        if exists|i: int| 0 <= i < m && #[trigger] r0[i] is None {
            assert(tokenizer_done(b, s1));
            assert(t is None && s2 == s1);
        } else {
            assert(forall|i: int| 0 <= i < m ==> #[trigger] r0[i] is Some);
            assert(s1.idx == st.idx + m);
        }
        assert forall|i: int| 0 <= i < n implies (#[trigger] r[i] matches Some(c) ==> c.idx == st.idx + i
            && (skip ==> !(c.payload is Comment))) by {
            if i < m {
                assert(r[i] == r0[i]);
            } else {
                if t is Some {
                    assert(forall|k: int| 0 <= k < m ==> #[trigger] r0[k] is Some);
                }
            }
        }
        assert forall|i: int, j: int| 0 <= i < j < n && #[trigger] r[i] is None implies #[trigger] r[j] is None by {
            assert(r[i] == r0[i]);
            if j < m {
                assert(r[j] == r0[j]);
            } else {
                assert(r0[i] is None);
            }
        }
        if forall|i: int| 0 <= i < n ==> #[trigger] r[i] is Some {
            assert forall|i: int| 0 <= i < m implies #[trigger] r0[i] is Some by {
                assert(r[i] == r0[i]);
            }
            assert(r[m as int] == t);
        }
        if exists|i: int| 0 <= i < n && #[trigger] r[i] is None {
            let i = choose|i: int| 0 <= i < n && #[trigger] r[i] is None;
            if i < m {
                assert(r[i] == r0[i]);
            } else {
                assert(r[m as int] == t);
            }
        }
    }
}

} // verus!

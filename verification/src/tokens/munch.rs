use vstd::prelude::*;

use super::has_prefix;
use super::ident::ident_end;
use super::keyword::{keyword_text, lemma_keyword_text_roundtrip, spec_bytes_to_keyword, JackKeyword};
use super::token::{spec_bytes_to_token, JackTokenV};

verus! {

/// A byte that can stand in a name: a letter, `_` or a digit.
pub open spec fn is_word_char(c: u8) -> bool {
    ('a' as u8 <= c <= 'z' as u8) || ('A' as u8 <= c <= 'Z' as u8) || c == '_' as u8 || ('0'
        as u8 <= c <= '9' as u8)
}

/// A byte that can start a name: a letter or `_`.
pub open spec fn is_word_start(c: u8) -> bool {
    ('a' as u8 <= c <= 'z' as u8) || ('A' as u8 <= c <= 'Z' as u8) || c == '_' as u8
}

proof fn lemma_keyword_letters(k: JackKeyword)
    ensures
        keyword_text(k).len() >= 2,
        forall|i: int| 0 <= i < keyword_text(k).len() ==> 'a' as u8 <= #[trigger] keyword_text(k)[i] <= 'z' as u8,
{
    let t = keyword_text(k);
    assert forall|i: int| 0 <= i < t.len() implies 'a' as u8 <= #[trigger] t[i] <= 'z' as u8 by {
        assert(0 <= i < 11);
        if i == 0 {
        } else if i == 1 {
        } else if i == 2 {
        } else if i == 3 {
        } else if i == 4 {
        } else if i == 5 {
        } else if i == 6 {
        } else if i == 7 {
        } else if i == 8 {
        } else if i == 9 {
        } else {
        }
    }
}

proof fn lemma_keyword_prefix(s: Seq<u8>)
    ensures
        spec_bytes_to_keyword(s) matches Some(k) ==> has_prefix(s, keyword_text(k)),
{
}

proof fn lemma_ident_run(s: Seq<u8>, i: int, n: int)
    requires
        0 <= i <= n <= s.len(),
        forall|j: int| 0 <= j < n ==> is_word_char(#[trigger] s[j]),
        n == s.len() || !is_word_char(s[n]),
    ensures
        ident_end(s, i) == n,
    decreases s.len() - i,
{
    if i < n {
        assert(is_word_char(s[i]));
        lemma_ident_run(s, i + 1, n);
    }
}

/// A name is read whole: where the text starts with a run of letters,
/// `_` and digits that begins with a letter or `_`, the token read is that
/// whole run. It is the keyword spelt by the run when there is one, else an
/// identifier holding the run; a keyword is never cut out of a longer name.
/// The token is complete unless an identifier runs to the end of the text.
pub proof fn lemma_maximal_munch(s: Seq<u8>, n: int)
    requires
        1 <= n <= s.len(),
        is_word_start(s[0]),
        forall|i: int| 0 <= i < n ==> is_word_char(#[trigger] s[i]),
        n == s.len() || !is_word_char(s[n]),
    ensures
        ({
            let t = spec_bytes_to_token(s);
            let w = s.subrange(0, n);
            &&& t.1 == n
            &&& t.2 == 0
            &&& (t.0 matches Some(JackTokenV::Keyword(k)) && keyword_text(k) == w) || (t.0
                matches Some(JackTokenV::Ident(x)) && x == w && forall|k: JackKeyword|
                keyword_text(k) != w)
            &&& t.3 == (n < s.len() || t.0 matches Some(JackTokenV::Keyword(_)))
        }),
{
    let w = s.subrange(0, n);
    let t = spec_bytes_to_token(s);
    lemma_keyword_prefix(s);
    lemma_ident_run(s, 0, n);
    assert(!(super::intlit::is_int_byte(s[0])));
    assert(super::symbol::spec_char_to_symbol(s[0]) is None);
    assert(!super::comment::starts_comment(s));
    assert(s[0] != super::chars::QUOTE);
    if exists|k: JackKeyword| keyword_text(k) == w {
        let k = choose|k: JackKeyword| keyword_text(k) == w;
        assert(s =~= keyword_text(k) + s.subrange(n, s.len() as int));
        lemma_keyword_text_roundtrip(k, s.subrange(n, s.len() as int));
        assert(spec_bytes_to_keyword(s) == Some(k));
        assert(t.0 == Some(JackTokenV::Keyword(k)));
    } else {
        match spec_bytes_to_keyword(s) {
            Some(k) => {
                let kt = keyword_text(k);
                lemma_keyword_letters(k);
                assert(s.subrange(0, kt.len() as int) == kt);
                if kt.len() < n {
                    assert(s[kt.len() as int] == s[kt.len() as int]);
                    assert(is_word_char(s[kt.len() as int]));
                } else if kt.len() == n {
                    assert(w =~= kt);
                } else {
                    assert(s[n] == kt[n]);
                    assert(is_word_char(s[n]));
                }
            },
            None => {},
        }
        assert(t.0 == Some(JackTokenV::Ident(s.subrange(0, ident_end(s, 0)))));
    }
}

} // verus!

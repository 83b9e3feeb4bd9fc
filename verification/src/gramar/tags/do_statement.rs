use vstd::prelude::*;

use crate::gramar::tag::{
    JackAstTagLabel, JackAstTagNode, JackAstTagNodeV, JackAstTagResult, JackAstTagResultV,
};
use crate::tokens::{JackKeyword, JackSymbol, JackToken, JackTokenV};

use super::bracket::{bracket_new, BracketTag, BracketTagKind};

verus! {

/// How far a `do` statement has got.
#[derive(Debug, PartialEq, Eq, Structural, Clone, Copy)]
pub enum DoTagStage {
    AwaitDo,
    AwaitIdent,
    AwaitExpr,
    AwaitSemicolon,
    Terminate,
}

/// The rule `do name(.name)? ( expressions ) ;`.
pub struct DoTag {
    stage: DoTagStage,
}

impl View for DoTag {
    type V = DoTagStage;

    closed spec fn view(&self) -> DoTagStage {
        self.stage
    }
}

impl Default for DoTag {
    fn default() -> (r: Self)
        ensures
            r@ == DoTagStage::AwaitDo,
    {
        DoTag { stage: DoTagStage::AwaitDo }
    }
}

/// One step of the `do` rule.
pub open spec fn do_feed(s: DoTagStage, t: JackTokenV) -> (DoTagStage, JackAstTagResultV) {
    match (t, s) {
        (_, DoTagStage::Terminate) => (s, JackAstTagResultV::Finish),
        (JackTokenV::Symbol(JackSymbol::Semicolon), DoTagStage::AwaitSemicolon) => (
            DoTagStage::Terminate,
            JackAstTagResultV::Push,
        ),
        (JackTokenV::Symbol(JackSymbol::Period), DoTagStage::AwaitExpr) => (
            DoTagStage::AwaitIdent,
            JackAstTagResultV::Push,
        ),
        (_, DoTagStage::AwaitExpr) => (
            DoTagStage::AwaitSemicolon,
            JackAstTagResultV::Move(
                JackAstTagNodeV::Bracket(bracket_new(BracketTagKind::RoundExpressions)),
            ),
        ),
        (JackTokenV::Ident(_), DoTagStage::AwaitIdent) => (
            DoTagStage::AwaitExpr,
            JackAstTagResultV::Push,
        ),
        (JackTokenV::Keyword(JackKeyword::Do), DoTagStage::AwaitDo) => (
            DoTagStage::AwaitIdent,
            JackAstTagResultV::Push,
        ),
        _ => (s, JackAstTagResultV::Error),
    }
}

impl DoTag {
    pub fn get_label(&self) -> (r: JackAstTagLabel)
        ensures
            r == JackAstTagLabel::Do,
    {
        JackAstTagLabel::Do
    }

    /// Complete once its semicolon is read.
    pub fn is_consistent(&self) -> (r: bool)
        ensures
            r == (self@ == DoTagStage::Terminate),
    {
        self.stage == DoTagStage::Terminate
    }

    pub fn feed_token(&mut self, token: &JackToken) -> (r: JackAstTagResult)
        ensures
            (final(self)@, r@) == do_feed(old(self)@, token@),
    {
        match (token, &self.stage) {
            (_, DoTagStage::Terminate) => JackAstTagResult::Finish,
            (JackToken::Symbol(JackSymbol::Semicolon), DoTagStage::AwaitSemicolon) => {
                self.stage = DoTagStage::Terminate;
                JackAstTagResult::Push
            },
            (JackToken::Symbol(JackSymbol::Period), DoTagStage::AwaitExpr) => {
                self.stage = DoTagStage::AwaitIdent;
                JackAstTagResult::Push
            },
            (_, DoTagStage::AwaitExpr) => {
                let expression = BracketTag::new(BracketTagKind::RoundExpressions);
                self.stage = DoTagStage::AwaitSemicolon;
                JackAstTagResult::Move(JackAstTagNode::Bracket(expression))
            },
            (JackToken::Ident(_), DoTagStage::AwaitIdent) => {
                self.stage = DoTagStage::AwaitExpr;
                JackAstTagResult::Push
            },
            (JackToken::Keyword(JackKeyword::Do), DoTagStage::AwaitDo) => {
                self.stage = DoTagStage::AwaitIdent;
                JackAstTagResult::Push
            },
            _ => JackAstTagResult::Error,
        }
    }
}

/// The stage and the results of feeding tokens one after the other.
pub open spec fn do_run(s: DoTagStage, ts: Seq<JackTokenV>) -> (DoTagStage, Seq<JackAstTagResultV>)
    decreases ts.len(),
{
    if ts.len() == 0 {
        (s, seq![])
    } else {
        let (s1, r) = do_feed(s, ts[0]);
        let (s2, rs) = do_run(s1, ts.drop_first());
        (s2, seq![r] + rs)
    }
}

/// The `do` rule accepts every statement `do name(.name)? ( args ) ;`:
/// fed its tokens from the start, it reports no error, hands the argument
/// list, from its `(` on, to a bracket rule, and is complete after the `;`.
pub proof fn lemma_do_accepts(first: Seq<u8>, second: Seq<u8>, qualified: bool)
    ensures
        ({
            let ts = if qualified {
                seq![JackTokenV::Keyword(JackKeyword::Do), JackTokenV::Ident(first), JackTokenV::Symbol(JackSymbol::Period), JackTokenV::Ident(second), JackTokenV::Symbol(JackSymbol::OpenRoundBracket), JackTokenV::Symbol(JackSymbol::Semicolon)]
            } else {
                seq![JackTokenV::Keyword(JackKeyword::Do), JackTokenV::Ident(first), JackTokenV::Symbol(JackSymbol::OpenRoundBracket), JackTokenV::Symbol(JackSymbol::Semicolon)]
            };
            let (s, rs) = do_run(DoTagStage::AwaitDo, ts);
            &&& rs.len() == ts.len()
            &&& forall|i: int| 0 <= i < rs.len() ==> !(#[trigger] rs[i] is Error)
            &&& s == DoTagStage::Terminate
            &&& rs[ts.len() - 2] == JackAstTagResultV::Move(
                JackAstTagNodeV::Bracket(bracket_new(BracketTagKind::RoundExpressions)),
            )
        }),
{
    reveal_with_fuel(do_run, 7);
    let a = seq![JackTokenV::Keyword(JackKeyword::Do), JackTokenV::Ident(first), JackTokenV::Symbol(JackSymbol::Period), JackTokenV::Ident(second), JackTokenV::Symbol(JackSymbol::OpenRoundBracket), JackTokenV::Symbol(JackSymbol::Semicolon)];
    let b = seq![JackTokenV::Keyword(JackKeyword::Do), JackTokenV::Ident(first), JackTokenV::Symbol(JackSymbol::OpenRoundBracket), JackTokenV::Symbol(JackSymbol::Semicolon)];
    assert(a.drop_first().drop_first().drop_first().drop_first().drop_first().drop_first().len() == 0);
    assert(b.drop_first().drop_first().drop_first().drop_first().len() == 0);
}

} // verus!

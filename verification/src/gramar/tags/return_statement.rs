use vstd::prelude::*;

use crate::gramar::tag::{
    JackAstTagLabel, JackAstTagNode, JackAstTagNodeV, JackAstTagResult, JackAstTagResultV,
};
use crate::tokens::{JackKeyword, JackSymbol, JackToken, JackTokenV};

use super::expression::{ExpressionTag, ExpressionTagStage};

verus! {

/// How far a `return` statement has got.
#[derive(Debug, PartialEq, Eq, Structural, Clone, Copy)]
pub enum ReturnTagStage {
    AwaitReturn,
    AwaitExpr,
    AwaitSemicolon,
    Terminate,
}

/// The rule `return expression? ;`.
pub struct ReturnTag {
    stage: ReturnTagStage,
}

impl View for ReturnTag {
    type V = ReturnTagStage;

    closed spec fn view(&self) -> ReturnTagStage {
        self.stage
    }
}

impl Default for ReturnTag {
    fn default() -> (r: Self)
        ensures
            r@ == ReturnTagStage::AwaitReturn,
    {
        ReturnTag { stage: ReturnTagStage::AwaitReturn }
    }
}

/// One step of the `return` rule.
pub open spec fn return_feed(s: ReturnTagStage, t: JackTokenV) -> (ReturnTagStage, JackAstTagResultV) {
    match (t, s) {
        (_, ReturnTagStage::Terminate) => (s, JackAstTagResultV::Finish),
        (JackTokenV::Symbol(JackSymbol::Semicolon), ReturnTagStage::AwaitSemicolon) => (
            ReturnTagStage::Terminate,
            JackAstTagResultV::Push,
        ),
        (JackTokenV::Symbol(JackSymbol::Semicolon), ReturnTagStage::AwaitExpr) => (
            ReturnTagStage::Terminate,
            JackAstTagResultV::Push,
        ),
        (_, ReturnTagStage::AwaitExpr) => (
            ReturnTagStage::AwaitSemicolon,
            JackAstTagResultV::Move(JackAstTagNodeV::Expression(ExpressionTagStage::AwaitTerm)),
        ),
        (JackTokenV::Keyword(JackKeyword::Return), ReturnTagStage::AwaitReturn) => (
            ReturnTagStage::AwaitExpr,
            JackAstTagResultV::Push,
        ),
        _ => (s, JackAstTagResultV::Error),
    }
}

impl ReturnTag {
    pub fn get_label(&self) -> (r: JackAstTagLabel)
        ensures
            r == JackAstTagLabel::Return,
    {
        JackAstTagLabel::Return
    }

    /// Complete once its semicolon is read.
    pub fn is_consistent(&self) -> (r: bool)
        ensures
            r == (self@ == ReturnTagStage::Terminate),
    {
        self.stage == ReturnTagStage::Terminate
    }

    pub fn feed_token(&mut self, token: &JackToken) -> (r: JackAstTagResult)
        ensures
            (final(self)@, r@) == return_feed(old(self)@, token@),
    {
        match (token, &self.stage) {
            (_, ReturnTagStage::Terminate) => JackAstTagResult::Finish,
            (JackToken::Symbol(JackSymbol::Semicolon), ReturnTagStage::AwaitSemicolon) => {
                self.stage = ReturnTagStage::Terminate;
                JackAstTagResult::Push
            },
            (JackToken::Symbol(JackSymbol::Semicolon), ReturnTagStage::AwaitExpr) => {
                self.stage = ReturnTagStage::Terminate;
                JackAstTagResult::Push
            },
            (_, ReturnTagStage::AwaitExpr) => {
                let expression = ExpressionTag::default();
                self.stage = ReturnTagStage::AwaitSemicolon;
                JackAstTagResult::Move(JackAstTagNode::Expression(expression))
            },
            (JackToken::Keyword(JackKeyword::Return), ReturnTagStage::AwaitReturn) => {
                self.stage = ReturnTagStage::AwaitExpr;
                JackAstTagResult::Push
            },
            _ => JackAstTagResult::Error,
        }
    }
}

/// The stage and the results of feeding tokens one after the other.
pub open spec fn return_run(s: ReturnTagStage, ts: Seq<JackTokenV>) -> (ReturnTagStage, Seq<JackAstTagResultV>)
    decreases ts.len(),
{
    if ts.len() == 0 {
        (s, seq![])
    } else {
        let (s1, r) = return_feed(s, ts[0]);
        let (s2, rs) = return_run(s1, ts.drop_first());
        (s2, seq![r] + rs)
    }
}

/// The `return` rule accepts every statement `return expression? ;`: fed
/// its tokens from the start, it reports no error, hands a value, from its
/// first token on, to an expression rule, and is complete after the `;`.
pub proof fn lemma_return_accepts(first: JackTokenV, with_value: bool)
    requires
        first != JackTokenV::Symbol(JackSymbol::Semicolon),
    ensures
        ({
            let ts = if with_value {
                seq![JackTokenV::Keyword(JackKeyword::Return), first, JackTokenV::Symbol(JackSymbol::Semicolon)]
            } else {
                seq![JackTokenV::Keyword(JackKeyword::Return), JackTokenV::Symbol(JackSymbol::Semicolon)]
            };
            let (s, rs) = return_run(ReturnTagStage::AwaitReturn, ts);
            &&& rs.len() == ts.len()
            &&& forall|i: int| 0 <= i < rs.len() ==> !(#[trigger] rs[i] is Error)
            &&& s == ReturnTagStage::Terminate
            &&& with_value ==> rs[1] == JackAstTagResultV::Move(
                JackAstTagNodeV::Expression(ExpressionTagStage::AwaitTerm),
            )
        }),
{
    reveal_with_fuel(return_run, 5);
    let a = seq![JackTokenV::Keyword(JackKeyword::Return), first, JackTokenV::Symbol(JackSymbol::Semicolon)];
    let b = seq![JackTokenV::Keyword(JackKeyword::Return), JackTokenV::Symbol(JackSymbol::Semicolon)];
    assert(a.drop_first().drop_first().drop_first().len() == 0);
    assert(b.drop_first().drop_first().len() == 0);
}

} // verus!

use vstd::prelude::*;

use crate::gramar::tag::{
    JackAstTagLabel, JackAstTagNode, JackAstTagNodeV, JackAstTagResult, JackAstTagResultV,
};
use crate::tokens::{JackKeyword, JackSymbol, JackToken, JackTokenV};

use super::bracket::{bracket_new, BracketTag, BracketTagKind};

verus! {

/// How far an `if` statement has got.
#[derive(Debug, PartialEq, Eq, Structural, Clone, Copy)]
pub enum IfTagStage {
    AwaitIf,
    AwaitCondition,
    AwaitBody,
    AwaitMaybeElse,
    AwaitElseBody,
    Terminate,
}

/// The rule `if ( expression ) { statements } (else { statements })?`.
pub struct IfTag {
    stage: IfTagStage,
}

impl View for IfTag {
    type V = IfTagStage;

    closed spec fn view(&self) -> IfTagStage {
        self.stage
    }
}

impl Default for IfTag {
    fn default() -> (r: Self)
        ensures
            r@ == IfTagStage::AwaitIf,
    {
        IfTag { stage: IfTagStage::AwaitIf }
    }
}

/// One step of the `if` rule.
pub open spec fn if_feed(s: IfTagStage, t: JackTokenV) -> (IfTagStage, JackAstTagResultV) {
    match (t, s) {
        (_, IfTagStage::Terminate) => (s, JackAstTagResultV::Finish),
        (JackTokenV::Keyword(JackKeyword::Else), IfTagStage::AwaitMaybeElse) => (
            IfTagStage::AwaitElseBody,
            JackAstTagResultV::Push,
        ),
        (_, IfTagStage::AwaitMaybeElse) => (IfTagStage::Terminate, JackAstTagResultV::Finish),
        (_, IfTagStage::AwaitElseBody) => (
            IfTagStage::Terminate,
            JackAstTagResultV::Move(JackAstTagNodeV::Bracket(bracket_new(BracketTagKind::Curly))),
        ),
        (_, IfTagStage::AwaitBody) => (
            IfTagStage::AwaitMaybeElse,
            JackAstTagResultV::Move(JackAstTagNodeV::Bracket(bracket_new(BracketTagKind::Curly))),
        ),
        (_, IfTagStage::AwaitCondition) => (
            IfTagStage::AwaitBody,
            JackAstTagResultV::Move(
                JackAstTagNodeV::Bracket(bracket_new(BracketTagKind::RoundExpression)),
            ),
        ),
        (JackTokenV::Keyword(JackKeyword::If), IfTagStage::AwaitIf) => (
            IfTagStage::AwaitCondition,
            JackAstTagResultV::Push,
        ),
        _ => (s, JackAstTagResultV::Error),
    }
}

impl IfTag {
    pub fn get_label(&self) -> (r: JackAstTagLabel)
        ensures
            r == JackAstTagLabel::If,
    {
        JackAstTagLabel::If
    }

    /// Complete after the first body, with or without an `else`.
    pub fn is_consistent(&self) -> (r: bool)
        ensures
            r == (self@ == IfTagStage::Terminate || self@ == IfTagStage::AwaitMaybeElse),
    {
        self.stage == IfTagStage::Terminate || self.stage == IfTagStage::AwaitMaybeElse
    }

    pub fn feed_token(&mut self, token: &JackToken) -> (r: JackAstTagResult)
        ensures
            (final(self)@, r@) == if_feed(old(self)@, token@),
    {
        match (token, &self.stage) {
            (_, IfTagStage::Terminate) => JackAstTagResult::Finish,
            (JackToken::Keyword(JackKeyword::Else), IfTagStage::AwaitMaybeElse) => {
                self.stage = IfTagStage::AwaitElseBody;
                JackAstTagResult::Push
            },
            (_, IfTagStage::AwaitMaybeElse) => {
                self.stage = IfTagStage::Terminate;
                JackAstTagResult::Finish
            },
            (_, IfTagStage::AwaitElseBody) => {
                let expression = BracketTag::new(BracketTagKind::Curly);
                self.stage = IfTagStage::Terminate;
                JackAstTagResult::Move(JackAstTagNode::Bracket(expression))
            },
            (_, IfTagStage::AwaitBody) => {
                let expression = BracketTag::new(BracketTagKind::Curly);
                self.stage = IfTagStage::AwaitMaybeElse;
                JackAstTagResult::Move(JackAstTagNode::Bracket(expression))
            },
            (_, IfTagStage::AwaitCondition) => {
                let expression = BracketTag::new(BracketTagKind::RoundExpression);
                self.stage = IfTagStage::AwaitBody;
                JackAstTagResult::Move(JackAstTagNode::Bracket(expression))
            },
            (JackToken::Keyword(JackKeyword::If), IfTagStage::AwaitIf) => {
                self.stage = IfTagStage::AwaitCondition;
                JackAstTagResult::Push
            },
            _ => JackAstTagResult::Error,
        }
    }
}

/// The stage and the results of feeding tokens one after the other.
pub open spec fn if_run(s: IfTagStage, ts: Seq<JackTokenV>) -> (IfTagStage, Seq<JackAstTagResultV>)
    decreases ts.len(),
{
    if ts.len() == 0 {
        (s, seq![])
    } else {
        let (s1, r) = if_feed(s, ts[0]);
        let (s2, rs) = if_run(s1, ts.drop_first());
        (s2, seq![r] + rs)
    }
}

/// The `if` rule accepts every statement `if ( expression ) { statements }
/// (else { statements })?`: fed `if`, the opening brackets and `else`, it
/// reports no error, hands the condition and each body to bracket rules,
/// and is complete after the first body and after the `else` body.
pub proof fn lemma_if_accepts(with_else: bool)
    ensures
        ({
            let ts = if with_else {
                seq![JackTokenV::Keyword(JackKeyword::If), JackTokenV::Symbol(JackSymbol::OpenRoundBracket), JackTokenV::Symbol(JackSymbol::OpenCurlyBracket), JackTokenV::Keyword(JackKeyword::Else), JackTokenV::Symbol(JackSymbol::OpenCurlyBracket)]
            } else {
                seq![JackTokenV::Keyword(JackKeyword::If), JackTokenV::Symbol(JackSymbol::OpenRoundBracket), JackTokenV::Symbol(JackSymbol::OpenCurlyBracket)]
            };
            let (s, rs) = if_run(IfTagStage::AwaitIf, ts);
            &&& rs.len() == ts.len()
            &&& forall|i: int| 0 <= i < rs.len() ==> !(#[trigger] rs[i] is Error)
            &&& (s == IfTagStage::Terminate || s == IfTagStage::AwaitMaybeElse)
            &&& rs[1] == JackAstTagResultV::Move(
                JackAstTagNodeV::Bracket(bracket_new(BracketTagKind::RoundExpression)),
            )
            &&& rs[2] == JackAstTagResultV::Move(JackAstTagNodeV::Bracket(bracket_new(BracketTagKind::Curly)))
            &&& with_else ==> rs[4] == JackAstTagResultV::Move(
                JackAstTagNodeV::Bracket(bracket_new(BracketTagKind::Curly)),
            ) && s == IfTagStage::Terminate
        }),
{
    reveal_with_fuel(if_run, 6);
    let a = seq![JackTokenV::Keyword(JackKeyword::If), JackTokenV::Symbol(JackSymbol::OpenRoundBracket), JackTokenV::Symbol(JackSymbol::OpenCurlyBracket), JackTokenV::Keyword(JackKeyword::Else), JackTokenV::Symbol(JackSymbol::OpenCurlyBracket)];
    let b = seq![JackTokenV::Keyword(JackKeyword::If), JackTokenV::Symbol(JackSymbol::OpenRoundBracket), JackTokenV::Symbol(JackSymbol::OpenCurlyBracket)];
    assert(a.drop_first().drop_first().drop_first().drop_first().drop_first().len() == 0);
    assert(b.drop_first().drop_first().drop_first().len() == 0);
}

} // verus!

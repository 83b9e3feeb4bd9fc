use vstd::prelude::*;

use crate::gramar::tag::{
    JackAstTagLabel, JackAstTagNode, JackAstTagNodeV, JackAstTagResult, JackAstTagResultV,
};
use crate::tokens::{JackKeyword, JackSymbol, JackToken, JackTokenV};

use super::bracket::{bracket_new, BracketTag, BracketTagKind};

verus! {

/// How far a `while` statement has got.
#[derive(Debug, PartialEq, Eq, Structural, Clone, Copy)]
pub enum WhileTagStage {
    AwaitWhile,
    AwaitCondition,
    AwaitBody,
    Terminate,
}

/// The rule `while ( expression ) { statements }`.
pub struct WhileTag {
    stage: WhileTagStage,
}

impl View for WhileTag {
    type V = WhileTagStage;

    closed spec fn view(&self) -> WhileTagStage {
        self.stage
    }
}

impl Default for WhileTag {
    fn default() -> (r: Self)
        ensures
            r@ == WhileTagStage::AwaitWhile,
    {
        WhileTag { stage: WhileTagStage::AwaitWhile }
    }
}

/// One step of the `while` rule.
pub open spec fn while_feed(s: WhileTagStage, t: JackTokenV) -> (WhileTagStage, JackAstTagResultV) {
    match (t, s) {
        (_, WhileTagStage::Terminate) => (s, JackAstTagResultV::Finish),
        (_, WhileTagStage::AwaitBody) => (
            WhileTagStage::Terminate,
            JackAstTagResultV::Move(JackAstTagNodeV::Bracket(bracket_new(BracketTagKind::Curly))),
        ),
        (_, WhileTagStage::AwaitCondition) => (
            WhileTagStage::AwaitBody,
            JackAstTagResultV::Move(
                JackAstTagNodeV::Bracket(bracket_new(BracketTagKind::RoundExpression)),
            ),
        ),
        (JackTokenV::Keyword(JackKeyword::While), WhileTagStage::AwaitWhile) => (
            WhileTagStage::AwaitCondition,
            JackAstTagResultV::Push,
        ),
        _ => (s, JackAstTagResultV::Error),
    }
}

impl WhileTag {
    pub fn get_label(&self) -> (r: JackAstTagLabel)
        ensures
            r == JackAstTagLabel::While,
    {
        JackAstTagLabel::While
    }

    /// Complete once the body has been handed on.
    pub fn is_consistent(&self) -> (r: bool)
        ensures
            r == (self@ == WhileTagStage::Terminate),
    {
        self.stage == WhileTagStage::Terminate
    }

    pub fn feed_token(&mut self, token: &JackToken) -> (r: JackAstTagResult)
        ensures
            (final(self)@, r@) == while_feed(old(self)@, token@),
    {
        match (token, &self.stage) {
            (_, WhileTagStage::Terminate) => JackAstTagResult::Finish,
            (_, WhileTagStage::AwaitBody) => {
                let expression = BracketTag::new(BracketTagKind::Curly);
                self.stage = WhileTagStage::Terminate;
                JackAstTagResult::Move(JackAstTagNode::Bracket(expression))
            },
            (_, WhileTagStage::AwaitCondition) => {
                let expression = BracketTag::new(BracketTagKind::RoundExpression);
                self.stage = WhileTagStage::AwaitBody;
                JackAstTagResult::Move(JackAstTagNode::Bracket(expression))
            },
            (JackToken::Keyword(JackKeyword::While), WhileTagStage::AwaitWhile) => {
                self.stage = WhileTagStage::AwaitCondition;
                JackAstTagResult::Push
            },
            _ => JackAstTagResult::Error,
        }
    }
}

/// The stage and the results of feeding tokens one after the other.
pub open spec fn while_run(s: WhileTagStage, ts: Seq<JackTokenV>) -> (WhileTagStage, Seq<JackAstTagResultV>)
    decreases ts.len(),
{
    if ts.len() == 0 {
        (s, seq![])
    } else {
        let (s1, r) = while_feed(s, ts[0]);
        let (s2, rs) = while_run(s1, ts.drop_first());
        (s2, seq![r] + rs)
    }
}

/// The `while` rule accepts every statement `while ( expression ) {
/// statements }`: fed `while` and the opening brackets, it reports no
/// error, hands the condition from its `(` to a bracket rule and the body
/// from its `{` to a curly bracket rule, and is complete.
pub proof fn lemma_while_accepts()
    ensures
        ({
            let ts = seq![JackTokenV::Keyword(JackKeyword::While), JackTokenV::Symbol(JackSymbol::OpenRoundBracket), JackTokenV::Symbol(JackSymbol::OpenCurlyBracket)];
            let (s, rs) = while_run(WhileTagStage::AwaitWhile, ts);
            &&& rs == seq![
                JackAstTagResultV::Push,
                JackAstTagResultV::Move(
                    JackAstTagNodeV::Bracket(bracket_new(BracketTagKind::RoundExpression)),
                ),
                JackAstTagResultV::Move(JackAstTagNodeV::Bracket(bracket_new(BracketTagKind::Curly))),
            ]
            &&& s == WhileTagStage::Terminate
        }),
{
    reveal_with_fuel(while_run, 4);
    let a = seq![JackTokenV::Keyword(JackKeyword::While), JackTokenV::Symbol(JackSymbol::OpenRoundBracket), JackTokenV::Symbol(JackSymbol::OpenCurlyBracket)];
    assert(a.drop_first().drop_first().drop_first().len() == 0);
}

} // verus!

use vstd::pervasive::unreached;
use vstd::prelude::*;

use crate::gramar::tag::{
    JackAstTagLabel, JackAstTagNode, JackAstTagNodeV, JackAstTagResult, JackAstTagResultV,
};
use crate::tokens::{JackSymbol, JackToken, JackTokenV};

use super::expression::{ExpressionTag, ExpressionTagStage};

verus! {

/// How far a comma-separated expression list has got.
#[derive(Debug, PartialEq, Eq, Structural, Clone, Copy)]
pub enum ExpressionsTagStage {
    InitExpression,
    AwaitExpression,
    AwaitComma,
}

/// The rule `(expression (, expression)*)?`.
pub struct ExpressionsTag {
    stage: ExpressionsTagStage,
}

impl View for ExpressionsTag {
    type V = ExpressionsTagStage;

    closed spec fn view(&self) -> ExpressionsTagStage {
        self.stage
    }
}

impl Default for ExpressionsTag {
    fn default() -> (r: Self)
        ensures
            r@ == ExpressionsTagStage::InitExpression,
    {
        ExpressionsTag { stage: ExpressionsTagStage::InitExpression }
    }
}

/// One step of the expression-list rule. The first token always begins an
/// expression.
pub open spec fn expressions_feed(s0: ExpressionsTagStage, t: JackTokenV) -> (
    ExpressionsTagStage,
    JackAstTagResultV,
) {
    let s = if s0 == ExpressionsTagStage::InitExpression {
        ExpressionsTagStage::AwaitExpression
    } else {
        s0
    };
    if s == ExpressionsTagStage::AwaitComma && t == JackTokenV::Symbol(JackSymbol::Comma) {
        (ExpressionsTagStage::AwaitExpression, JackAstTagResultV::Push)
    } else if s == ExpressionsTagStage::AwaitExpression {
        (
            ExpressionsTagStage::AwaitComma,
            JackAstTagResultV::Move(JackAstTagNodeV::Expression(ExpressionTagStage::AwaitTerm)),
        )
    } else {
        (s, JackAstTagResultV::Finish)
    }
}

impl ExpressionsTag {
    pub fn get_label(&self) -> (r: JackAstTagLabel)
        ensures
            r == JackAstTagLabel::Expressions,
    {
        JackAstTagLabel::Expressions
    }

    /// Complete when empty or after an expression.
    pub fn is_consistent(&self) -> (r: bool)
        ensures
            r == (self@ == ExpressionsTagStage::AwaitComma || self@
                == ExpressionsTagStage::InitExpression),
    {
        self.stage == ExpressionsTagStage::AwaitComma || self.stage
            == ExpressionsTagStage::InitExpression
    }

    pub fn feed_token(&mut self, token: &JackToken) -> (r: JackAstTagResult)
        ensures
            (final(self)@, r@) == expressions_feed(old(self)@, token@),
    {
        if self.stage == ExpressionsTagStage::InitExpression {
            self.stage = ExpressionsTagStage::AwaitExpression;
        }
        match (token, &self.stage) {
            (JackToken::Symbol(JackSymbol::Comma), ExpressionsTagStage::AwaitComma) => {
                self.stage = ExpressionsTagStage::AwaitExpression;
                JackAstTagResult::Push
            },
            (_, ExpressionsTagStage::AwaitExpression) => {
                self.stage = ExpressionsTagStage::AwaitComma;
                let term = ExpressionTag::default();
                JackAstTagResult::Move(JackAstTagNode::Expression(term))
            },
            (_, ExpressionsTagStage::AwaitComma) => JackAstTagResult::Finish,
            (_, ExpressionsTagStage::InitExpression) => unreached(),
        }
    }
}

} // verus!

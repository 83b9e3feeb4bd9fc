use vstd::prelude::*;

use crate::gramar::tag::{
    JackAstTagLabel, JackAstTagNode, JackAstTagNodeV, JackAstTagResult, JackAstTagResultV,
};
use crate::tokens::{JackSymbol, JackToken, JackTokenV};

use super::term::{TermTag, TermTagKind};

verus! {

/// Whether an expression awaits a term or an operator.
#[derive(Debug, PartialEq, Eq, Structural, Clone, Copy)]
pub enum ExpressionTagStage {
    AwaitTerm,
    AwaitOp,
}

/// The rule `term (op term)*`.
pub struct ExpressionTag {
    stage: ExpressionTagStage,
}

impl View for ExpressionTag {
    type V = ExpressionTagStage;

    closed spec fn view(&self) -> ExpressionTagStage {
        self.stage
    }
}

impl Default for ExpressionTag {
    fn default() -> (r: Self)
        ensures
            r@ == ExpressionTagStage::AwaitTerm,
    {
        ExpressionTag { stage: ExpressionTagStage::AwaitTerm }
    }
}

/// The binary operators, as token views.
pub open spec fn is_op_token(t: JackTokenV) -> bool {
    t matches JackTokenV::Symbol(s) && (s == JackSymbol::And || s == JackSymbol::Or || s
        == JackSymbol::Eq || s == JackSymbol::Greater || s == JackSymbol::Less || s
        == JackSymbol::Plus || s == JackSymbol::Minus || s == JackSymbol::Multiply || s
        == JackSymbol::Divide)
}

/// One step of the expression rule.
pub open spec fn expression_feed(s: ExpressionTagStage, t: JackTokenV) -> (
    ExpressionTagStage,
    JackAstTagResultV,
) {
    if s == ExpressionTagStage::AwaitOp && is_op_token(t) {
        (ExpressionTagStage::AwaitTerm, JackAstTagResultV::Push)
    } else if s == ExpressionTagStage::AwaitTerm {
        (
            ExpressionTagStage::AwaitOp,
            JackAstTagResultV::Move(JackAstTagNodeV::Term(TermTagKind::Unknown)),
        )
    } else {
        (s, JackAstTagResultV::Finish)
    }
}

impl ExpressionTag {
    pub fn get_label(&self) -> (r: JackAstTagLabel)
        ensures
            r == JackAstTagLabel::Expression,
    {
        JackAstTagLabel::Expression
    }

    /// Complete after a term.
    pub fn is_consistent(&self) -> (r: bool)
        ensures
            r == (self@ == ExpressionTagStage::AwaitOp),
    {
        self.stage == ExpressionTagStage::AwaitOp
    }

    pub fn feed_token(&mut self, token: &JackToken) -> (r: JackAstTagResult)
        ensures
            (final(self)@, r@) == expression_feed(old(self)@, token@),
    {
        match (token, &self.stage) {
            (JackToken::Symbol(symbol), ExpressionTagStage::AwaitOp) if symbol.is_op() => {
                self.stage = ExpressionTagStage::AwaitTerm;
                JackAstTagResult::Push
            },
            (_, ExpressionTagStage::AwaitTerm) => {
                self.stage = ExpressionTagStage::AwaitOp;
                let term = TermTag::default();
                JackAstTagResult::Move(JackAstTagNode::Term(term))
            },
            (_, ExpressionTagStage::AwaitOp) => JackAstTagResult::Finish,
        }
    }
}

} // verus!

use vstd::prelude::*;

use crate::gramar::tag::{
    JackAstTagLabel, JackAstTagNode, JackAstTagNodeV, JackAstTagResult, JackAstTagResultV,
};
use crate::tokens::{JackKeyword, JackToken, JackTokenV};

use super::declar::{DeclarTag, DeclarTagScope, DeclarTagStage, DeclarTagView};
use super::statements::StatementsTag;

verus! {

/// Whether a subroutine body still accepts `var` declarations.
#[derive(Debug, PartialEq, Eq, Structural, Clone, Copy)]
pub enum StatementsDeclarTagStage {
    AwaitVarOrStatements,
    Terminate,
}

/// A subroutine body: its `var` declarations, then its statements.
pub struct StatementsDeclarTag {
    kind: StatementsDeclarTagStage,
}

impl View for StatementsDeclarTag {
    type V = StatementsDeclarTagStage;

    closed spec fn view(&self) -> StatementsDeclarTagStage {
        self.kind
    }
}

impl Default for StatementsDeclarTag {
    fn default() -> (r: Self)
        ensures
            r@ == StatementsDeclarTagStage::AwaitVarOrStatements,
    {
        StatementsDeclarTag { kind: StatementsDeclarTagStage::AwaitVarOrStatements }
    }
}

/// One step of the subroutine-body rule.
pub open spec fn statements_declar_feed(s: StatementsDeclarTagStage, t: JackTokenV) -> (
    StatementsDeclarTagStage,
    JackAstTagResultV,
) {
    if s == StatementsDeclarTagStage::AwaitVarOrStatements {
        if t == JackTokenV::Keyword(JackKeyword::Var) {
            (
                s,
                JackAstTagResultV::Move(
                    JackAstTagNodeV::Declar(
                        DeclarTagView {
                            stage: DeclarTagStage::AwaitKeyword,
                            scope: DeclarTagScope::Function,
                        },
                    ),
                ),
            )
        } else {
            (
                StatementsDeclarTagStage::Terminate,
                JackAstTagResultV::Move(JackAstTagNodeV::Statements),
            )
        }
    } else {
        (s, JackAstTagResultV::Error)
    }
}

impl StatementsDeclarTag {
    /// Complete once the statements have begun.
    pub fn is_consistent(&self) -> (r: bool)
        ensures
            r == (self@ == StatementsDeclarTagStage::Terminate),
    {
        self.kind == StatementsDeclarTagStage::Terminate
    }

    pub fn get_label(&self) -> (r: JackAstTagLabel)
        ensures
            r == JackAstTagLabel::StatementsDeclar,
    {
        JackAstTagLabel::StatementsDeclar
    }

    pub fn feed_token(&mut self, token: &JackToken) -> (r: JackAstTagResult)
        ensures
            (final(self)@, r@) == statements_declar_feed(old(self)@, token@),
    {
        match (token, &self.kind) {
            (
                JackToken::Keyword(JackKeyword::Var),
                StatementsDeclarTagStage::AwaitVarOrStatements,
            ) => {
                let expression = DeclarTag::new_function();
                JackAstTagResult::Move(JackAstTagNode::Declar(expression))
            },
            (_, StatementsDeclarTagStage::AwaitVarOrStatements) => {
                self.kind = StatementsDeclarTagStage::Terminate;
                let expressions = StatementsTag::default();
                JackAstTagResult::Move(JackAstTagNode::Statements(expressions))
            },
            _ => JackAstTagResult::Error,
        }
    }
}

} // verus!

use vstd::prelude::*;

use crate::gramar::tag::{
    JackAstTagLabel, JackAstTagNode, JackAstTagNodeV, JackAstTagResult, JackAstTagResultV,
};
use crate::tokens::{JackKeyword, JackToken, JackTokenV};

use super::bracket::{bracket_new, BracketTag, BracketTagKind};

verus! {

/// How far a subroutine declaration has got.
#[derive(Debug, PartialEq, Eq, Structural, Clone, Copy)]
pub enum FunctionTagStage {
    AwaitFunctionKeyword,
    AwaitType,
    AwaitIdent,
    AwaitParams,
    AwaitBody,
    Terminate,
}

/// The rule `constructor|function|method type name ( params ) { body }`.
pub struct FunctionTag {
    stage: FunctionTagStage,
}

impl View for FunctionTag {
    type V = FunctionTagStage;

    closed spec fn view(&self) -> FunctionTagStage {
        self.stage
    }
}

impl Default for FunctionTag {
    fn default() -> (r: Self)
        ensures
            r@ == FunctionTagStage::AwaitFunctionKeyword,
    {
        FunctionTag { stage: FunctionTagStage::AwaitFunctionKeyword }
    }
}

/// Built-in type keywords: `char`, `boolean`, `int`, `void`.
pub open spec fn is_type_keyword(k: JackKeyword) -> bool {
    k == JackKeyword::Char || k == JackKeyword::Boolean || k == JackKeyword::Int || k
        == JackKeyword::Void
}

/// One step of the subroutine rule.
pub open spec fn function_feed(s: FunctionTagStage, t: JackTokenV) -> (
    FunctionTagStage,
    JackAstTagResultV,
) {
    match (t, s) {
        (_, FunctionTagStage::Terminate) => (s, JackAstTagResultV::Finish),
        (_, FunctionTagStage::AwaitBody) => (
            FunctionTagStage::Terminate,
            JackAstTagResultV::Move(
                JackAstTagNodeV::Bracket(bracket_new(BracketTagKind::CurlyFunction)),
            ),
        ),
        (_, FunctionTagStage::AwaitParams) => (
            FunctionTagStage::AwaitBody,
            JackAstTagResultV::Move(JackAstTagNodeV::Bracket(bracket_new(BracketTagKind::RoundParams))),
        ),
        (JackTokenV::Ident(_), FunctionTagStage::AwaitIdent) => (
            FunctionTagStage::AwaitParams,
            JackAstTagResultV::Push,
        ),
        (JackTokenV::Ident(_), FunctionTagStage::AwaitType) => (
            FunctionTagStage::AwaitIdent,
            JackAstTagResultV::Push,
        ),
        (JackTokenV::Keyword(k), FunctionTagStage::AwaitType) => if is_type_keyword(k) {
            (FunctionTagStage::AwaitIdent, JackAstTagResultV::Push)
        } else {
            (s, JackAstTagResultV::Error)
        },
        (JackTokenV::Keyword(k), FunctionTagStage::AwaitFunctionKeyword) => if k
            == JackKeyword::Function || k == JackKeyword::Method || k == JackKeyword::Constructor {
            (FunctionTagStage::AwaitType, JackAstTagResultV::Push)
        } else {
            (s, JackAstTagResultV::Error)
        },
        _ => (s, JackAstTagResultV::Error),
    }
}

impl FunctionTag {
    pub fn get_label(&self) -> (r: JackAstTagLabel)
        ensures
            r == JackAstTagLabel::Function,
    {
        JackAstTagLabel::Function
    }

    /// Complete once the body has been handed on.
    pub fn is_consistent(&self) -> (r: bool)
        ensures
            r == (self@ == FunctionTagStage::Terminate),
    {
        self.stage == FunctionTagStage::Terminate
    }

    pub fn feed_token(&mut self, token: &JackToken) -> (r: JackAstTagResult)
        ensures
            (final(self)@, r@) == function_feed(old(self)@, token@),
    {
        match (token, &self.stage) {
            (_, FunctionTagStage::Terminate) => JackAstTagResult::Finish,
            (_, FunctionTagStage::AwaitBody) => {
                let expression = BracketTag::new(BracketTagKind::CurlyFunction);
                self.stage = FunctionTagStage::Terminate;
                JackAstTagResult::Move(JackAstTagNode::Bracket(expression))
            },
            (_, FunctionTagStage::AwaitParams) => {
                let expression = BracketTag::new(BracketTagKind::RoundParams);
                self.stage = FunctionTagStage::AwaitBody;
                JackAstTagResult::Move(JackAstTagNode::Bracket(expression))
            },
            (JackToken::Ident(_), FunctionTagStage::AwaitIdent) => {
                self.stage = FunctionTagStage::AwaitParams;
                JackAstTagResult::Push
            },
            (JackToken::Ident(_), FunctionTagStage::AwaitType) => {
                self.stage = FunctionTagStage::AwaitIdent;
                JackAstTagResult::Push
            },
            (JackToken::Keyword(JackKeyword::Void), FunctionTagStage::AwaitType) => {
                self.stage = FunctionTagStage::AwaitIdent;
                JackAstTagResult::Push
            },
            (JackToken::Keyword(keyword), FunctionTagStage::AwaitType) if keyword.is_type() => {
                self.stage = FunctionTagStage::AwaitIdent;
                JackAstTagResult::Push
            },
            (JackToken::Keyword(JackKeyword::Function), FunctionTagStage::AwaitFunctionKeyword) => {
                self.stage = FunctionTagStage::AwaitType;
                JackAstTagResult::Push
            },
            (JackToken::Keyword(JackKeyword::Method), FunctionTagStage::AwaitFunctionKeyword) => {
                self.stage = FunctionTagStage::AwaitType;
                JackAstTagResult::Push
            },
            (
                JackToken::Keyword(JackKeyword::Constructor),
                FunctionTagStage::AwaitFunctionKeyword,
            ) => {
                self.stage = FunctionTagStage::AwaitType;
                JackAstTagResult::Push
            },
            _ => JackAstTagResult::Error,
        }
    }
}

} // verus!

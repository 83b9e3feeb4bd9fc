use vstd::prelude::*;

use crate::gramar::tag::{
    JackAstTagLabel, JackAstTagNode, JackAstTagNodeV, JackAstTagResult, JackAstTagResultV,
};
use crate::tokens::{JackKeyword, JackToken, JackTokenV};

use super::do_statement::{DoTag, DoTagStage};
use super::if_statement::{IfTag, IfTagStage};
use super::let_statement::{LetTag, LetTagStage};
use super::return_statement::{ReturnTag, ReturnTagStage};
use super::while_statement::{WhileTag, WhileTagStage};

verus! {

/// A sequence of statements; each statement keyword begins its own rule.
pub struct StatementsTag {}

impl Default for StatementsTag {
    fn default() -> (r: Self) {
        StatementsTag {  }
    }
}

/// The rule that a statement keyword begins.
pub open spec fn statements_feed(t: JackTokenV) -> JackAstTagResultV {
    match t {
        JackTokenV::Keyword(JackKeyword::Let) => JackAstTagResultV::Move(
            JackAstTagNodeV::Let(LetTagStage::AwaitLet),
        ),
        JackTokenV::Keyword(JackKeyword::Do) => JackAstTagResultV::Move(
            JackAstTagNodeV::Do(DoTagStage::AwaitDo),
        ),
        JackTokenV::Keyword(JackKeyword::Return) => JackAstTagResultV::Move(
            JackAstTagNodeV::Return(ReturnTagStage::AwaitReturn),
        ),
        JackTokenV::Keyword(JackKeyword::If) => JackAstTagResultV::Move(
            JackAstTagNodeV::If(IfTagStage::AwaitIf),
        ),
        JackTokenV::Keyword(JackKeyword::While) => JackAstTagResultV::Move(
            JackAstTagNodeV::While(WhileTagStage::AwaitWhile),
        ),
        _ => JackAstTagResultV::Error,
    }
}

impl StatementsTag {
    pub fn get_label(&self) -> (r: JackAstTagLabel)
        ensures
            r == JackAstTagLabel::Statements,
    {
        JackAstTagLabel::Statements
    }

    /// Always complete.
    pub fn is_consistent(&self) -> (r: bool)
        ensures
            r,
    {
        true
    }

    pub fn feed_token(&mut self, token: &JackToken) -> (r: JackAstTagResult)
        ensures
            r@ == statements_feed(token@),
    {
        match token {
            JackToken::Keyword(keyword) => {
                let value_to_move: Option<JackAstTagNode> = match keyword {
                    JackKeyword::Let => Some(JackAstTagNode::Let(LetTag::default())),
                    JackKeyword::Do => Some(JackAstTagNode::Do(DoTag::default())),
                    JackKeyword::Return => Some(JackAstTagNode::Return(ReturnTag::default())),
                    JackKeyword::If => Some(JackAstTagNode::If(IfTag::default())),
                    JackKeyword::While => Some(JackAstTagNode::While(WhileTag::default())),
                    _ => None,
                };
                if let Some(v) = value_to_move {
                    JackAstTagResult::Move(v)
                } else {
                    JackAstTagResult::Error
                }
            },
            _ => JackAstTagResult::Error,
        }
    }
}

} // verus!

use vstd::prelude::*;

use crate::gramar::tag::{
    JackAstTagLabel, JackAstTagNode, JackAstTagNodeV, JackAstTagResult, JackAstTagResultV,
};
use crate::tokens::{JackKeyword, JackToken, JackTokenV};

use super::bracket::{bracket_new, BracketTag, BracketTagKind};

verus! {

/// How far a `class Name { ... }` rule has got.
#[derive(Debug, PartialEq, Eq, Structural, Clone, Copy)]
pub enum ClassTagStage {
    AwaitClass,
    AwaitIdent,
    AwaitBody,
    Terminate,
}

/// The rule `class Name { ... }`.
pub struct ClassTag {
    stage: ClassTagStage,
}

impl View for ClassTag {
    type V = ClassTagStage;

    closed spec fn view(&self) -> ClassTagStage {
        self.stage
    }
}

impl Default for ClassTag {
    fn default() -> (r: Self)
        ensures
            r@ == ClassTagStage::AwaitClass,
    {
        ClassTag { stage: ClassTagStage::AwaitClass }
    }
}

/// One step of the class rule.
pub open spec fn class_feed(s: ClassTagStage, t: JackTokenV) -> (ClassTagStage, JackAstTagResultV) {
    match (t, s) {
        (_, ClassTagStage::Terminate) => (s, JackAstTagResultV::Finish),
        (_, ClassTagStage::AwaitBody) => (
            ClassTagStage::Terminate,
            JackAstTagResultV::Move(JackAstTagNodeV::Bracket(bracket_new(BracketTagKind::CurlyClass))),
        ),
        (JackTokenV::Ident(_), ClassTagStage::AwaitIdent) => (
            ClassTagStage::AwaitBody,
            JackAstTagResultV::Push,
        ),
        (JackTokenV::Keyword(JackKeyword::Class), ClassTagStage::AwaitClass) => (
            ClassTagStage::AwaitIdent,
            JackAstTagResultV::Push,
        ),
        _ => (s, JackAstTagResultV::Error),
    }
}

impl ClassTag {
    pub fn get_label(&self) -> (r: JackAstTagLabel)
        ensures
            r == JackAstTagLabel::Class,
    {
        JackAstTagLabel::Class
    }

    /// Complete once the class body has been handed on.
    pub fn is_consistent(&self) -> (r: bool)
        ensures
            r == (self@ == ClassTagStage::Terminate),
    {
        self.stage == ClassTagStage::Terminate
    }

    pub fn feed_token(&mut self, token: &JackToken) -> (r: JackAstTagResult)
        ensures
            (final(self)@, r@) == class_feed(old(self)@, token@),
    {
        match (token, &self.stage) {
            (_, ClassTagStage::Terminate) => JackAstTagResult::Finish,
            (_, ClassTagStage::AwaitBody) => {
                let expression = BracketTag::new(BracketTagKind::CurlyClass);
                self.stage = ClassTagStage::Terminate;
                JackAstTagResult::Move(JackAstTagNode::Bracket(expression))
            },
            (JackToken::Ident(_), ClassTagStage::AwaitIdent) => {
                self.stage = ClassTagStage::AwaitBody;
                JackAstTagResult::Push
            },
            (JackToken::Keyword(JackKeyword::Class), ClassTagStage::AwaitClass) => {
                self.stage = ClassTagStage::AwaitIdent;
                JackAstTagResult::Push
            },
            _ => JackAstTagResult::Error,
        }
    }
}

} // verus!

use vstd::prelude::*;

use crate::gramar::tag::{JackAstTagLabel, JackAstTagResult, JackAstTagResultV};
use crate::tokens::{JackSymbol, JackToken, JackTokenV};

use super::function::is_type_keyword;

verus! {

/// How far a parameter list has got.
#[derive(Debug, PartialEq, Eq, Structural, Clone, Copy)]
pub enum ParamsTagStage {
    AwaitType,
    AwaitIdent,
    AwaitComma,
}

/// The rule `(type name (, type name)*)?`.
pub struct ParamsTag {
    stage: ParamsTagStage,
}

impl View for ParamsTag {
    type V = ParamsTagStage;

    closed spec fn view(&self) -> ParamsTagStage {
        self.stage
    }
}

impl Default for ParamsTag {
    fn default() -> (r: Self)
        ensures
            r@ == ParamsTagStage::AwaitType,
    {
        ParamsTag { stage: ParamsTagStage::AwaitType }
    }
}

/// One step of the parameter-list rule.
pub open spec fn params_feed(s: ParamsTagStage, t: JackTokenV) -> (ParamsTagStage, JackAstTagResultV) {
    match (t, s) {
        (JackTokenV::Ident(_), ParamsTagStage::AwaitIdent) => (
            ParamsTagStage::AwaitComma,
            JackAstTagResultV::Push,
        ),
        (JackTokenV::Symbol(JackSymbol::Comma), ParamsTagStage::AwaitComma) => (
            ParamsTagStage::AwaitType,
            JackAstTagResultV::Push,
        ),
        (JackTokenV::Ident(_), ParamsTagStage::AwaitType) => (
            ParamsTagStage::AwaitIdent,
            JackAstTagResultV::Push,
        ),
        (JackTokenV::Keyword(k), ParamsTagStage::AwaitType) => if is_type_keyword(k) {
            (ParamsTagStage::AwaitIdent, JackAstTagResultV::Push)
        } else {
            (s, JackAstTagResultV::Finish)
        },
        (_, ParamsTagStage::AwaitType) => (s, JackAstTagResultV::Finish),
        _ => (s, JackAstTagResultV::Error),
    }
}

impl ParamsTag {
    pub fn get_label(&self) -> (r: JackAstTagLabel)
        ensures
            r == JackAstTagLabel::Params,
    {
        JackAstTagLabel::Params
    }

    /// Complete unless a parameter's name is missing.
    pub fn is_consistent(&self) -> (r: bool)
        ensures
            r == (self@ != ParamsTagStage::AwaitIdent),
    {
        self.stage != ParamsTagStage::AwaitIdent
    }

    pub fn feed_token(&mut self, token: &JackToken) -> (r: JackAstTagResult)
        ensures
            (final(self)@, r@) == params_feed(old(self)@, token@),
    {
        match (token, &self.stage) {
            (JackToken::Ident(_), ParamsTagStage::AwaitIdent) => {
                self.stage = ParamsTagStage::AwaitComma;
                JackAstTagResult::Push
            },
            (JackToken::Symbol(JackSymbol::Comma), ParamsTagStage::AwaitComma) => {
                self.stage = ParamsTagStage::AwaitType;
                JackAstTagResult::Push
            },
            (JackToken::Ident(_), ParamsTagStage::AwaitType) => {
                self.stage = ParamsTagStage::AwaitIdent;
                JackAstTagResult::Push
            },
            (JackToken::Keyword(keyword), ParamsTagStage::AwaitType) => {
                if keyword.is_type() {
                    self.stage = ParamsTagStage::AwaitIdent;
                    JackAstTagResult::Push
                } else {
                    JackAstTagResult::Finish
                }
            },
            (_, ParamsTagStage::AwaitType) => JackAstTagResult::Finish,
            _ => JackAstTagResult::Error,
        }
    }
}

} // verus!

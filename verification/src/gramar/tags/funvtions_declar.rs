use vstd::prelude::*;

use crate::gramar::tag::{
    JackAstTagLabel, JackAstTagNode, JackAstTagNodeV, JackAstTagResult, JackAstTagResultV,
};
use crate::tokens::{JackKeyword, JackToken, JackTokenV};

use super::declar::{DeclarTag, DeclarTagScope, DeclarTagStage, DeclarTagView};
use super::function::{FunctionTag, FunctionTagStage};

verus! {

/// The body of a class: its `static` and `field` declarations, then its
/// subroutines.
pub struct FunctionsDeclarTag {
    declared: bool,
}

impl View for FunctionsDeclarTag {
    type V = bool;

    /// Whether the declarations are over.
    closed spec fn view(&self) -> bool {
        self.declared
    }
}

impl Default for FunctionsDeclarTag {
    fn default() -> (r: Self)
        ensures
            r@ == false,
    {
        FunctionsDeclarTag { declared: false }
    }
}

/// One step of the class-body rule: before the first subroutine, `static` and
/// `field` begin a declaration; anything else begins a subroutine.
pub open spec fn functions_declar_feed(declared: bool, t: JackTokenV) -> (bool, JackAstTagResultV) {
    if !declared && (t == JackTokenV::Keyword(JackKeyword::Static) || t == JackTokenV::Keyword(
        JackKeyword::Field,
    )) {
        (
            declared,
            JackAstTagResultV::Move(
                JackAstTagNodeV::Declar(
                    DeclarTagView { stage: DeclarTagStage::AwaitKeyword, scope: DeclarTagScope::Class },
                ),
            ),
        )
    } else {
        (
            true,
            JackAstTagResultV::Move(
                JackAstTagNodeV::Function(FunctionTagStage::AwaitFunctionKeyword),
            ),
        )
    }
}

impl FunctionsDeclarTag {
    pub fn get_label(&self) -> (r: JackAstTagLabel)
        ensures
            r == JackAstTagLabel::FunctionsDeclar,
    {
        JackAstTagLabel::FunctionsDeclar
    }

    /// Always complete.
    pub fn is_consistent(&self) -> (r: bool)
        ensures
            r,
    {
        true
    }

    pub fn feed_token(&mut self, token: &JackToken) -> (r: JackAstTagResult)
        ensures
            (final(self)@, r@) == functions_declar_feed(old(self)@, token@),
    {
        match (token, self.declared) {
            (JackToken::Keyword(JackKeyword::Static), false) => {
                let expression = DeclarTag::new_class();
                JackAstTagResult::Move(JackAstTagNode::Declar(expression))
            },
            (JackToken::Keyword(JackKeyword::Field), false) => {
                let expression = DeclarTag::new_class();
                JackAstTagResult::Move(JackAstTagNode::Declar(expression))
            },
            _ => {
                self.declared = true;
                let expressions = FunctionTag::default();
                JackAstTagResult::Move(JackAstTagNode::Function(expressions))
            },
        }
    }
}

} // verus!

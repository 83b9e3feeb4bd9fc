use vstd::prelude::*;

use crate::gramar::tag::{JackAstTagLabel, JackAstTagResult, JackAstTagResultV};
use crate::tokens::{JackKeyword, JackSymbol, JackToken, JackTokenV};

verus! {

/// How far a variable declaration has got.
#[derive(Debug, PartialEq, Eq, Structural, Clone, Copy)]
pub enum DeclarTagStage {
    AwaitKeyword,
    AwaitType,
    AwaitIdent,
    AwaitSemicolon,
    Terminate,
}

/// Where a declaration stands: in a class (`static`, `field`) or in a
/// subroutine (`var`).
#[derive(Debug, PartialEq, Eq, Structural, Clone, Copy)]
pub enum DeclarTagScope {
    Class,
    Function,
}

/// The rule `static|field|var type name (, name)* ;`.
pub struct DeclarTag {
    stage: DeclarTagStage,
    scope: DeclarTagScope,
}

/// The state of a declaration rule.
pub struct DeclarTagView {
    pub stage: DeclarTagStage,
    pub scope: DeclarTagScope,
}

impl View for DeclarTag {
    type V = DeclarTagView;

    closed spec fn view(&self) -> DeclarTagView {
        DeclarTagView { stage: self.stage, scope: self.scope }
    }
}

/// One step of the declaration rule.
pub open spec fn declar_feed(d: DeclarTagView, t: JackTokenV) -> (DeclarTagView, JackAstTagResultV) {
    match (t, d.stage, d.scope) {
        (_, DeclarTagStage::Terminate, _) => (d, JackAstTagResultV::Finish),
        (JackTokenV::Symbol(JackSymbol::Semicolon), DeclarTagStage::AwaitSemicolon, _) => (
            DeclarTagView { stage: DeclarTagStage::Terminate, ..d },
            JackAstTagResultV::Push,
        ),
        (JackTokenV::Symbol(JackSymbol::Comma), DeclarTagStage::AwaitSemicolon, _) => (
            DeclarTagView { stage: DeclarTagStage::AwaitIdent, ..d },
            JackAstTagResultV::Push,
        ),
        (JackTokenV::Ident(_), DeclarTagStage::AwaitIdent, _) => (
            DeclarTagView { stage: DeclarTagStage::AwaitSemicolon, ..d },
            JackAstTagResultV::Push,
        ),
        (JackTokenV::Ident(_), DeclarTagStage::AwaitType, _) => (
            DeclarTagView { stage: DeclarTagStage::AwaitIdent, ..d },
            JackAstTagResultV::Push,
        ),
        (JackTokenV::Keyword(k), DeclarTagStage::AwaitType, _) => if k == JackKeyword::Char || k
            == JackKeyword::Boolean || k == JackKeyword::Int || k == JackKeyword::Void {
            (DeclarTagView { stage: DeclarTagStage::AwaitIdent, ..d }, JackAstTagResultV::Push)
        } else {
            (d, JackAstTagResultV::Error)
        },
        (
            JackTokenV::Keyword(JackKeyword::Static),
            DeclarTagStage::AwaitKeyword,
            DeclarTagScope::Class,
        ) => (DeclarTagView { stage: DeclarTagStage::AwaitType, ..d }, JackAstTagResultV::Push),
        (
            JackTokenV::Keyword(JackKeyword::Field),
            DeclarTagStage::AwaitKeyword,
            DeclarTagScope::Class,
        ) => (DeclarTagView { stage: DeclarTagStage::AwaitType, ..d }, JackAstTagResultV::Push),
        (
            JackTokenV::Keyword(JackKeyword::Var),
            DeclarTagStage::AwaitKeyword,
            DeclarTagScope::Function,
        ) => (DeclarTagView { stage: DeclarTagStage::AwaitType, ..d }, JackAstTagResultV::Push),
        _ => (d, JackAstTagResultV::Error),
    }
}

impl DeclarTag {
    /// A `static` or `field` declaration of a class.
    pub fn new_class() -> (r: Self)
        ensures
            r@ == (DeclarTagView { stage: DeclarTagStage::AwaitKeyword, scope: DeclarTagScope::Class }),
    {
        Self { stage: DeclarTagStage::AwaitKeyword, scope: DeclarTagScope::Class }
    }

    /// A `var` declaration of a subroutine.
    pub fn new_function() -> (r: Self)
        ensures
            r@ == (DeclarTagView {
                stage: DeclarTagStage::AwaitKeyword,
                scope: DeclarTagScope::Function,
            }),
    {
        Self { stage: DeclarTagStage::AwaitKeyword, scope: DeclarTagScope::Function }
    }

    /// Complete once its semicolon is read.
    pub fn is_consistent(&self) -> (r: bool)
        ensures
            r == (self@.stage == DeclarTagStage::Terminate),
    {
        self.stage == DeclarTagStage::Terminate
    }

    pub fn get_label(&self) -> (r: JackAstTagLabel)
        ensures
            r == (if self@.scope == DeclarTagScope::Class {
                JackAstTagLabel::StaticOrField
            } else {
                JackAstTagLabel::Var
            }),
    {
        match self.scope {
            DeclarTagScope::Class => JackAstTagLabel::StaticOrField,
            DeclarTagScope::Function => JackAstTagLabel::Var,
        }
    }

    pub fn feed_token(&mut self, token: &JackToken) -> (r: JackAstTagResult)
        ensures
            (final(self)@, r@) == declar_feed(old(self)@, token@),
    {
        match (token, &self.stage, &self.scope) {
            (_, DeclarTagStage::Terminate, _) => JackAstTagResult::Finish,
            (JackToken::Symbol(JackSymbol::Semicolon), DeclarTagStage::AwaitSemicolon, _) => {
                self.stage = DeclarTagStage::Terminate;
                JackAstTagResult::Push
            },
            (JackToken::Symbol(JackSymbol::Comma), DeclarTagStage::AwaitSemicolon, _) => {
                self.stage = DeclarTagStage::AwaitIdent;
                JackAstTagResult::Push
            },
            (JackToken::Ident(_), DeclarTagStage::AwaitIdent, _) => {
                self.stage = DeclarTagStage::AwaitSemicolon;
                JackAstTagResult::Push
            },
            (JackToken::Ident(_), DeclarTagStage::AwaitType, _) => {
                self.stage = DeclarTagStage::AwaitIdent;
                JackAstTagResult::Push
            },
            (JackToken::Keyword(keyword), DeclarTagStage::AwaitType, _) if keyword.is_type() => {
                self.stage = DeclarTagStage::AwaitIdent;
                JackAstTagResult::Push
            },
            (
                JackToken::Keyword(JackKeyword::Static),
                DeclarTagStage::AwaitKeyword,
                DeclarTagScope::Class,
            ) => {
                self.stage = DeclarTagStage::AwaitType;
                JackAstTagResult::Push
            },
            (
                JackToken::Keyword(JackKeyword::Field),
                DeclarTagStage::AwaitKeyword,
                DeclarTagScope::Class,
            ) => {
                self.stage = DeclarTagStage::AwaitType;
                JackAstTagResult::Push
            },
            (
                JackToken::Keyword(JackKeyword::Var),
                DeclarTagStage::AwaitKeyword,
                DeclarTagScope::Function,
            ) => {
                self.stage = DeclarTagStage::AwaitType;
                JackAstTagResult::Push
            },
            _ => JackAstTagResult::Error,
        }
    }
}

} // verus!

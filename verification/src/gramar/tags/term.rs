use vstd::prelude::*;

use crate::gramar::tag::{
    JackAstTagLabel, JackAstTagNode, JackAstTagNodeV, JackAstTagResult, JackAstTagResultV,
};
use crate::tokens::{JackKeyword, JackSymbol, JackToken, JackTokenV};

use super::bracket::{bracket_new, BracketTag, BracketTagKind};

verus! {

/// How far a term has got.
#[derive(Debug, PartialEq, Eq, Structural, Clone, Copy)]
pub enum TermTagKind {
    Unknown,
    UnaryOpTerm,
    IdentType,
    AwaitIdent,
    TerminateAfterMove,
    Terminate,
}

/// The rule for a term: a literal, a keyword constant, a name with an
/// optional `.name`, `[ expression ]` or `( expressions )`, a parenthesized
/// expression, or a unary operator and a term.
pub struct TermTag {
    kind: TermTagKind,
}

impl View for TermTag {
    type V = TermTagKind;

    closed spec fn view(&self) -> TermTagKind {
        self.kind
    }
}

impl Default for TermTag {
    fn default() -> (r: Self)
        ensures
            r@ == TermTagKind::Unknown,
    {
        TermTag { kind: TermTagKind::Unknown }
    }
}

/// One step of the term rule.
pub open spec fn term_feed(k: TermTagKind, t: JackTokenV) -> (TermTagKind, JackAstTagResultV) {
    if k == TermTagKind::Unknown && (t == JackTokenV::Symbol(JackSymbol::Not) || t
        == JackTokenV::Symbol(JackSymbol::Minus)) {
        (TermTagKind::UnaryOpTerm, JackAstTagResultV::Push)
    } else if k == TermTagKind::UnaryOpTerm {
        (
            TermTagKind::TerminateAfterMove,
            JackAstTagResultV::Move(JackAstTagNodeV::Term(TermTagKind::Unknown)),
        )
    } else if k == TermTagKind::Unknown && t == JackTokenV::Symbol(JackSymbol::OpenRoundBracket) {
        (
            TermTagKind::TerminateAfterMove,
            JackAstTagResultV::Move(
                JackAstTagNodeV::Bracket(bracket_new(BracketTagKind::RoundExpression)),
            ),
        )
    } else if k == TermTagKind::IdentType && t == JackTokenV::Symbol(
        JackSymbol::OpenRoundBracket,
    ) {
        (
            TermTagKind::TerminateAfterMove,
            JackAstTagResultV::Move(
                JackAstTagNodeV::Bracket(bracket_new(BracketTagKind::RoundExpressions)),
            ),
        )
    } else if k == TermTagKind::Unknown && (t is StringLiteral || t is IntLiteral) {
        (TermTagKind::TerminateAfterMove, JackAstTagResultV::Push)
    } else if k == TermTagKind::Unknown && (t is Ident || (t matches JackTokenV::Keyword(kw) && (
    kw == JackKeyword::True || kw == JackKeyword::False || kw == JackKeyword::This || kw
        == JackKeyword::Null))) {
        (TermTagKind::IdentType, JackAstTagResultV::Push)
    } else if k == TermTagKind::IdentType && t == JackTokenV::Symbol(JackSymbol::Period) {
        (TermTagKind::AwaitIdent, JackAstTagResultV::Push)
    } else if k == TermTagKind::AwaitIdent && t is Ident {
        (TermTagKind::IdentType, JackAstTagResultV::Push)
    } else if k == TermTagKind::IdentType && t == JackTokenV::Symbol(
        JackSymbol::OpenSquareBracket,
    ) {
        (
            TermTagKind::TerminateAfterMove,
            JackAstTagResultV::Move(JackAstTagNodeV::Bracket(bracket_new(BracketTagKind::Square))),
        )
    } else if k == TermTagKind::TerminateAfterMove {
        (TermTagKind::Terminate, JackAstTagResultV::Finish)
    } else if k == TermTagKind::IdentType {
        (k, JackAstTagResultV::Finish)
    } else {
        (k, JackAstTagResultV::Error)
    }
}

impl TermTag {
    pub fn get_label(&self) -> (r: JackAstTagLabel)
        ensures
            r == JackAstTagLabel::Term,
    {
        JackAstTagLabel::Term
    }

    /// Complete unless nothing, only a unary operator, or a dangling `.` has
    /// been read.
    pub fn is_consistent(&self) -> (r: bool)
        ensures
            r == !(self@ == TermTagKind::Unknown || self@ == TermTagKind::AwaitIdent || self@
                == TermTagKind::UnaryOpTerm),
    {
        match self.kind {
            TermTagKind::Unknown => false,
            TermTagKind::AwaitIdent => false,
            TermTagKind::UnaryOpTerm => false,
            _ => true,
        }
    }

    pub fn feed_token(&mut self, token: &JackToken) -> (r: JackAstTagResult)
        ensures
            (final(self)@, r@) == term_feed(old(self)@, token@),
    {
        match (token, &self.kind) {
            (JackToken::Symbol(s), TermTagKind::Unknown) if s.is_unary_op() => {
                self.kind = TermTagKind::UnaryOpTerm;
                JackAstTagResult::Push
            },
            (_, TermTagKind::UnaryOpTerm) => {
                self.kind = TermTagKind::TerminateAfterMove;
                let expression = Self::default();
                JackAstTagResult::Move(JackAstTagNode::Term(expression))
            },
            (JackToken::Symbol(JackSymbol::OpenRoundBracket), TermTagKind::Unknown) => {
                self.kind = TermTagKind::TerminateAfterMove;
                let expression = BracketTag::new(BracketTagKind::RoundExpression);
                JackAstTagResult::Move(JackAstTagNode::Bracket(expression))
            },
            (JackToken::Symbol(JackSymbol::OpenRoundBracket), TermTagKind::IdentType) => {
                self.kind = TermTagKind::TerminateAfterMove;
                let expression = BracketTag::new(BracketTagKind::RoundExpressions);
                JackAstTagResult::Move(JackAstTagNode::Bracket(expression))
            },
            (JackToken::StringLiteral(_), TermTagKind::Unknown) => {
                self.kind = TermTagKind::TerminateAfterMove;
                JackAstTagResult::Push
            },
            (JackToken::IntLiteral(_), TermTagKind::Unknown) => {
                self.kind = TermTagKind::TerminateAfterMove;
                JackAstTagResult::Push
            },
            (JackToken::Ident(_), TermTagKind::Unknown) => {
                self.kind = TermTagKind::IdentType;
                JackAstTagResult::Push
            },
            (JackToken::Keyword(keyword), TermTagKind::Unknown) if keyword.is_value() => {
                self.kind = TermTagKind::IdentType;
                JackAstTagResult::Push
            },
            (JackToken::Symbol(JackSymbol::Period), TermTagKind::IdentType) => {
                self.kind = TermTagKind::AwaitIdent;
                JackAstTagResult::Push
            },
            (JackToken::Ident(_), TermTagKind::AwaitIdent) => {
                self.kind = TermTagKind::IdentType;
                JackAstTagResult::Push
            },
            (JackToken::Symbol(JackSymbol::OpenSquareBracket), TermTagKind::IdentType) => {
                self.kind = TermTagKind::TerminateAfterMove;
                let expression = BracketTag::new(BracketTagKind::Square);
                JackAstTagResult::Move(JackAstTagNode::Bracket(expression))
            },
            (_, TermTagKind::TerminateAfterMove) => {
                self.kind = TermTagKind::Terminate;
                JackAstTagResult::Finish
            },
            (_, TermTagKind::IdentType) => JackAstTagResult::Finish,
            _ => JackAstTagResult::Error,
        }
    }
}

} // verus!

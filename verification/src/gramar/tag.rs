use vstd::prelude::*;

use crate::tokens::{JackToken, JackTokenV};


use super::tags::bracket::{
    bracket_feed, bracket_intercept, bracket_label, BracketTag, BracketTagStage, BracketTagView,
};
use super::tags::class::{class_feed, ClassTag, ClassTagStage};
use super::tags::declar::{declar_feed, DeclarTag, DeclarTagScope, DeclarTagStage, DeclarTagView};
use super::tags::do_statement::{do_feed, DoTag, DoTagStage};
use super::tags::expression::{expression_feed, ExpressionTag, ExpressionTagStage};
use super::tags::expressions::{expressions_feed, ExpressionsTag, ExpressionsTagStage};
use super::tags::function::{function_feed, FunctionTag, FunctionTagStage};
use super::tags::funvtions_declar::{functions_declar_feed, FunctionsDeclarTag};
use super::tags::if_statement::{if_feed, IfTag, IfTagStage};
use super::tags::let_statement::{let_feed, LetTag, LetTagStage};
use super::tags::params::{params_feed, ParamsTag, ParamsTagStage};
use super::tags::return_statement::{return_feed, ReturnTag, ReturnTagStage};
use super::tags::statements::{statements_feed, StatementsTag};
use super::tags::statements_declar::{
    statements_declar_feed, StatementsDeclarTag, StatementsDeclarTagStage,
};
use super::tags::term::{term_feed, TermTag, TermTagKind};
use super::tags::while_statement::{while_feed, WhileTag, WhileTagStage};

verus! {

/// The name of a grammar rule, as a tag of the syntax tree.
#[derive(Debug, PartialEq, Eq, Structural, Clone, Copy)]
pub enum JackAstTagLabel {
    Class,
    CurlyBracket,
    CurlyClassBracket,
    CurlyFunctionBracket,
    RoundExpressionBracket,
    RoundExpressionsBracket,
    RoundParamsBracket,
    SquareBracket,
    StaticOrField,
    Var,
    Do,
    Expression,
    Expressions,
    Function,
    FunctionsDeclar,
    If,
    Let,
    Params,
    Return,
    Statements,
    StatementsDeclar,
    Term,
    While,
}

/// A grammar rule in progress, of any kind.
pub enum JackAstTagNode {
    Bracket(BracketTag),
    Class(ClassTag),
    Declar(DeclarTag),
    Do(DoTag),
    Expression(ExpressionTag),
    Expressions(ExpressionsTag),
    Function(FunctionTag),
    FunctionsDeclar(FunctionsDeclarTag),
    If(IfTag),
    Let(LetTag),
    Params(ParamsTag),
    Return(ReturnTag),
    Statements(StatementsTag),
    StatementsDeclar(StatementsDeclarTag),
    Term(TermTag),
    While(WhileTag),
}

/// The state of a grammar rule in progress.
pub enum JackAstTagNodeV {
    Bracket(BracketTagView),
    Class(ClassTagStage),
    Declar(DeclarTagView),
    Do(DoTagStage),
    Expression(ExpressionTagStage),
    Expressions(ExpressionsTagStage),
    Function(FunctionTagStage),
    FunctionsDeclar(bool),
    If(IfTagStage),
    Let(LetTagStage),
    Params(ParamsTagStage),
    Return(ReturnTagStage),
    Statements,
    StatementsDeclar(StatementsDeclarTagStage),
    Term(TermTagKind),
    While(WhileTagStage),
}

/// What a grammar rule does with a token: keep it as its own, hand it to a
/// new nested rule, end before it, or refuse it.
pub enum JackAstTagResult {
    Push,
    Move(JackAstTagNode),
    Finish,
    Error,
}

/// The outcome of feeding a token, with the nested rule taken by its state.
pub enum JackAstTagResultV {
    Push,
    Move(JackAstTagNodeV),
    Finish,
    Error,
}

impl View for JackAstTagNode {
    type V = JackAstTagNodeV;

    open spec fn view(&self) -> JackAstTagNodeV {
        match self {
            JackAstTagNode::Bracket(t) => JackAstTagNodeV::Bracket(t@),
            JackAstTagNode::Class(t) => JackAstTagNodeV::Class(t@),
            JackAstTagNode::Declar(t) => JackAstTagNodeV::Declar(t@),
            JackAstTagNode::Do(t) => JackAstTagNodeV::Do(t@),
            JackAstTagNode::Expression(t) => JackAstTagNodeV::Expression(t@),
            JackAstTagNode::Expressions(t) => JackAstTagNodeV::Expressions(t@),
            JackAstTagNode::Function(t) => JackAstTagNodeV::Function(t@),
            JackAstTagNode::FunctionsDeclar(t) => JackAstTagNodeV::FunctionsDeclar(t@),
            JackAstTagNode::If(t) => JackAstTagNodeV::If(t@),
            JackAstTagNode::Let(t) => JackAstTagNodeV::Let(t@),
            JackAstTagNode::Params(t) => JackAstTagNodeV::Params(t@),
            JackAstTagNode::Return(t) => JackAstTagNodeV::Return(t@),
            JackAstTagNode::Statements(_) => JackAstTagNodeV::Statements,
            JackAstTagNode::StatementsDeclar(t) => JackAstTagNodeV::StatementsDeclar(t@),
            JackAstTagNode::Term(t) => JackAstTagNodeV::Term(t@),
            JackAstTagNode::While(t) => JackAstTagNodeV::While(t@),
        }
    }
}

impl View for JackAstTagResult {
    type V = JackAstTagResultV;

    open spec fn view(&self) -> JackAstTagResultV {
        match self {
            JackAstTagResult::Push => JackAstTagResultV::Push,
            JackAstTagResult::Move(n) => JackAstTagResultV::Move(n@),
            JackAstTagResult::Finish => JackAstTagResultV::Finish,
            JackAstTagResult::Error => JackAstTagResultV::Error,
        }
    }
}

/// The label of a rule in progress.
pub open spec fn node_label(n: JackAstTagNodeV) -> JackAstTagLabel {
    match n {
        JackAstTagNodeV::Bracket(b) => bracket_label(b.kind),
        JackAstTagNodeV::Class(_) => JackAstTagLabel::Class,
        JackAstTagNodeV::Declar(d) => if d.scope == DeclarTagScope::Class {
            JackAstTagLabel::StaticOrField
        } else {
            JackAstTagLabel::Var
        },
        JackAstTagNodeV::Do(_) => JackAstTagLabel::Do,
        JackAstTagNodeV::Expression(_) => JackAstTagLabel::Expression,
        JackAstTagNodeV::Expressions(_) => JackAstTagLabel::Expressions,
        JackAstTagNodeV::Function(_) => JackAstTagLabel::Function,
        JackAstTagNodeV::FunctionsDeclar(_) => JackAstTagLabel::FunctionsDeclar,
        JackAstTagNodeV::If(_) => JackAstTagLabel::If,
        JackAstTagNodeV::Let(_) => JackAstTagLabel::Let,
        JackAstTagNodeV::Params(_) => JackAstTagLabel::Params,
        JackAstTagNodeV::Return(_) => JackAstTagLabel::Return,
        JackAstTagNodeV::Statements => JackAstTagLabel::Statements,
        JackAstTagNodeV::StatementsDeclar(_) => JackAstTagLabel::StatementsDeclar,
        JackAstTagNodeV::Term(_) => JackAstTagLabel::Term,
        JackAstTagNodeV::While(_) => JackAstTagLabel::While,
    }
}

/// Whether a rule in progress could end here.
pub open spec fn node_consistent(n: JackAstTagNodeV) -> bool {
    match n {
        JackAstTagNodeV::Bracket(b) => b.stage == BracketTagStage::Closed,
        JackAstTagNodeV::Class(s) => s == ClassTagStage::Terminate,
        JackAstTagNodeV::Declar(d) => d.stage == DeclarTagStage::Terminate,
        JackAstTagNodeV::Do(s) => s == DoTagStage::Terminate,
        JackAstTagNodeV::Expression(s) => s == ExpressionTagStage::AwaitOp,
        JackAstTagNodeV::Expressions(s) => s == ExpressionsTagStage::AwaitComma || s
            == ExpressionsTagStage::InitExpression,
        JackAstTagNodeV::Function(s) => s == FunctionTagStage::Terminate,
        JackAstTagNodeV::FunctionsDeclar(_) => true,
        JackAstTagNodeV::If(s) => s == IfTagStage::Terminate || s == IfTagStage::AwaitMaybeElse,
        JackAstTagNodeV::Let(s) => s == LetTagStage::Terminate,
        JackAstTagNodeV::Params(s) => s != ParamsTagStage::AwaitIdent,
        JackAstTagNodeV::Return(s) => s == ReturnTagStage::Terminate,
        JackAstTagNodeV::Statements => true,
        JackAstTagNodeV::StatementsDeclar(s) => s == StatementsDeclarTagStage::Terminate,
        JackAstTagNodeV::Term(k) => !(k == TermTagKind::Unknown || k == TermTagKind::AwaitIdent
            || k == TermTagKind::UnaryOpTerm),
        JackAstTagNodeV::While(s) => s == WhileTagStage::Terminate,
    }
}

/// One step of a rule in progress.
pub open spec fn node_feed(n: JackAstTagNodeV, t: JackTokenV) -> (JackAstTagNodeV, JackAstTagResultV) {
    match n {
        JackAstTagNodeV::Bracket(b) => {
            let r = bracket_feed(b, t);
            (JackAstTagNodeV::Bracket(r.0), r.1)
        },
        JackAstTagNodeV::Class(s) => {
            let r = class_feed(s, t);
            (JackAstTagNodeV::Class(r.0), r.1)
        },
        JackAstTagNodeV::Declar(d) => {
            let r = declar_feed(d, t);
            (JackAstTagNodeV::Declar(r.0), r.1)
        },
        JackAstTagNodeV::Do(s) => {
            let r = do_feed(s, t);
            (JackAstTagNodeV::Do(r.0), r.1)
        },
        JackAstTagNodeV::Expression(s) => {
            let r = expression_feed(s, t);
            (JackAstTagNodeV::Expression(r.0), r.1)
        },
        JackAstTagNodeV::Expressions(s) => {
            let r = expressions_feed(s, t);
            (JackAstTagNodeV::Expressions(r.0), r.1)
        },
        JackAstTagNodeV::Function(s) => {
            let r = function_feed(s, t);
            (JackAstTagNodeV::Function(r.0), r.1)
        },
        JackAstTagNodeV::FunctionsDeclar(s) => {
            let r = functions_declar_feed(s, t);
            (JackAstTagNodeV::FunctionsDeclar(r.0), r.1)
        },
        JackAstTagNodeV::If(s) => {
            let r = if_feed(s, t);
            (JackAstTagNodeV::If(r.0), r.1)
        },
        JackAstTagNodeV::Let(s) => {
            let r = let_feed(s, t);
            (JackAstTagNodeV::Let(r.0), r.1)
        },
        JackAstTagNodeV::Params(s) => {
            let r = params_feed(s, t);
            (JackAstTagNodeV::Params(r.0), r.1)
        },
        JackAstTagNodeV::Return(s) => {
            let r = return_feed(s, t);
            (JackAstTagNodeV::Return(r.0), r.1)
        },
        JackAstTagNodeV::Statements => (JackAstTagNodeV::Statements, statements_feed(t)),
        JackAstTagNodeV::StatementsDeclar(s) => {
            let r = statements_declar_feed(s, t);
            (JackAstTagNodeV::StatementsDeclar(r.0), r.1)
        },
        JackAstTagNodeV::Term(s) => {
            let r = term_feed(s, t);
            (JackAstTagNodeV::Term(r.0), r.1)
        },
        JackAstTagNodeV::While(s) => {
            let r = while_feed(s, t);
            (JackAstTagNodeV::While(r.0), r.1)
        },
    }
}

/// The token may pass a rule's `intercept` without breaking its bracket
/// depth: no closing bracket at depth zero, no opening bracket at the
/// largest depth.
pub open spec fn node_intercept_ok(n: JackAstTagNodeV, t: JackTokenV) -> bool {
    n matches JackAstTagNodeV::Bracket(b) ==> {
        &&& t == JackTokenV::Symbol(b.inc_symbol) ==> b.counter < usize::MAX
        &&& t == JackTokenV::Symbol(b.dec_symbol) ==> b.counter > 0
    }
}

/// What watching a token does to a rule in progress: only bracketed rules
/// keep track of depth; the others ignore the token.
pub open spec fn node_intercept(n: JackAstTagNodeV, t: JackTokenV) -> (JackAstTagNodeV, bool) {
    match n {
        JackAstTagNodeV::Bracket(b) => {
            let r = bracket_intercept(b, t);
            (JackAstTagNodeV::Bracket(r.0), r.1)
        },
        _ => (n, false),
    }
}

impl JackAstTagNode {
    pub fn get_label(&self) -> (r: JackAstTagLabel)
        ensures
            r == node_label(self@),
    {
        match self {
            JackAstTagNode::Bracket(t) => t.get_label(),
            JackAstTagNode::Class(t) => t.get_label(),
            JackAstTagNode::Declar(t) => t.get_label(),
            JackAstTagNode::Do(t) => t.get_label(),
            JackAstTagNode::Expression(t) => t.get_label(),
            JackAstTagNode::Expressions(t) => t.get_label(),
            JackAstTagNode::Function(t) => t.get_label(),
            JackAstTagNode::FunctionsDeclar(t) => t.get_label(),
            JackAstTagNode::If(t) => t.get_label(),
            JackAstTagNode::Let(t) => t.get_label(),
            JackAstTagNode::Params(t) => t.get_label(),
            JackAstTagNode::Return(t) => t.get_label(),
            JackAstTagNode::Statements(t) => t.get_label(),
            JackAstTagNode::StatementsDeclar(t) => t.get_label(),
            JackAstTagNode::Term(t) => t.get_label(),
            JackAstTagNode::While(t) => t.get_label(),
        }
    }

    pub fn is_consistent(&self) -> (r: bool)
        ensures
            r == node_consistent(self@),
    {
        match self {
            JackAstTagNode::Bracket(t) => t.is_consistent(),
            JackAstTagNode::Class(t) => t.is_consistent(),
            JackAstTagNode::Declar(t) => t.is_consistent(),
            JackAstTagNode::Do(t) => t.is_consistent(),
            JackAstTagNode::Expression(t) => t.is_consistent(),
            JackAstTagNode::Expressions(t) => t.is_consistent(),
            JackAstTagNode::Function(t) => t.is_consistent(),
            JackAstTagNode::FunctionsDeclar(t) => t.is_consistent(),
            JackAstTagNode::If(t) => t.is_consistent(),
            JackAstTagNode::Let(t) => t.is_consistent(),
            JackAstTagNode::Params(t) => t.is_consistent(),
            JackAstTagNode::Return(t) => t.is_consistent(),
            JackAstTagNode::Statements(t) => t.is_consistent(),
            JackAstTagNode::StatementsDeclar(t) => t.is_consistent(),
            JackAstTagNode::Term(t) => t.is_consistent(),
            JackAstTagNode::While(t) => t.is_consistent(),
        }
    }

    /// Watches a token on its way to a nested rule.
    pub fn intercept(&mut self, token: &JackToken) -> (r: bool)
        requires
            node_intercept_ok(old(self)@, token@),
        ensures
            (final(self)@, r) == node_intercept(old(self)@, token@),
    {
        match self {
            JackAstTagNode::Bracket(t) => t.intercept(token),
            _ => false,
        }
    }

    pub fn feed_token(&mut self, token: &JackToken) -> (r: JackAstTagResult)
        ensures
            (final(self)@, r@) == node_feed(old(self)@, token@),
    {
        match self {
            JackAstTagNode::Bracket(t) => t.feed_token(token),
            JackAstTagNode::Class(t) => t.feed_token(token),
            JackAstTagNode::Declar(t) => t.feed_token(token),
            JackAstTagNode::Do(t) => t.feed_token(token),
            JackAstTagNode::Expression(t) => t.feed_token(token),
            JackAstTagNode::Expressions(t) => t.feed_token(token),
            JackAstTagNode::Function(t) => t.feed_token(token),
            JackAstTagNode::FunctionsDeclar(t) => t.feed_token(token),
            JackAstTagNode::If(t) => t.feed_token(token),
            JackAstTagNode::Let(t) => t.feed_token(token),
            JackAstTagNode::Params(t) => t.feed_token(token),
            JackAstTagNode::Return(t) => t.feed_token(token),
            JackAstTagNode::Statements(t) => t.feed_token(token),
            JackAstTagNode::StatementsDeclar(t) => t.feed_token(token),
            JackAstTagNode::Term(t) => t.feed_token(token),
            JackAstTagNode::While(t) => t.feed_token(token),
        }
    }
}

} // verus!

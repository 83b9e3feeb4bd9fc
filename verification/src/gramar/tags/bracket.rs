use vstd::prelude::*;

use crate::gramar::tag::{
    JackAstTagLabel, JackAstTagNode, JackAstTagNodeV, JackAstTagResult, JackAstTagResultV,
};
use crate::tokens::{JackSymbol, JackToken, JackTokenV};

use super::expression::{ExpressionTag, ExpressionTagStage};
use super::expressions::{ExpressionsTag, ExpressionsTagStage};
use super::funvtions_declar::FunctionsDeclarTag;
use super::params::{ParamsTag, ParamsTagStage};
use super::statements::StatementsTag;
use super::statements_declar::{StatementsDeclarTag, StatementsDeclarTagStage};

verus! {

/// Which pair of brackets, and what grammar rule the brackets enclose.
#[derive(Debug, PartialEq, Eq, Structural, Clone, Copy)]
pub enum BracketTagKind {
    RoundExpression,
    RoundExpressions,
    RoundParams,
    Square,
    Curly,
    CurlyFunction,
    CurlyClass,
}

impl BracketTagKind {
    pub open spec fn spec_is_round(self) -> bool {
        self == BracketTagKind::RoundExpression || self == BracketTagKind::RoundExpressions
            || self == BracketTagKind::RoundParams
    }

    pub open spec fn spec_is_curly(self) -> bool {
        self == BracketTagKind::Curly || self == BracketTagKind::CurlyClass || self
            == BracketTagKind::CurlyFunction
    }

    pub open spec fn spec_is_expr(self) -> bool {
        self == BracketTagKind::RoundExpression || self == BracketTagKind::Square
    }

    /// `( )` brackets.
    pub fn is_round(&self) -> (r: bool)
        ensures
            r == self.spec_is_round(),
    {
        match self {
            Self::RoundExpression => true,
            Self::RoundExpressions => true,
            Self::RoundParams => true,
            _ => false,
        }
    }

    /// `{ }` brackets.
    pub fn is_curly(&self) -> (r: bool)
        ensures
            r == self.spec_is_curly(),
    {
        match self {
            Self::Curly => true,
            Self::CurlyClass => true,
            Self::CurlyFunction => true,
            _ => false,
        }
    }

    /// Brackets that enclose a single expression.
    pub fn is_expr(&self) -> (r: bool)
        ensures
            r == self.spec_is_expr(),
    {
        match self {
            Self::RoundExpression => true,
            Self::Square => true,
            _ => false,
        }
    }
}

/// How far a bracketed rule has got.
#[derive(Debug, PartialEq, Eq, Structural, Clone, Copy)]
pub enum BracketTagStage {
    AwaitOpen,
    AwaitBody,
    AwaitClose,
    Closed,
}

/// A bracketed grammar rule: the opening bracket, one nested rule, the
/// closing bracket.
pub struct BracketTag {
    kind: BracketTagKind,
    stage: BracketTagStage,
    inc_symbol: JackSymbol,
    dec_symbol: JackSymbol,
    counter: usize,
}

/// The state of a bracketed rule: its kind, stage, opening and closing
/// symbols, and the nesting depth of brackets of its own kind.
pub struct BracketTagView {
    pub kind: BracketTagKind,
    pub stage: BracketTagStage,
    pub inc_symbol: JackSymbol,
    pub dec_symbol: JackSymbol,
    pub counter: usize,
}

impl View for BracketTag {
    type V = BracketTagView;

    closed spec fn view(&self) -> BracketTagView {
        BracketTagView {
            kind: self.kind,
            stage: self.stage,
            inc_symbol: self.inc_symbol,
            dec_symbol: self.dec_symbol,
            counter: self.counter,
        }
    }
}

/// The opening and closing symbols of a kind of brackets.
pub open spec fn bracket_symbols(kind: BracketTagKind) -> (JackSymbol, JackSymbol) {
    if kind.spec_is_curly() {
        (JackSymbol::OpenCurlyBracket, JackSymbol::CloseCurlyBracket)
    } else if kind.spec_is_round() {
        (JackSymbol::OpenRoundBracket, JackSymbol::CloseRoundBracket)
    } else {
        (JackSymbol::OpenSquareBracket, JackSymbol::CloseSquareBracket)
    }
}

/// A fresh bracketed rule of the given kind.
pub open spec fn bracket_new(kind: BracketTagKind) -> BracketTagView {
    BracketTagView {
        kind,
        stage: BracketTagStage::AwaitOpen,
        inc_symbol: bracket_symbols(kind).0,
        dec_symbol: bracket_symbols(kind).1,
        counter: 0,
    }
}

/// The label of a bracketed rule.
pub open spec fn bracket_label(kind: BracketTagKind) -> JackAstTagLabel {
    match kind {
        BracketTagKind::Curly => JackAstTagLabel::CurlyBracket,
        BracketTagKind::CurlyClass => JackAstTagLabel::CurlyClassBracket,
        BracketTagKind::CurlyFunction => JackAstTagLabel::CurlyFunctionBracket,
        BracketTagKind::RoundExpression => JackAstTagLabel::RoundExpressionBracket,
        BracketTagKind::RoundParams => JackAstTagLabel::RoundParamsBracket,
        BracketTagKind::RoundExpressions => JackAstTagLabel::RoundExpressionsBracket,
        BracketTagKind::Square => JackAstTagLabel::SquareBracket,
    }
}

/// The rule that a kind of brackets encloses, when the body begins.
pub open spec fn bracket_body(kind: BracketTagKind) -> JackAstTagNodeV {
    if kind.spec_is_expr() {
        JackAstTagNodeV::Expression(ExpressionTagStage::AwaitTerm)
    } else if kind == BracketTagKind::Curly {
        JackAstTagNodeV::Statements
    } else if kind == BracketTagKind::CurlyFunction {
        JackAstTagNodeV::StatementsDeclar(StatementsDeclarTagStage::AwaitVarOrStatements)
    } else if kind == BracketTagKind::CurlyClass {
        JackAstTagNodeV::FunctionsDeclar(false)
    } else if kind == BracketTagKind::RoundExpressions {
        JackAstTagNodeV::Expressions(ExpressionsTagStage::InitExpression)
    } else {
        JackAstTagNodeV::Params(ParamsTagStage::AwaitType)
    }
}

/// One step of a bracketed rule.
pub open spec fn bracket_feed(b: BracketTagView, t: JackTokenV) -> (
    BracketTagView,
    JackAstTagResultV,
) {
    if t == JackTokenV::Symbol(b.inc_symbol) && b.stage == BracketTagStage::AwaitOpen {
        (BracketTagView { counter: 1, stage: BracketTagStage::AwaitBody, ..b }, JackAstTagResultV::Push)
    } else if t == JackTokenV::Symbol(b.dec_symbol) && b.stage == BracketTagStage::AwaitClose {
        (BracketTagView { stage: BracketTagStage::Closed, ..b }, JackAstTagResultV::Push)
    } else if b.stage == BracketTagStage::AwaitBody {
        (
            BracketTagView { stage: BracketTagStage::AwaitClose, ..b },
            JackAstTagResultV::Move(bracket_body(b.kind)),
        )
    } else if b.stage == BracketTagStage::Closed {
        (b, JackAstTagResultV::Finish)
    } else {
        (b, JackAstTagResultV::Error)
    }
}

/// What watching a token does to the bracket depth: an opening bracket adds
/// one, a closing bracket takes one away and reports whether the depth is
/// back to zero.
pub open spec fn bracket_intercept(b: BracketTagView, t: JackTokenV) -> (BracketTagView, bool) {
    if t == JackTokenV::Symbol(b.inc_symbol) {
        (BracketTagView { counter: (b.counter + 1) as usize, ..b }, false)
    } else if t == JackTokenV::Symbol(b.dec_symbol) {
        (BracketTagView { counter: (b.counter - 1) as usize, ..b }, b.counter - 1 == 0)
    } else {
        (b, false)
    }
}

impl BracketTag {
    /// A bracketed rule of the given kind, awaiting its opening bracket.
    pub fn new(kind: BracketTagKind) -> (r: Self)
        ensures
            r@ == bracket_new(kind),
    {
        let (inc_symbol, dec_symbol) = if kind.is_curly() {
            (JackSymbol::OpenCurlyBracket, JackSymbol::CloseCurlyBracket)
        } else if kind.is_round() {
            (JackSymbol::OpenRoundBracket, JackSymbol::CloseRoundBracket)
        } else {
            (JackSymbol::OpenSquareBracket, JackSymbol::CloseSquareBracket)
        };
        BracketTag { kind, inc_symbol, dec_symbol, stage: BracketTagStage::AwaitOpen, counter: 0 }
    }

    pub fn get_label(&self) -> (r: JackAstTagLabel)
        ensures
            r == bracket_label(self@.kind),
    {
        match self.kind {
            BracketTagKind::Curly => JackAstTagLabel::CurlyBracket,
            BracketTagKind::CurlyClass => JackAstTagLabel::CurlyClassBracket,
            BracketTagKind::CurlyFunction => JackAstTagLabel::CurlyFunctionBracket,
            BracketTagKind::RoundExpression => JackAstTagLabel::RoundExpressionBracket,
            BracketTagKind::RoundParams => JackAstTagLabel::RoundParamsBracket,
            BracketTagKind::RoundExpressions => JackAstTagLabel::RoundExpressionsBracket,
            BracketTagKind::Square => JackAstTagLabel::SquareBracket,
        }
    }

    /// The rule is complete once its closing bracket is read.
    pub fn is_consistent(&self) -> (r: bool)
        ensures
            r == (self@.stage == BracketTagStage::Closed),
    {
        self.stage == BracketTagStage::Closed
    }

    /// Watches a token on its way to a nested rule, keeping the bracket depth.
    /// A closing bracket at depth zero is refused.
    pub fn intercept(&mut self, token: &JackToken) -> (r: bool)
        requires
            token@ == JackTokenV::Symbol(old(self)@.inc_symbol) ==> old(self)@.counter < usize::MAX,
            token@ == JackTokenV::Symbol(old(self)@.dec_symbol) ==> old(self)@.counter > 0,
        ensures
            (final(self)@, r) == bracket_intercept(old(self)@, token@),
    {
        match token {
            JackToken::Symbol(s) => {
                if *s == self.inc_symbol {
                    self.counter = self.counter + 1;
                    false
                } else if *s == self.dec_symbol {
                    self.counter = self.counter - 1;
                    self.counter == 0
                } else {
                    false
                }
            },
            _ => false,
        }
    }

    pub fn feed_token(&mut self, token: &JackToken) -> (r: JackAstTagResult)
        ensures
            (final(self)@, r@) == bracket_feed(old(self)@, token@),
    {
        let is_inc = match token {
            JackToken::Symbol(s) => *s == self.inc_symbol,
            _ => false,
        };
        let is_dec = match token {
            JackToken::Symbol(s) => *s == self.dec_symbol,
            _ => false,
        };
        if is_inc && self.stage == BracketTagStage::AwaitOpen {
            self.counter = 1;
            self.stage = BracketTagStage::AwaitBody;
            JackAstTagResult::Push
        } else if is_dec && self.stage == BracketTagStage::AwaitClose {
            self.stage = BracketTagStage::Closed;
            JackAstTagResult::Push
        } else if self.stage == BracketTagStage::AwaitBody {
            self.stage = BracketTagStage::AwaitClose;
            if self.kind.is_expr() {
                JackAstTagResult::Move(JackAstTagNode::Expression(ExpressionTag::default()))
            } else if self.kind == BracketTagKind::Curly {
                JackAstTagResult::Move(JackAstTagNode::Statements(StatementsTag::default()))
            } else if self.kind == BracketTagKind::CurlyFunction {
                JackAstTagResult::Move(
                    JackAstTagNode::StatementsDeclar(StatementsDeclarTag::default()),
                )
            } else if self.kind == BracketTagKind::CurlyClass {
                JackAstTagResult::Move(
                    JackAstTagNode::FunctionsDeclar(FunctionsDeclarTag::default()),
                )
            } else if self.kind == BracketTagKind::RoundExpressions {
                JackAstTagResult::Move(JackAstTagNode::Expressions(ExpressionsTag::default()))
            } else {
                JackAstTagResult::Move(JackAstTagNode::Params(ParamsTag::default()))
            }
        } else if self.stage == BracketTagStage::Closed {
            JackAstTagResult::Finish
        } else {
            JackAstTagResult::Error
        }
    }
}

} // verus!

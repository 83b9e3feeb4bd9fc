use vstd::prelude::*;

use crate::tokens::{JackInt, JackString, JackSymbol};

use super::units::segments::JackSegment;
use super::units::subroutins_types::JackSubroutineType;
use super::units::types::JackType;
use super::units::var_name::JackVariableName;

verus! {

/// A declaration of one or more variables of one type in one segment.
pub struct JackDeclaration {
    pub segment: JackSegment,
    pub kind: JackType,
    pub names: Vec<JackVariableName>,
}

/// A class: its name, its `static` and `field` declarations and its
/// subroutines.
pub struct JackClass {
    pub name: JackVariableName,
    pub vars: Vec<JackDeclaration>,
    pub subroutines: Vec<JackSubroutine>,
}

/// A subroutine: its kind, return type, name, declarations (arguments and
/// locals) and body.
pub struct JackSubroutine {
    pub key: JackSubroutineType,
    pub kind: JackType,
    pub name: JackVariableName,
    pub vars: Vec<JackDeclaration>,
    pub statements: JackStatements,
}

/// A sequence of statements.
pub struct JackStatements(pub Vec<Box<JackStatement>>);

/// A statement.
pub enum JackStatement {
    Do(JackDoStatement),
    Return(JackReturnStatement),
    Let(JackLetStatement),
    If(JackIfStatement),
    While(JackWhileStatement),
}

/// `do call;`
pub struct JackDoStatement {
    pub call: JackTerm,
}

/// `return expression?;`
pub struct JackReturnStatement {
    pub expression: Option<JackExpression>,
}

/// `let variable = expression;`, the variable being a name or an array
/// element.
pub struct JackLetStatement {
    pub variable: JackTerm,
    pub expression: JackExpression,
}

/// `if (condition) { statements } else { else_statements }`.
pub struct JackIfStatement {
    pub condition: JackTerm,
    pub statements: JackStatements,
    pub else_statements: Option<JackStatements>,
}

/// `while (condition) { statements }`.
pub struct JackWhileStatement {
    pub condition: JackTerm,
    pub statements: JackStatements,
}

/// The keyword constants.
#[derive(Debug, PartialEq, Eq, Structural, Clone, Copy)]
pub enum JackConstantTerm {
    This,
    True,
    False,
    Null,
}

/// A term.
pub struct JackTerm {
    pub payload: JackTermPayload,
}

/// The forms of a term.
pub enum JackTermPayload {
    Int(JackInt),
    String(JackString),
    Const(JackConstantTerm),
    Expression(Box<JackExpression>),
    Ident(JackVariableName),
    Unary(JackSymbol, Box<JackTerm>),
    MethodCall(JackVariableName, JackExpressions),
    FunctionCall(JackVariableName, JackVariableName, JackExpressions),
    ArrayElem(JackVariableName, Box<JackExpression>),
}

/// A term followed by operators and terms, evaluated left to right.
pub struct JackExpression {
    pub term: JackTerm,
    pub extra: Vec<(JackSymbol, JackTerm)>,
}

/// The arguments of a call.
pub struct JackExpressions {
    pub data: Vec<JackExpression>,
}

impl JackExpression {
    /// The expression is the bare keyword `this`.
    pub open spec fn spec_is_this(&self) -> bool {
        self.extra@.len() == 0 && self.term.payload matches JackTermPayload::Const(
            JackConstantTerm::This,
        )
    }

    /// Whether the expression is the bare keyword `this`.
    pub fn is_this(&self) -> (r: bool)
        ensures
            r == self.spec_is_this(),
    {
        self.extra.len() == 0 && match self.term.payload {
            JackTermPayload::Const(JackConstantTerm::This) => true,
            _ => false,
        }
    }
}

} // verus!

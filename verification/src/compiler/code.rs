use vstd::prelude::*;

use crate::gramar::ast::{
    JackConstantTerm, JackExpression, JackLetStatement, JackStatement, JackTerm, JackTermPayload,
};
use crate::gramar::units::segments::JackSegment;
use crate::gramar::units::subroutins_types::JackSubroutineType;
use crate::gramar::units::types::{has_class_name, type_class_name, JackBasicType, JackTypeV};
use crate::tokens::intlit::{decimal_value, fits_i16_steps};
use crate::tokens::JackSymbol;
use crate::util::nat_digits;
use crate::vm::instructions::{
    AsmArithmeticInstruction, AsmBranchInstructionKind, AsmInstructionV, AsmMemoryInstructionKind,
    AsmMemoryInstructionSegment,
};

use super::vars::{pop_var, push_var, DeclarationV, JackVariableV};

verus! {

/// Why a subroutine cannot be compiled.
#[derive(Debug, PartialEq, Eq, Structural, Clone, Copy)]
pub enum CompileError {
    /// A local, or in a constructor a field, is read before any `let` gave
    /// it a value.
    UsedBeforeAssigned,
    /// A name that no table holds is read while undeclared names are refused.
    NotDeclared,
    /// A `void` subroutine returns a value.
    VoidReturnsValue,
    /// A constructor returns something other than `this`.
    ConstructorReturnsOther,
    /// A subroutine that is not `void` returns nothing.
    MissingReturnValue,
    /// A `let` assigns to a name that no table holds.
    UnknownVariable,
    /// An array element is read from a name that no table holds.
    UnknownArray,
    /// An array element is read from a variable that is not an `Array`.
    NotAnArray,
    /// A binary operator that the VM has no instruction for.
    UnknownOperator,
    /// A unary operator other than `~` and `-`.
    UnknownUnary,
    /// A `let` whose target is neither a name nor an array element.
    NotAssignable,
    /// An integer constant longer than five digits or out of the 16-bit
    /// range.
    IntTooBig,
    /// A method called on a variable whose type has no class.
    NoClassName,
    /// A call with more arguments than a 16-bit count holds.
    TooManyArguments,
    /// More `if` or `while` statements than the label counter holds.
    TooManyLabels,
}

/// What the compilation of one subroutine reads: the class's name and
/// variables, the subroutine's own variables, kind, return type and name,
/// whether reads before assignment are let through, and whether undeclared
/// names are refused.
pub struct CompileEnv {
    pub class_name: Seq<u8>,
    pub class_vars: Map<Seq<u8>, JackVariableV>,
    pub locals: Map<Seq<u8>, JackVariableV>,
    pub key: JackSubroutineType,
    pub kind: JackTypeV,
    pub name: Seq<u8>,
    pub skip: bool,
    pub strict: bool,
}

/// What the compilation of statements carries from one to the next: the
/// label counters and the names assigned so far.
pub struct StateV {
    pub ifs: nat,
    pub whiles: nat,
    pub assigned: Set<Seq<u8>>,
}

/// The state before the first statement.
pub open spec fn initial_state() -> StateV {
    StateV { ifs: 0, whiles: 0, assigned: Set::empty() }
}

pub type Code = Seq<AsmInstructionV>;

pub open spec fn push_const(v: i16) -> AsmInstructionV {
    AsmInstructionV::Memory(AsmMemoryInstructionSegment::Const, AsmMemoryInstructionKind::Push, v)
}

pub open spec fn memory(
    s: AsmMemoryInstructionSegment,
    k: AsmMemoryInstructionKind,
    v: i16,
) -> AsmInstructionV {
    AsmInstructionV::Memory(s, k, v)
}

/// `push pointer 0`
pub open spec fn push_this() -> AsmInstructionV {
    memory(AsmMemoryInstructionSegment::Pointer, AsmMemoryInstructionKind::Push, 0)
}

/// `pop pointer 0`
pub open spec fn pop_this() -> AsmInstructionV {
    memory(AsmMemoryInstructionSegment::Pointer, AsmMemoryInstructionKind::Pop, 0)
}

/// `pop pointer 1`
pub open spec fn pop_that_pointer() -> AsmInstructionV {
    memory(AsmMemoryInstructionSegment::Pointer, AsmMemoryInstructionKind::Pop, 1)
}

/// `pop temp 0`
pub open spec fn pop_temp() -> AsmInstructionV {
    memory(AsmMemoryInstructionSegment::Temp, AsmMemoryInstructionKind::Pop, 0)
}

/// `push temp 0`
pub open spec fn push_temp() -> AsmInstructionV {
    memory(AsmMemoryInstructionSegment::Temp, AsmMemoryInstructionKind::Push, 0)
}

/// `push that 0`
pub open spec fn push_that() -> AsmInstructionV {
    memory(AsmMemoryInstructionSegment::That, AsmMemoryInstructionKind::Push, 0)
}

/// `pop that 0`
pub open spec fn pop_that() -> AsmInstructionV {
    memory(AsmMemoryInstructionSegment::That, AsmMemoryInstructionKind::Pop, 0)
}

/// `push argument 0`
pub open spec fn push_arg0() -> AsmInstructionV {
    memory(AsmMemoryInstructionSegment::Arg, AsmMemoryInstructionKind::Push, 0)
}

pub open spec fn arith(a: AsmArithmeticInstruction) -> AsmInstructionV {
    AsmInstructionV::Arithmetic(a)
}

pub open spec fn branch(k: AsmBranchInstructionKind, name: Seq<u8>) -> AsmInstructionV {
    AsmInstructionV::Branch(k, name)
}

/// `String.new`
pub open spec fn string_new_name() -> Seq<u8> {
    seq![83u8, 116u8, 114u8, 105u8, 110u8, 103u8, 46u8, 110u8, 101u8, 119u8]
}

/// `String.appendChar`
pub open spec fn append_char_name() -> Seq<u8> {
    seq![
        83u8, 116u8, 114u8, 105u8, 110u8, 103u8, 46u8, 97u8, 112u8, 112u8, 101u8, 110u8, 100u8,
        67u8, 104u8, 97u8, 114u8,
    ]
}

/// `Math.multiply`
pub open spec fn multiply_name() -> Seq<u8> {
    seq![77u8, 97u8, 116u8, 104u8, 46u8, 109u8, 117u8, 108u8, 116u8, 105u8, 112u8, 108u8, 121u8]
}

/// `Math.divide`
pub open spec fn divide_name() -> Seq<u8> {
    seq![77u8, 97u8, 116u8, 104u8, 46u8, 100u8, 105u8, 118u8, 105u8, 100u8, 101u8]
}

/// `Memory.alloc`
pub open spec fn alloc_name() -> Seq<u8> {
    seq![77u8, 101u8, 109u8, 111u8, 114u8, 121u8, 46u8, 97u8, 108u8, 108u8, 111u8, 99u8]
}

/// `IF_TRUE_`
pub open spec fn if_true_prefix() -> Seq<u8> {
    seq![73u8, 70u8, 95u8, 84u8, 82u8, 85u8, 69u8, 95u8]
}

/// `IF_FALSE_`
pub open spec fn if_false_prefix() -> Seq<u8> {
    seq![73u8, 70u8, 95u8, 70u8, 65u8, 76u8, 83u8, 69u8, 95u8]
}

/// `IF_END_`
pub open spec fn if_end_prefix() -> Seq<u8> {
    seq![73u8, 70u8, 95u8, 69u8, 78u8, 68u8, 95u8]
}

/// `WHILE_EXP_`
pub open spec fn while_exp_prefix() -> Seq<u8> {
    seq![87u8, 72u8, 73u8, 76u8, 69u8, 95u8, 69u8, 88u8, 80u8, 95u8]
}

/// `WHILE_END_`
pub open spec fn while_end_prefix() -> Seq<u8> {
    seq![87u8, 72u8, 73u8, 76u8, 69u8, 95u8, 69u8, 78u8, 68u8, 95u8]
}

/// `__CLASS_NAME__`, the name under which a method's object is its first
/// argument.
pub open spec fn this_name() -> Seq<u8> {
    seq![95u8, 95u8, 67u8, 76u8, 65u8, 83u8, 83u8, 95u8, 78u8, 65u8, 77u8, 69u8, 95u8, 95u8]
}

/// `class.name`
pub open spec fn qualified(class: Seq<u8>, name: Seq<u8>) -> Seq<u8> {
    class + seq![46u8] + name
}

/// A label: its prefix, then `class_subroutine_n`.
pub open spec fn label(prefix: Seq<u8>, env: CompileEnv, n: nat) -> Seq<u8> {
    prefix + env.class_name + seq![95u8] + env.name + seq![95u8] + nat_digits(n)
}

/// The variable that a name reads: a subroutine variable first, then a class
/// variable, except a field inside a function.
pub open spec fn var_lookup(env: CompileEnv, n: Seq<u8>) -> Option<JackVariableV> {
    if env.locals.contains_key(n) {
        Some(env.locals[n])
    } else if env.class_vars.contains_key(n) {
        let v = env.class_vars[n];
        if env.key == JackSubroutineType::Function && v.segment == JackSegment::Field {
            None
        } else {
            Some(v)
        }
    } else {
        None
    }
}

/// A read of the name comes before any assignment that the checks ask for: a
/// local that is not an argument, or in a constructor a field.
pub open spec fn used_before_assigned(env: CompileEnv, assigned: Set<Seq<u8>>, n: Seq<u8>) -> bool {
    &&& !env.skip
    &&& !assigned.contains(n)
    &&& if env.locals.contains_key(n) {
        env.locals[n].segment != JackSegment::Arg
    } else if env.class_vars.contains_key(n) {
        let v = env.class_vars[n];
        &&& !(env.key == JackSubroutineType::Function && v.segment == JackSegment::Field)
        &&& v.segment != JackSegment::Static
        &&& env.key == JackSubroutineType::Constructor
    } else {
        false
    }
}

/// An integer constant.
pub open spec fn int_code(digits: Seq<u8>) -> Result<Code, CompileError> {
    if digits.len() <= 5 && fits_i16_steps(digits) {
        Ok(seq![push_const(decimal_value(digits) as i16)])
    } else {
        Err(CompileError::IntTooBig)
    }
}

/// The characters of a string constant appended one by one.
pub open spec fn string_chars_code(b: Seq<u8>) -> Code
    decreases b.len(),
{
    if b.len() == 0 {
        seq![]
    } else {
        string_chars_code(b.drop_last()) + seq![
            push_const(b.last() as i16),
            AsmInstructionV::Call(append_char_name(), 2),
        ]
    }
}

/// A string constant: a new string of its length, then its characters.
pub open spec fn string_code(b: Seq<u8>) -> Code {
    seq![push_const(b.len() as i16), AsmInstructionV::Call(string_new_name(), 1)]
        + string_chars_code(b)
}

/// The instruction of a binary operator.
pub open spec fn op_code(op: JackSymbol) -> Option<AsmInstructionV> {
    match op {
        JackSymbol::Plus => Some(arith(AsmArithmeticInstruction::Add)),
        JackSymbol::Minus => Some(arith(AsmArithmeticInstruction::Sub)),
        JackSymbol::And => Some(arith(AsmArithmeticInstruction::And)),
        JackSymbol::Or => Some(arith(AsmArithmeticInstruction::Or)),
        JackSymbol::Eq => Some(arith(AsmArithmeticInstruction::Eq)),
        JackSymbol::Greater => Some(arith(AsmArithmeticInstruction::Gt)),
        JackSymbol::Less => Some(arith(AsmArithmeticInstruction::Lt)),
        JackSymbol::Multiply => Some(AsmInstructionV::Call(multiply_name(), 2)),
        JackSymbol::Divide => Some(AsmInstructionV::Call(divide_name(), 2)),
        _ => None,
    }
}

/// A name read as a value: its variable, or `0` for an unknown name unless
/// unknown names are refused.
pub open spec fn ident_code(env: CompileEnv, assigned: Set<Seq<u8>>, n: Seq<u8>) -> Result<
    Code,
    CompileError,
> {
    if used_before_assigned(env, assigned, n) {
        Err(CompileError::UsedBeforeAssigned)
    } else {
        match var_lookup(env, n) {
            Some(v) => Ok(seq![push_var(v)]),
            None => if env.strict {
                Err(CompileError::NotDeclared)
            } else {
                Ok(seq![push_const(0)])
            },
        }
    }
}

/// A call: the arguments' code, then `call class.name count`, the count
/// taking the object of a method as an argument.
pub open spec fn call_code(
    class: Seq<u8>,
    name: Seq<u8>,
    args: Result<Code, CompileError>,
    n: nat,
    is_method: bool,
) -> Result<Code, CompileError> {
    match args {
        Ok(c) => Ok(
            c.push(
                AsmInstructionV::Call(
                    qualified(class, name),
                    ((if is_method {
                        1int
                    } else {
                        0int
                    }) + n) as i16,
                ),
            ),
        ),
        Err(e) => Err(e),
    }
}

/// `head` before the code of a compilation that succeeds.
pub open spec fn before(head: Code, r: Result<Code, CompileError>) -> Result<Code, CompileError> {
    match r {
        Ok(c) => Ok(head + c),
        Err(e) => Err(e),
    }
}

/// The code of a term.
pub open spec fn term_code(env: CompileEnv, assigned: Set<Seq<u8>>, t: JackTerm) -> Result<
    Code,
    CompileError,
>
    decreases t, 0int,
{
    match t.payload {
        JackTermPayload::Int(i) => int_code(i.0@),
        JackTermPayload::String(s) => Ok(string_code(s.0@)),
        JackTermPayload::Const(JackConstantTerm::This) => Ok(seq![push_this()]),
        JackTermPayload::Const(JackConstantTerm::True) => Ok(
            seq![push_const(1), arith(AsmArithmeticInstruction::Neg)],
        ),
        JackTermPayload::Const(_) => Ok(seq![push_const(0)]),
        JackTermPayload::Expression(e) => expr_code(env, assigned, *e),
        JackTermPayload::Ident(n) => ident_code(env, assigned, n.0@),
        JackTermPayload::Unary(op, t2) => match term_code(env, assigned, *t2) {
            Ok(c) => if op == JackSymbol::Not {
                Ok(c.push(arith(AsmArithmeticInstruction::Not)))
            } else if op == JackSymbol::Minus {
                Ok(c.push(arith(AsmArithmeticInstruction::Neg)))
            } else {
                Err(CompileError::UnknownUnary)
            },
            Err(e) => Err(e),
        },
        JackTermPayload::MethodCall(m, args) => before(
            seq![push_this()],
            call_code(
                env.class_name,
                m.0@,
                args_code(env, assigned, args.data@, 0, 1),
                args.data@.len(),
                true,
            ),
        ),
        JackTermPayload::FunctionCall(cn, m, args) => if used_before_assigned(
            env,
            assigned,
            cn.0@,
        ) {
            Err(CompileError::UsedBeforeAssigned)
        } else {
            match var_lookup(env, cn.0@) {
                None => call_code(
                    cn.0@,
                    m.0@,
                    args_code(env, assigned, args.data@, 0, 0),
                    args.data@.len(),
                    false,
                ),
                Some(v) => if has_class_name(v.kind) {
                    before(
                        seq![push_var(v)],
                        call_code(
                            type_class_name(v.kind),
                            m.0@,
                            args_code(env, assigned, args.data@, 0, 1),
                            args.data@.len(),
                            true,
                        ),
                    )
                } else {
                    Err(CompileError::NoClassName)
                },
            }
        },
        JackTermPayload::ArrayElem(n, e) => if used_before_assigned(env, assigned, n.0@) {
            Err(CompileError::UsedBeforeAssigned)
        } else {
            match var_lookup(env, n.0@) {
                None => Err(CompileError::UnknownArray),
                Some(v) => if v.kind == JackTypeV::Basic(JackBasicType::Arr) {
                    match expr_code(env, assigned, *e) {
                        Ok(c) => Ok(
                            seq![push_var(v)] + c + seq![
                                arith(AsmArithmeticInstruction::Add),
                                pop_that_pointer(),
                                push_that(),
                            ],
                        ),
                        Err(x) => Err(x),
                    }
                } else {
                    Err(CompileError::NotAnArray)
                },
            }
        },
    }
}

/// The code of an expression: its first term, then each further term
/// followed by its operator.
pub open spec fn expr_code(env: CompileEnv, assigned: Set<Seq<u8>>, e: JackExpression) -> Result<
    Code,
    CompileError,
>
    decreases e, 0int,
{
    match term_code(env, assigned, e.term) {
        Ok(c) => before(c, extra_code(env, assigned, e.extra@, 0)),
        Err(x) => Err(x),
    }
}

/// The code of the operator-term pairs of an expression from the `i`-th on.
pub open spec fn extra_code(
    env: CompileEnv,
    assigned: Set<Seq<u8>>,
    s: Seq<(JackSymbol, JackTerm)>,
    i: int,
) -> Result<Code, CompileError>
    decreases s, s.len() - i,
{
    if i < 0 || i >= s.len() {
        Ok(seq![])
    } else {
        match term_code(env, assigned, s[i].1) {
            Ok(c) => match op_code(s[i].0) {
                Some(o) => before(c.push(o), extra_code(env, assigned, s, i + 1)),
                None => Err(CompileError::UnknownOperator),
            },
            Err(x) => Err(x),
        }
    }
}

/// The code of the arguments of a call from the `i`-th on, `count` being the
/// argument count before the `i`-th.
pub open spec fn args_code(
    env: CompileEnv,
    assigned: Set<Seq<u8>>,
    s: Seq<JackExpression>,
    i: int,
    count: int,
) -> Result<Code, CompileError>
    decreases s, s.len() - i,
{
    if i < 0 || i >= s.len() {
        Ok(seq![])
    } else if count >= i16::MAX {
        Err(CompileError::TooManyArguments)
    } else {
        match expr_code(env, assigned, s[i]) {
            Ok(c) => before(c, args_code(env, assigned, s, i + 1, count + 1)),
            Err(x) => Err(x),
        }
    }
}

/// `head` before the code of a compilation of statements that succeeds.
pub open spec fn before_st(head: Code, r: Result<(Code, StateV), CompileError>) -> Result<
    (Code, StateV),
    CompileError,
> {
    match r {
        Ok((c, st)) => Ok((head + c, st)),
        Err(e) => Err(e),
    }
}

/// The code of a `let`: an array element is stored through `that`, a name
/// is popped into and counts as assigned from then on.
pub open spec fn let_code(env: CompileEnv, st: StateV, l: JackLetStatement) -> Result<
    (Code, StateV),
    CompileError,
> {
    match l.variable.payload {
        JackTermPayload::ArrayElem(n, idx) => if used_before_assigned(env, st.assigned, n.0@) {
            Err(CompileError::UsedBeforeAssigned)
        } else {
            match var_lookup(env, n.0@) {
                None => Err(CompileError::UnknownVariable),
                Some(v) => match expr_code(env, st.assigned, *idx) {
                    Ok(c1) => match expr_code(env, st.assigned, l.expression) {
                        Ok(c2) => Ok(
                            (
                                seq![push_var(v)] + c1 + seq![arith(AsmArithmeticInstruction::Add)]
                                    + c2 + seq![pop_temp(), pop_that_pointer(), push_temp(), pop_that()],
                                st,
                            ),
                        ),
                        Err(x) => Err(x),
                    },
                    Err(x) => Err(x),
                },
            }
        },
        JackTermPayload::Ident(n) => match expr_code(env, st.assigned, l.expression) {
            Ok(c) => match var_lookup(env, n.0@) {
                Some(v) => Ok(
                    (
                        c.push(pop_var(v)),
                        StateV { assigned: st.assigned.insert(n.0@), ..st },
                    ),
                ),
                None => Err(CompileError::UnknownVariable),
            },
            Err(x) => Err(x),
        },
        _ => Err(CompileError::NotAssignable),
    }
}

/// The code of a `return`: the value's code, or `push constant 0` in a
/// `void` subroutine, then `return`. Three returns are refused with an
/// error where a compiler would stop: a value from a `void` subroutine, no
/// value from any other, and a constructor's value other than `this`.
pub open spec fn return_code(env: CompileEnv, st: StateV, e: Option<JackExpression>) -> Result<
    (Code, StateV),
    CompileError,
> {
    match e {
        Some(e) => if env.kind == JackTypeV::Basic(JackBasicType::Void) {
            Err(CompileError::VoidReturnsValue)
        } else if !e.spec_is_this() && env.key == JackSubroutineType::Constructor {
            Err(CompileError::ConstructorReturnsOther)
        } else {
            match expr_code(env, st.assigned, e) {
                Ok(c) => Ok((c.push(AsmInstructionV::Return), st)),
                Err(x) => Err(x),
            }
        },
        None => if env.kind != JackTypeV::Basic(JackBasicType::Void) {
            Err(CompileError::MissingReturnValue)
        } else {
            Ok((seq![push_const(0), AsmInstructionV::Return], st))
        },
    }
}

/// The code of a statement, and the state after it.
pub open spec fn stmt_code(env: CompileEnv, st: StateV, s: JackStatement) -> Result<
    (Code, StateV),
    CompileError,
>
    decreases s, 0int,
{
    match s {
        JackStatement::Do(d) => match term_code(env, st.assigned, d.call) {
            Ok(c) => Ok((c.push(pop_temp()), st)),
            Err(x) => Err(x),
        },
        JackStatement::Return(r) => return_code(env, st, r.expression),
        JackStatement::Let(l) => let_code(env, st, l),
        JackStatement::If(i) => match term_code(env, st.assigned, i.condition) {
            Ok(c) => if st.ifs >= usize::MAX {
                Err(CompileError::TooManyLabels)
            } else {
                let n = st.ifs;
                let t = label(if_true_prefix(), env, n);
                let f = label(if_false_prefix(), env, n);
                let end = label(if_end_prefix(), env, n);
                let head = c + seq![
                    branch(AsmBranchInstructionKind::IfGoto, t),
                    branch(AsmBranchInstructionKind::Goto, f),
                    branch(AsmBranchInstructionKind::Label, t),
                ];
                match stmts_code(env, StateV { ifs: n + 1, ..st }, i.statements.0@, 0) {
                    Ok((c1, st1)) => match i.else_statements {
                        Some(es) => before_st(
                            head + c1 + seq![
                                branch(AsmBranchInstructionKind::Goto, end),
                                branch(AsmBranchInstructionKind::Label, f),
                            ],
                            match stmts_code(env, st1, es.0@, 0) {
                                Ok((c2, st2)) => Ok(
                                    (c2.push(branch(AsmBranchInstructionKind::Label, end)), st2),
                                ),
                                Err(x) => Err(x),
                            },
                        ),
                        None => Ok(
                            (head + c1.push(branch(AsmBranchInstructionKind::Label, f)), st1),
                        ),
                    },
                    Err(x) => Err(x),
                }
            },
            Err(x) => Err(x),
        },
        JackStatement::While(w) => if st.whiles >= usize::MAX {
            Err(CompileError::TooManyLabels)
        } else {
            let n = st.whiles;
            let exp = label(while_exp_prefix(), env, n);
            let end = label(while_end_prefix(), env, n);
            match term_code(env, st.assigned, w.condition) {
                Ok(c) => before_st(
                    seq![branch(AsmBranchInstructionKind::Label, exp)] + c + seq![
                        arith(AsmArithmeticInstruction::Not),
                        branch(AsmBranchInstructionKind::IfGoto, end),
                    ],
                    match stmts_code(env, StateV { whiles: n + 1, ..st }, w.statements.0@, 0) {
                        Ok((c1, st1)) => Ok(
                            (
                                c1 + seq![
                                    branch(AsmBranchInstructionKind::Goto, exp),
                                    branch(AsmBranchInstructionKind::Label, end),
                                ],
                                st1,
                            ),
                        ),
                        Err(x) => Err(x),
                    },
                ),
                Err(x) => Err(x),
            }
        },
    }
}

/// The code of the statements from the `i`-th on, and the state after them.
pub open spec fn stmts_code(
    env: CompileEnv,
    st: StateV,
    s: Seq<Box<JackStatement>>,
    i: int,
) -> Result<(Code, StateV), CompileError>
    decreases s, s.len() - i,
{
    if i < 0 || i >= s.len() {
        Ok((seq![], st))
    } else {
        match stmt_code(env, st, *s[i]) {
            Ok((c, st1)) => before_st(c, stmts_code(env, st1, s, i + 1)),
            Err(x) => Err(x),
        }
    }
}

/// The declaration of a method's object: an argument of the class's type.
pub open spec fn this_declaration(class_name: Seq<u8>) -> DeclarationV {
    DeclarationV {
        segment: JackSegment::Arg,
        kind: JackTypeV::Class(class_name),
        names: seq![this_name()],
    }
}

/// The declarations that a subroutine's table receives: a method's object
/// first, then the subroutine's own.
pub open spec fn subroutine_declarations(
    key: JackSubroutineType,
    class_name: Seq<u8>,
    vars: Seq<DeclarationV>,
) -> Seq<DeclarationV> {
    if key == JackSubroutineType::Method {
        seq![this_declaration(class_name)] + vars
    } else {
        vars
    }
}

/// The instructions that open a subroutine: its `function` line, then for a
/// method the object taken from the first argument, for a constructor a new
/// object of the class's field count.
pub open spec fn header_code(env: CompileEnv, fields: u8, locals: u8) -> Code {
    let def = AsmInstructionV::Definition(qualified(env.class_name, env.name), locals as i16);
    match env.key {
        JackSubroutineType::Method => seq![def, push_arg0(), pop_this()],
        JackSubroutineType::Function => seq![def],
        JackSubroutineType::Constructor => seq![
            def,
            push_const(fields as i16),
            AsmInstructionV::Call(alloc_name(), 1),
            pop_this(),
        ],
    }
}

/// The code of a whole subroutine.
pub open spec fn subroutine_code(
    env: CompileEnv,
    fields: u8,
    locals: u8,
    body: Seq<Box<JackStatement>>,
) -> Result<Code, CompileError> {
    match stmts_code(env, initial_state(), body, 0) {
        Ok((c, _)) => Ok(header_code(env, fields, locals) + c),
        Err(x) => Err(x),
    }
}

/// A later state has counted at least as many labels and assigned at least
/// the same names.
pub open spec fn state_grows(a: StateV, b: StateV) -> bool {
    &&& a.ifs <= b.ifs
    &&& a.whiles <= b.whiles
    &&& a.assigned.subset_of(b.assigned)
}

/// Compiling a statement never lowers a label counter nor forgets an
/// assignment.
pub proof fn lemma_stmt_state_grows(env: CompileEnv, st: StateV, s: JackStatement)
    ensures
        match stmt_code(env, st, s) {
            Ok((_, st2)) => state_grows(st, st2),
            Err(_) => true,
        },
    decreases s, 0int,
{
    match s {
        JackStatement::If(i) => {
            if term_code(env, st.assigned, i.condition) is Ok && st.ifs < usize::MAX {
                let st1 = StateV { ifs: st.ifs + 1, ..st };
                lemma_stmts_state_grows(env, st1, i.statements.0@, 0);
                match stmts_code(env, st1, i.statements.0@, 0) {
                    Ok((_, st2)) => {
                        match i.else_statements {
                            Some(es) => {
                                lemma_stmts_state_grows(env, st2, es.0@, 0);
                            },
                            None => {},
                        }
                    },
                    Err(_) => {},
                }
            }
        },
        JackStatement::While(w) => {
            if st.whiles < usize::MAX {
                let st1 = StateV { whiles: st.whiles + 1, ..st };
                lemma_stmts_state_grows(env, st1, w.statements.0@, 0);
            }
        },
        _ => {},
    }
}

/// Compiling statements never lowers a label counter nor forgets an
/// assignment.
pub proof fn lemma_stmts_state_grows(env: CompileEnv, st: StateV, s: Seq<Box<JackStatement>>, i: int)
    ensures
        match stmts_code(env, st, s, i) {
            Ok((_, st2)) => state_grows(st, st2),
            Err(_) => true,
        },
    decreases s, s.len() - i,
{
    if 0 <= i < s.len() {
        lemma_stmt_state_grows(env, st, *s[i]);
        match stmt_code(env, st, *s[i]) {
            Ok((_, st1)) => {
                lemma_stmts_state_grows(env, st1, s, i + 1);
            },
            Err(_) => {},
        }
    }
}

/// The names of the library routines and label prefixes that compiled code
/// uses, spelt out.
pub proof fn lemma_compiler_name_spellings()
    ensures
        string_new_name() == seq!['S' as u8, 't' as u8, 'r' as u8, 'i' as u8, 'n' as u8, 'g' as u8, '.' as u8, 'n' as u8, 'e' as u8, 'w' as u8],
        append_char_name() == seq!['S' as u8, 't' as u8, 'r' as u8, 'i' as u8, 'n' as u8, 'g' as u8, '.' as u8, 'a' as u8, 'p' as u8, 'p' as u8, 'e' as u8, 'n' as u8, 'd' as u8, 'C' as u8, 'h' as u8, 'a' as u8, 'r' as u8],
        multiply_name() == seq!['M' as u8, 'a' as u8, 't' as u8, 'h' as u8, '.' as u8, 'm' as u8, 'u' as u8, 'l' as u8, 't' as u8, 'i' as u8, 'p' as u8, 'l' as u8, 'y' as u8],
        divide_name() == seq!['M' as u8, 'a' as u8, 't' as u8, 'h' as u8, '.' as u8, 'd' as u8, 'i' as u8, 'v' as u8, 'i' as u8, 'd' as u8, 'e' as u8],
        alloc_name() == seq!['M' as u8, 'e' as u8, 'm' as u8, 'o' as u8, 'r' as u8, 'y' as u8, '.' as u8, 'a' as u8, 'l' as u8, 'l' as u8, 'o' as u8, 'c' as u8],
        if_true_prefix() == seq!['I' as u8, 'F' as u8, '_' as u8, 'T' as u8, 'R' as u8, 'U' as u8, 'E' as u8, '_' as u8],
        if_false_prefix() == seq!['I' as u8, 'F' as u8, '_' as u8, 'F' as u8, 'A' as u8, 'L' as u8, 'S' as u8, 'E' as u8, '_' as u8],
        if_end_prefix() == seq!['I' as u8, 'F' as u8, '_' as u8, 'E' as u8, 'N' as u8, 'D' as u8, '_' as u8],
        while_exp_prefix() == seq!['W' as u8, 'H' as u8, 'I' as u8, 'L' as u8, 'E' as u8, '_' as u8, 'E' as u8, 'X' as u8, 'P' as u8, '_' as u8],
        while_end_prefix() == seq!['W' as u8, 'H' as u8, 'I' as u8, 'L' as u8, 'E' as u8, '_' as u8, 'E' as u8, 'N' as u8, 'D' as u8, '_' as u8],
        this_name() == seq!['_' as u8, '_' as u8, 'C' as u8, 'L' as u8, 'A' as u8, 'S' as u8, 'S' as u8, '_' as u8, 'N' as u8, 'A' as u8, 'M' as u8, 'E' as u8, '_' as u8, '_' as u8],
{
}

} // verus!

use std::collections::VecDeque;

use vstd::prelude::*;

use crate::gramar::ast::{
    JackConstantTerm, JackExpression, JackExpressions, JackLetStatement, JackStatement,
    JackStatements, JackSubroutine, JackTerm, JackTermPayload,
};
use crate::gramar::units::segments::JackSegment;
use crate::gramar::units::subroutins_types::JackSubroutineType;
use crate::gramar::units::types::{has_class_name, JackBasicType, JackType};
use crate::gramar::units::var_name::JackVariableName;
use crate::tokens::JackSymbol;
use crate::util::{push_all, push_digits};
use crate::vm::instructions::{
    AsmArithmeticInstruction, AsmBranchInstruction, AsmBranchInstructionKind,
    AsmFunctionInstruction, AsmInstructionPayload, AsmInstructionV, AsmMemoryInstruction,
    AsmMemoryInstructionKind, AsmMemoryInstructionSegment, FunctionMetadata,
};

use super::class::JackClassCompilerContext;
use super::code::{
    alloc_name, append_char_name, args_code, arith, before, before_st, branch, call_code,
    divide_name, expr_code, extra_code, header_code, ident_code, memory, multiply_name, op_code,
    pop_that_pointer, push_const, push_that, push_this, string_chars_code, string_code,
    string_new_name, term_code, used_before_assigned, var_lookup, Code, CompileEnv, CompileError,
    StateV, initial_state, qualified,
};
use super::vars::{JackTableNames, JackVariable, JackVariableV};

verus! {

/// The views of a sequence of instructions.
pub open spec fn views(s: Seq<AsmInstructionPayload>) -> Seq<AsmInstructionV> {
    s.map_values(|p: AsmInstructionPayload| p@)
}

/// A compilation step kept its promise: where the code exists it was
/// appended, and where it does not the step failed with its error.
pub open spec fn emitted(
    r: Result<(), CompileError>,
    code: Result<Code, CompileError>,
    before: Seq<AsmInstructionPayload>,
    after: Seq<AsmInstructionPayload>,
) -> bool {
    match code {
        Ok(c) => r is Ok && views(after) == views(before) + c,
        Err(e) => r == Err::<(), CompileError>(e),
    }
}

/// As `emitted`, for a step that also carries the statement state.
pub open spec fn emitted_st(
    r: Result<(), CompileError>,
    code: Result<(Code, StateV), CompileError>,
    before: Seq<AsmInstructionPayload>,
    after: Seq<AsmInstructionPayload>,
    st: StateV,
) -> bool {
    match code {
        Ok((c, s)) => r is Ok && views(after) == views(before) + c && st == s,
        Err(e) => r == Err::<(), CompileError>(e),
    }
}

pub proof fn lemma_before_assoc(a: Code, b: Code, r: Result<Code, CompileError>)
    ensures
        before(a, before(b, r)) == before(a + b, r),
{
    if r is Ok {
        assert(a + (b + r->Ok_0) =~= (a + b) + r->Ok_0);
    }
}

pub proof fn lemma_before_st_assoc(a: Code, b: Code, r: Result<(Code, StateV), CompileError>)
    ensures
        before_st(a, before_st(b, r)) == before_st(a + b, r),
{
    if r is Ok {
        assert(a + (b + r->Ok_0.0) =~= (a + b) + r->Ok_0.0);
    }
}

/// The label counters and the names assigned so far.
pub struct CompileState {
    pub if_counter: usize,
    pub while_counter: usize,
    pub assignments: Vec<Vec<u8>>,
}

/// The names that a list holds.
pub open spec fn names_set(s: Seq<Vec<u8>>) -> Set<Seq<u8>> {
    Set::new(|n: Seq<u8>| exists|j: int| 0 <= j < s.len() && #[trigger] s[j]@ == n)
}

impl View for CompileState {
    type V = StateV;

    open spec fn view(&self) -> StateV {
        StateV {
            ifs: self.if_counter as nat,
            whiles: self.while_counter as nat,
            assigned: names_set(self.assignments@),
        }
    }
}

impl CompileState {
    pub fn new() -> (r: Self)
        ensures
            r@ == initial_state(),
    {
        let r = CompileState { if_counter: 0, while_counter: 0, assignments: Vec::new() };
        assert(r@.assigned =~= Set::<Seq<u8>>::empty());
        r
    }

    /// Whether a `let` assigned the name.
    pub fn is_assigned(&self, name: &[u8]) -> (r: bool)
        ensures
            r == self@.assigned.contains(name@),
    {
        let mut i: usize = 0;
        while i < self.assignments.len()
            invariant
                i <= self.assignments@.len(),
                forall|j: int| 0 <= j < i ==> #[trigger] self.assignments@[j]@ != name@,
            decreases self.assignments@.len() - i,
        {
            if crate::util::bytes_equal(self.assignments[i].as_slice(), name) {
                assert(self.assignments@[i as int]@ == name@);
                return true;
            }
            i = i + 1;
        }
        false
    }

    /// Counts the name as assigned.
    pub fn assign(&mut self, name: &[u8])
        ensures
            final(self)@ == (StateV { assigned: old(self)@.assigned.insert(name@), ..old(self)@ }),
    {
        let mut v: Vec<u8> = Vec::new();
        push_all(&mut v, name);
        let ghost before = self.assignments@;
        self.assignments.push(v);
        proof {
            assert forall|n: Seq<u8>| #[trigger]
                names_set(self.assignments@).contains(n) == names_set(before).insert(
                    name@,
                ).contains(n) by {
                if names_set(before).contains(n) {
                    let j = choose|j: int| 0 <= j < before.len() && #[trigger] before[j]@ == n;
                    assert(self.assignments@[j]@ == n);
                }
                if n == name@ {
                    assert(self.assignments@[before.len() as int]@ == n);
                }
                if names_set(self.assignments@).contains(n) {
                    let j = choose|j: int|
                        0 <= j < self.assignments@.len() && #[trigger] self.assignments@[j]@ == n;
                    if j < before.len() {
                        assert(before[j]@ == n);
                    }
                }
            }
            assert(names_set(self.assignments@) =~= names_set(before).insert(name@));
        }
    }
}

/// A copy of a byte string.
pub(crate) fn bytes(b: &[u8]) -> (r: Vec<u8>)
    ensures
        r@ == b@,
{
    let mut v: Vec<u8> = Vec::new();
    push_all(&mut v, b);
    v
}

pub(crate) fn emit(out: &mut VecDeque<AsmInstructionPayload>, p: AsmInstructionPayload)
    ensures
        views(final(out)@) == views(old(out)@).push(p@),
        views(final(out)@) == views(old(out)@) + seq![p@],
{
    out.push_back(p);
    assert(views(final(out)@) =~= views(old(out)@).push(p@));
    assert(views(final(out)@) =~= views(old(out)@) + seq![p@]);
}

pub(crate) fn memory_asm(
    segment: AsmMemoryInstructionSegment,
    kind: AsmMemoryInstructionKind,
    val: i16,
) -> (r: AsmInstructionPayload)
    ensures
        r@ == memory(segment, kind, val),
{
    AsmInstructionPayload::Memory(AsmMemoryInstruction { segment, kind, val })
}

pub(crate) fn const_asm(val: i16) -> (r: AsmInstructionPayload)
    ensures
        r@ == push_const(val),
{
    memory_asm(AsmMemoryInstructionSegment::Const, AsmMemoryInstructionKind::Push, val)
}

pub(crate) fn arith_asm(a: AsmArithmeticInstruction) -> (r: AsmInstructionPayload)
    ensures
        r@ == arith(a),
{
    AsmInstructionPayload::Arithmetic(a)
}

pub(crate) fn call_asm(name: Vec<u8>, args_count: i16) -> (r: AsmInstructionPayload)
    ensures
        r@ == AsmInstructionV::Call(name@, args_count),
{
    AsmInstructionPayload::Function(
        AsmFunctionInstruction::Call(FunctionMetadata { name, args_count }),
    )
}

pub(crate) fn branch_asm(kind: AsmBranchInstructionKind, name: Vec<u8>) -> (r: AsmInstructionPayload)
    ensures
        r@ == branch(kind, name@),
{
    AsmInstructionPayload::Branch(AsmBranchInstruction { kind, name })
}

/// The variable of an optional reference, by its view.
pub open spec fn var_view(o: Option<&JackVariable>) -> Option<JackVariableV> {
    match o {
        Some(v) => Some(v@),
        None => None,
    }
}

/// What the compilation of one subroutine reads.
pub struct Emitter<'b> {
    pub class: &'b JackClassCompilerContext,
    pub vars: &'b JackTableNames,
    pub sub: &'b JackSubroutine,
    pub skip_vars_check: bool,
    pub is_strict: bool,
}

impl<'b> Emitter<'b> {
    pub open spec fn env(&self) -> CompileEnv {
        CompileEnv {
            class_name: self.class@.name,
            class_vars: self.class@.vars.vars,
            locals: self.vars@.vars,
            key: self.sub.key,
            kind: self.sub.kind@,
            name: self.sub.name.0@,
            skip: self.skip_vars_check,
            strict: self.is_strict,
        }
    }

    /// The variable that a name reads; a read before assignment fails unless
    /// `skip_checks`.
    pub(crate) fn get(&self, st: &CompileState, name: &JackVariableName, skip_checks: bool) -> (r: Result<
        Option<&JackVariable>,
        CompileError,
    >)
        ensures
            if !skip_checks && used_before_assigned(self.env(), st@.assigned, name.0@) {
                r == Err::<Option<&JackVariable>, CompileError>(CompileError::UsedBeforeAssigned)
            } else {
                r matches Ok(o) && var_view(o) == var_lookup(self.env(), name.0@)
            },
    {
        match self.vars.get(name) {
            Some(var) => {
                if var.segment != JackSegment::Arg && !st.is_assigned(name.0.as_slice())
                    && !skip_checks && !self.skip_vars_check {
                    return Err(CompileError::UsedBeforeAssigned);
                }
                return Ok(Some(var));
            },
            None => {},
        }
        match self.class.vars.get(name) {
            Some(var) => {
                if self.sub.key == JackSubroutineType::Function && var.segment
                    == JackSegment::Field {
                    return Ok(None);
                }
                if var.segment != JackSegment::Static && self.sub.key
                    == JackSubroutineType::Constructor && !st.is_assigned(name.0.as_slice())
                    && !skip_checks && !self.skip_vars_check {
                    return Err(CompileError::UsedBeforeAssigned);
                }
                Ok(Some(var))
            },
            None => Ok(None),
        }
    }

    /// The `function` line and what opens the subroutine's kind.
    pub fn compile_function_header(&self, out: &mut VecDeque<AsmInstructionPayload>)
        ensures
            views(final(out)@) == views(old(out)@) + header_code(
                self.env(),
                self.class@.vars.field,
                self.vars@.lcl,
            ),
    {
        let mut full_function_name: Vec<u8> = Vec::new();
        push_all(&mut full_function_name, self.class.class().0.as_slice());
        full_function_name.push(46);
        push_all(&mut full_function_name, self.sub.name.0.as_slice());
        assert(full_function_name@ =~= qualified(self.env().class_name, self.env().name));
        let instr = AsmInstructionPayload::Function(
            AsmFunctionInstruction::Definition(
                FunctionMetadata {
                    name: full_function_name,
                    args_count: self.vars.local() as i16,
                },
            ),
        );
        let ghost o = views(old(out)@);
        match self.sub.key {
            JackSubroutineType::Method => {
                emit(out, instr);
                emit(out, memory_asm(AsmMemoryInstructionSegment::Arg, AsmMemoryInstructionKind::Push, 0));
                emit(out, memory_asm(AsmMemoryInstructionSegment::Pointer, AsmMemoryInstructionKind::Pop, 0));
            },
            JackSubroutineType::Function => {
                emit(out, instr);
            },
            JackSubroutineType::Constructor => {
                emit(out, instr);
                emit(out, const_asm(self.class.vars.fields() as i16));
                let alloc = bytes(&[77u8, 101u8, 109u8, 111u8, 114u8, 121u8, 46u8, 97u8, 108u8, 108u8, 111u8, 99u8]);
                assert(alloc@ =~= alloc_name());
                emit(out, call_asm(alloc, 1));
                emit(out, memory_asm(AsmMemoryInstructionSegment::Pointer, AsmMemoryInstructionKind::Pop, 0));
            },
        }
        assert(views(final(out)@) =~= o + header_code(self.env(), self.class@.vars.field, self.vars@.lcl));
    }

    /// A binary operator's instruction.
    fn compile_op(out: &mut VecDeque<AsmInstructionPayload>, op: &JackSymbol) -> (r: Result<
        (),
        CompileError,
    >)
        ensures
            match op_code(*op) {
                Some(o) => r is Ok && views(final(out)@) == views(old(out)@).push(o),
                None => r == Err::<(), CompileError>(CompileError::UnknownOperator),
            },
    {
        let instr = match op {
            JackSymbol::Plus => arith_asm(AsmArithmeticInstruction::Add),
            JackSymbol::Minus => arith_asm(AsmArithmeticInstruction::Sub),
            JackSymbol::And => arith_asm(AsmArithmeticInstruction::And),
            JackSymbol::Or => arith_asm(AsmArithmeticInstruction::Or),
            JackSymbol::Eq => arith_asm(AsmArithmeticInstruction::Eq),
            JackSymbol::Greater => arith_asm(AsmArithmeticInstruction::Gt),
            JackSymbol::Less => arith_asm(AsmArithmeticInstruction::Lt),
            JackSymbol::Multiply => {
                let n = bytes(&[77u8, 97u8, 116u8, 104u8, 46u8, 109u8, 117u8, 108u8, 116u8, 105u8, 112u8, 108u8, 121u8]);
                assert(n@ =~= multiply_name());
                call_asm(n, 2)
            },
            JackSymbol::Divide => {
                let n = bytes(&[77u8, 97u8, 116u8, 104u8, 46u8, 100u8, 105u8, 118u8, 105u8, 100u8, 101u8]);
                assert(n@ =~= divide_name());
                call_asm(n, 2)
            },
            _ => {
                return Err(CompileError::UnknownOperator);
            },
        };
        emit(out, instr);
        Ok(())
    }

    /// A string constant.
    fn compile_string(out: &mut VecDeque<AsmInstructionPayload>, s: &Vec<u8>)
        ensures
            views(final(out)@) == views(old(out)@) + string_code(s@),
    {
        let size = s.len();
        emit(out, const_asm(size as i16));
        let new_name = bytes(&[83u8, 116u8, 114u8, 105u8, 110u8, 103u8, 46u8, 110u8, 101u8, 119u8]);
        assert(new_name@ =~= string_new_name());
        emit(out, call_asm(new_name, 1));
        let ghost head = views(old(out)@) + seq![push_const(size as i16), AsmInstructionV::Call(string_new_name(), 1)];
        assert(views(out@) =~= head);
        let mut i: usize = 0;
        while i < size
            invariant
                size == s@.len(),
                i <= size,
                views(out@) == head + string_chars_code(s@.subrange(0, i as int)),
            decreases size - i,
        {
            emit(out, const_asm(s[i] as i16));
            let append = bytes(&[
                83u8, 116u8, 114u8, 105u8, 110u8, 103u8, 46u8, 97u8, 112u8, 112u8, 101u8, 110u8, 100u8,
                67u8, 104u8, 97u8, 114u8,
            ]);
            assert(append@ =~= append_char_name());
            emit(out, call_asm(append, 2));
            proof {
                let b = s@.subrange(0, i + 1);
                assert(b.drop_last() =~= s@.subrange(0, i as int));
                assert(views(out@) =~= head + string_chars_code(b));
            }
            i = i + 1;
        }
        assert(s@.subrange(0, size as int) =~= s@);
        assert(views(out@) =~= views(old(out)@) + string_code(s@));
    }

    /// A name read as a value.
    fn push_variable(
        &self,
        st: &CompileState,
        out: &mut VecDeque<AsmInstructionPayload>,
        ident: &JackVariableName,
    ) -> (r: Result<(), CompileError>)
        ensures
            emitted(r, ident_code(self.env(), st@.assigned, ident.0@), old(out)@, final(out)@),
    {
        match self.get(st, ident, false) {
            Err(e) => Err(e),
            Ok(None) => {
                if self.is_strict {
                    return Err(CompileError::NotDeclared);
                }
                emit(out, const_asm(0));
                Ok(())
            },
            Ok(Some(v)) => {
                emit(out, v.as_asm());
                Ok(())
            },
        }
    }

    /// A term.
    #[verifier::rlimit(50)]
    pub fn compile_term(
        &self,
        st: &CompileState,
        out: &mut VecDeque<AsmInstructionPayload>,
        term: &JackTerm,
    ) -> (r: Result<(), CompileError>)
        ensures
            emitted(r, term_code(self.env(), st@.assigned, *term), old(out)@, final(out)@),
        decreases *term, 0int,
    {
        let ghost o = old(out)@;
        match &term.payload {
            JackTermPayload::Int(integer) => {
                match integer.checked_to_int() {
                    Some(v) => {
                        emit(out, const_asm(v));
                        Ok(())
                    },
                    None => Err(CompileError::IntTooBig),
                }
            },
            JackTermPayload::String(string) => {
                Self::compile_string(out, &string.0);
                Ok(())
            },
            JackTermPayload::Const(JackConstantTerm::This) => {
                emit(out, memory_asm(AsmMemoryInstructionSegment::Pointer, AsmMemoryInstructionKind::Push, 0));
                Ok(())
            },
            JackTermPayload::Const(JackConstantTerm::True) => {
                emit(out, const_asm(1));
                emit(out, arith_asm(AsmArithmeticInstruction::Neg));
                assert(views(out@) =~= views(o) + seq![push_const(1), arith(AsmArithmeticInstruction::Neg)]);
                Ok(())
            },
            JackTermPayload::Const(_) => {
                emit(out, const_asm(0));
                Ok(())
            },
            JackTermPayload::Expression(expr) => self.compile_expression(st, out, expr),
            JackTermPayload::Ident(ident) => self.push_variable(st, out, ident),
            JackTermPayload::Unary(op, t) => {
                match self.compile_term(st, out, t) {
                    Err(e) => {
                        return Err(e);
                    },
                    Ok(()) => {},
                }
                match op {
                    JackSymbol::Not => {
                        emit(out, arith_asm(AsmArithmeticInstruction::Not));
                        Ok(())
                    },
                    JackSymbol::Minus => {
                        emit(out, arith_asm(AsmArithmeticInstruction::Neg));
                        Ok(())
                    },
                    _ => Err(CompileError::UnknownUnary),
                }
            },
            JackTermPayload::MethodCall(method_name, expressions) => {
                emit(out, memory_asm(AsmMemoryInstructionSegment::Pointer, AsmMemoryInstructionKind::Push, 0));
                let ghost mid = out@;
                let r = self.call_function(
                    st,
                    out,
                    self.class.class().0.as_slice(),
                    method_name,
                    expressions,
                    true,
                );
                proof {
                    let cc = call_code(
                        self.env().class_name,
                        method_name.0@,
                        args_code(self.env(), st@.assigned, expressions.data@, 0, 1),
                        expressions.data@.len(),
                        true,
                    );
                    if cc is Ok {
                        assert(views(out@) =~= views(o) + (seq![push_this()] + cc->Ok_0));
                    }
                }
                r
            },
            JackTermPayload::FunctionCall(class_name, method_name, expressions) => {
                match self.get(st, class_name, false) {
                    Err(e) => Err(e),
                    Ok(None) => self.call_function(
                        st,
                        out,
                        class_name.0.as_slice(),
                        method_name,
                        expressions,
                        false,
                    ),
                    Ok(Some(var)) => {
                        if !var.kind.has_class() {
                            return Err(CompileError::NoClassName);
                        }
                        emit(out, var.as_asm());
                        let r = self.call_function(
                            st,
                            out,
                            var.kind.as_slice(),
                            method_name,
                            expressions,
                            true,
                        );
                        proof {
                            let cc = call_code(
                                crate::gramar::units::types::type_class_name(var.kind@),
                                method_name.0@,
                                args_code(self.env(), st@.assigned, expressions.data@, 0, 1),
                                expressions.data@.len(),
                                true,
                            );
                            if cc is Ok {
                                assert(views(out@) =~= views(o) + (seq![
                                    super::vars::push_var(var@),
                                ] + cc->Ok_0));
                            }
                        }
                        r
                    },
                }
            },
            JackTermPayload::ArrayElem(ident, expr) => {
                match self.get(st, ident, false) {
                    Err(e) => Err(e),
                    Ok(None) => Err(CompileError::UnknownArray),
                    Ok(Some(v)) => {
                        if !v.kind.is_array() {
                            return Err(CompileError::NotAnArray);
                        }
                        emit(out, v.as_asm());
                        match self.compile_expression(st, out, expr) {
                            Err(e) => {
                                return Err(e);
                            },
                            Ok(()) => {},
                        }
                        emit(out, arith_asm(AsmArithmeticInstruction::Add));
                        emit(out, memory_asm(AsmMemoryInstructionSegment::Pointer, AsmMemoryInstructionKind::Pop, 1));
                        emit(out, memory_asm(AsmMemoryInstructionSegment::That, AsmMemoryInstructionKind::Push, 0));
                        proof {
                            let c = expr_code(self.env(), st@.assigned, **expr)->Ok_0;
                            assert(views(out@) =~= views(o) + (seq![super::vars::push_var(v@)] + c + seq![
                                arith(AsmArithmeticInstruction::Add),
                                pop_that_pointer(),
                                push_that(),
                            ]));
                        }
                        Ok(())
                    },
                }
            },
        }
    }

    /// A call: its arguments, then `call class.name count`.
    fn call_function(
        &self,
        st: &CompileState,
        out: &mut VecDeque<AsmInstructionPayload>,
        class_name: &[u8],
        function_name: &JackVariableName,
        expressions: &JackExpressions,
        is_method: bool,
    ) -> (r: Result<(), CompileError>)
        ensures
            emitted(
                r,
                call_code(
                    class_name@,
                    function_name.0@,
                    args_code(
                        self.env(),
                        st@.assigned,
                        expressions.data@,
                        0,
                        if is_method {
                            1int
                        } else {
                            0int
                        },
                    ),
                    expressions.data@.len(),
                    is_method,
                ),
                old(out)@,
                final(out)@,
            ),
        decreases expressions.data@, expressions.data@.len() + 1,
    {
        let ghost env = self.env();
        let ghost s = expressions.data@;
        let ghost m: int = if is_method {
            1int
        } else {
            0int
        };
        let mut args_count: i16 = if is_method {
            1
        } else {
            0
        };
        let n = expressions.data.len();
        let ghost mut produced: Code = seq![];
        let mut i: usize = 0;
        while i < n
            invariant
                n == s.len(),
                s == expressions.data@,
                env == self.env(),
                m == (if is_method {
                    1int
                } else {
                    0int
                }),
                i <= n,
                args_count == m + i,
                views(out@) == views(old(out)@) + produced,
                args_code(env, st@.assigned, s, 0, m) == before(
                    produced,
                    args_code(env, st@.assigned, s, i as int, m + i),
                ),
            decreases n - i,
        {
            if args_count == 32767 {
                assert(args_code(env, st@.assigned, s, i as int, m + i) == Err::<Code, CompileError>(
                    CompileError::TooManyArguments,
                ));
                assert(args_code(env, st@.assigned, s, 0, m) == Err::<Code, CompileError>(
                    CompileError::TooManyArguments,
                ));
                return Err(CompileError::TooManyArguments);
            }
            args_count = args_count + 1;
            let ghost mid = out@;
            match self.compile_expression(st, out, &expressions.data[i]) {
                Err(e) => {
                    assert(args_code(env, st@.assigned, s, i as int, m + i) == Err::<Code, CompileError>(e));
                    assert(args_code(env, st@.assigned, s, 0, m) == Err::<Code, CompileError>(e));
                    return Err(e);
                },
                Ok(()) => {},
            }
            proof {
                let c = expr_code(env, st@.assigned, s[i as int]);
                lemma_before_assoc(produced, c->Ok_0, args_code(env, st@.assigned, s, i + 1, m + i + 1));
                produced = produced + c->Ok_0;
            }
            i = i + 1;
        }
        let mut full_function_name: Vec<u8> = Vec::new();
        push_all(&mut full_function_name, class_name);
        full_function_name.push(46);
        push_all(&mut full_function_name, function_name.0.as_slice());
        assert(full_function_name@ =~= qualified(class_name@, function_name.0@));
        emit(out, call_asm(full_function_name, args_count));
        assert(produced + seq![] =~= produced);
        Ok(())
    }

    /// An expression: its first term, then each further term and its
    /// operator.
    pub fn compile_expression(
        &self,
        st: &CompileState,
        out: &mut VecDeque<AsmInstructionPayload>,
        expression: &JackExpression,
    ) -> (r: Result<(), CompileError>)
        ensures
            emitted(r, expr_code(self.env(), st@.assigned, *expression), old(out)@, final(out)@),
        decreases *expression, 0int,
    {
        let ghost env = self.env();
        let ghost s = expression.extra@;
        match self.compile_term(st, out, &expression.term) {
            Err(e) => {
                return Err(e);
            },
            Ok(()) => {},
        }
        let ghost mut produced: Code = term_code(env, st@.assigned, expression.term)->Ok_0;
        let n = expression.extra.len();
        let mut i: usize = 0;
        while i < n
            invariant
                n == s.len(),
                s == expression.extra@,
                env == self.env(),
                i <= n,
                term_code(env, st@.assigned, expression.term) is Ok,
                views(out@) == views(old(out)@) + produced,
                expr_code(env, st@.assigned, *expression) == before(
                    produced,
                    extra_code(env, st@.assigned, s, i as int),
                ),
            decreases n - i,
        {
            match self.compile_term(st, out, &expression.extra[i].1) {
                Err(e) => {
                    return Err(e);
                },
                Ok(()) => {},
            }
            let ghost mid = out@;
            match Self::compile_op(out, &expression.extra[i].0) {
                Err(e) => {
                    return Err(e);
                },
                Ok(()) => {},
            }
            proof {
                let c = term_code(env, st@.assigned, s[i as int].1)->Ok_0;
                let o = op_code(s[i as int].0)->Some_0;
                lemma_before_assoc(produced, c.push(o), extra_code(env, st@.assigned, s, i + 1));
                produced = produced + c.push(o);
                assert(views(out@) =~= views(old(out)@) + produced);
            }
            i = i + 1;
        }
        assert(produced + seq![] =~= produced);
        Ok(())
    }
}

} // verus!

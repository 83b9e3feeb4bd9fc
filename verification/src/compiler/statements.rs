use std::collections::VecDeque;

use vstd::prelude::*;

use crate::gramar::ast::{
    JackExpression, JackLetStatement, JackStatement, JackStatements, JackTermPayload,
};
use crate::gramar::units::subroutins_types::JackSubroutineType;
use crate::util::{nat_digits, push_all, push_digits};
use crate::vm::instructions::{
    AsmArithmeticInstruction, AsmBranchInstructionKind, AsmFunctionInstruction,
    AsmInstructionPayload, AsmInstructionV, AsmMemoryInstructionKind, AsmMemoryInstructionSegment,
};

use super::code::{
    arith, before_st, branch, expr_code, if_end_prefix, if_false_prefix, if_true_prefix, label,
    let_code, pop_temp, pop_that, pop_that_pointer, push_const, push_temp, return_code, stmt_code,
    stmts_code, term_code, while_end_prefix, while_exp_prefix, Code, CompileError, StateV,
};
use super::emit::{
    arith_asm, branch_asm, const_asm, emit, emitted, emitted_st, lemma_before_st_assoc,
    memory_asm, views, CompileState, Emitter,
};
use super::vars::{pop_var, push_var};

verus! {

impl<'b> Emitter<'b> {
    /// A label of this subroutine: `prefix`, then `class_subroutine_n`.
    pub fn label(&self, prefix: &[u8], n: usize) -> (r: Vec<u8>)
        ensures
            r@ == label(prefix@, self.env(), n as nat),
    {
        let mut v: Vec<u8> = Vec::new();
        push_all(&mut v, prefix);
        push_all(&mut v, self.class.class().0.as_slice());
        v.push(95);
        push_all(&mut v, self.sub.name.0.as_slice());
        v.push(95);
        assert(n as u64 == n);
        push_digits(&mut v, n as u64);
        assert(v@ =~= label(prefix@, self.env(), n as nat));
        v
    }

    /// A `return`.
    fn compile_return(
        &self,
        st: &CompileState,
        out: &mut VecDeque<AsmInstructionPayload>,
        e: &Option<JackExpression>,
    ) -> (r: Result<(), CompileError>)
        ensures
            emitted_st(r, return_code(self.env(), st@, *e), old(out)@, final(out)@, st@),
    {
        let ghost o = views(old(out)@);
        match e {
            Some(e) => {
                if self.sub.kind.is_void() {
                    return Err(CompileError::VoidReturnsValue);
                }
                if !e.is_this() && self.sub.key == JackSubroutineType::Constructor {
                    return Err(CompileError::ConstructorReturnsOther);
                }
                match self.compile_expression(st, out, e) {
                    Err(x) => {
                        return Err(x);
                    },
                    Ok(()) => {},
                }
                emit(out, AsmInstructionPayload::Function(AsmFunctionInstruction::Return));
                proof {
                    let c = expr_code(self.env(), st@.assigned, *e)->Ok_0;
                    assert(views(out@) =~= o + c.push(AsmInstructionV::Return));
                }
                Ok(())
            },
            None => {
                if !self.sub.kind.is_void() {
                    return Err(CompileError::MissingReturnValue);
                }
                emit(out, const_asm(0));
                emit(out, AsmInstructionPayload::Function(AsmFunctionInstruction::Return));
                assert(views(out@) =~= o + seq![push_const(0), AsmInstructionV::Return]);
                Ok(())
            },
        }
    }

    /// A `let`.
    fn compile_let(
        &self,
        st: &mut CompileState,
        out: &mut VecDeque<AsmInstructionPayload>,
        l: &JackLetStatement,
    ) -> (r: Result<(), CompileError>)
        ensures
            emitted_st(r, let_code(self.env(), old(st)@, *l), old(out)@, final(out)@, final(st)@),
    {
        let ghost o = views(old(out)@);
        let ghost env = self.env();
        match &l.variable.payload {
            JackTermPayload::ArrayElem(ident, expr) => {
                match self.get(st, ident, false) {
                    Err(e) => Err(e),
                    Ok(None) => Err(CompileError::UnknownVariable),
                    Ok(Some(var)) => {
                        emit(out, var.as_asm());
                        match self.compile_expression(st, out, expr) {
                            Err(e) => {
                                return Err(e);
                            },
                            Ok(()) => {},
                        }
                        emit(out, arith_asm(AsmArithmeticInstruction::Add));
                        match self.compile_expression(st, out, &l.expression) {
                            Err(e) => {
                                return Err(e);
                            },
                            Ok(()) => {},
                        }
                        emit(out, memory_asm(AsmMemoryInstructionSegment::Temp, AsmMemoryInstructionKind::Pop, 0));
                        emit(out, memory_asm(AsmMemoryInstructionSegment::Pointer, AsmMemoryInstructionKind::Pop, 1));
                        emit(out, memory_asm(AsmMemoryInstructionSegment::Temp, AsmMemoryInstructionKind::Push, 0));
                        emit(out, memory_asm(AsmMemoryInstructionSegment::That, AsmMemoryInstructionKind::Pop, 0));
                        proof {
                            let c1 = expr_code(env, st@.assigned, **expr)->Ok_0;
                            let c2 = expr_code(env, st@.assigned, l.expression)->Ok_0;
                            assert(views(out@) =~= o + (seq![push_var(var@)] + c1 + seq![
                                arith(AsmArithmeticInstruction::Add),
                            ] + c2 + seq![pop_temp(), pop_that_pointer(), push_temp(), pop_that()]));
                        }
                        Ok(())
                    },
                }
            },
            JackTermPayload::Ident(ident) => {
                match self.compile_expression(st, out, &l.expression) {
                    Err(e) => {
                        return Err(e);
                    },
                    Ok(()) => {},
                }
                let found = self.get(st, ident, true);
                match found {
                    Ok(Some(var)) => {
                        emit(out, var.as_assign_asm());
                        st.assign(ident.0.as_slice());
                        Ok(())
                    },
                    Ok(None) => Err(CompileError::UnknownVariable),
                    Err(e) => Err(e),
                }
            },
            _ => Err(CompileError::NotAssignable),
        }
    }

    /// A statement. A `return` that gives a value in a `void` subroutine,
    /// none in any other, or other than `this` in a constructor, is refused
    /// with `VoidReturnsValue`, `MissingReturnValue` or
    /// `ConstructorReturnsOther`.
    #[verifier::rlimit(50)]
    pub fn compile_statement(
        &self,
        st: &mut CompileState,
        out: &mut VecDeque<AsmInstructionPayload>,
        statement: &JackStatement,
    ) -> (r: Result<(), CompileError>)
        ensures
            emitted_st(
                r,
                stmt_code(self.env(), old(st)@, *statement),
                old(out)@,
                final(out)@,
                final(st)@,
            ),
        decreases *statement, 0int,
    {
        let ghost o = views(old(out)@);
        let ghost env = self.env();
        match statement {
            JackStatement::Do(do_statement) => {
                match self.compile_term(st, out, &do_statement.call) {
                    Err(e) => {
                        return Err(e);
                    },
                    Ok(()) => {},
                }
                emit(out, memory_asm(AsmMemoryInstructionSegment::Temp, AsmMemoryInstructionKind::Pop, 0));
                Ok(())
            },
            JackStatement::Return(return_statement) => self.compile_return(
                st,
                out,
                &return_statement.expression,
            ),
            JackStatement::Let(let_statement) => self.compile_let(st, out, let_statement),
            JackStatement::If(if_statement) => {
                match self.compile_term(st, out, &if_statement.condition) {
                    Err(e) => {
                        return Err(e);
                    },
                    Ok(()) => {},
                }
                if st.if_counter == usize::MAX {
                    return Err(CompileError::TooManyLabels);
                }
                let n = st.if_counter;
                let true_val = self.label(&[73u8, 70u8, 95u8, 84u8, 82u8, 85u8, 69u8, 95u8], n);
                let true_again = self.label(&[73u8, 70u8, 95u8, 84u8, 82u8, 85u8, 69u8, 95u8], n);
                let false_val = self.label(&[73u8, 70u8, 95u8, 70u8, 65u8, 76u8, 83u8, 69u8, 95u8], n);
                let false_again = self.label(&[73u8, 70u8, 95u8, 70u8, 65u8, 76u8, 83u8, 69u8, 95u8], n);
                let end_val = self.label(&[73u8, 70u8, 95u8, 69u8, 78u8, 68u8, 95u8], n);
                let end_again = self.label(&[73u8, 70u8, 95u8, 69u8, 78u8, 68u8, 95u8], n);
                proof {
                    assert(seq![73u8, 70u8, 95u8, 84u8, 82u8, 85u8, 69u8, 95u8] =~= if_true_prefix());
                    assert(seq![73u8, 70u8, 95u8, 70u8, 65u8, 76u8, 83u8, 69u8, 95u8] =~= if_false_prefix());
                    assert(seq![73u8, 70u8, 95u8, 69u8, 78u8, 68u8, 95u8] =~= if_end_prefix());
                }
                st.if_counter = n + 1;
                emit(out, branch_asm(AsmBranchInstructionKind::IfGoto, true_val));
                emit(out, branch_asm(AsmBranchInstructionKind::Goto, false_val));
                emit(out, branch_asm(AsmBranchInstructionKind::Label, true_again));
                let ghost c = term_code(env, old(st)@.assigned, if_statement.condition)->Ok_0;
                let ghost t = label(if_true_prefix(), env, n as nat);
                let ghost f = label(if_false_prefix(), env, n as nat);
                let ghost end = label(if_end_prefix(), env, n as nat);
                let ghost head = c + seq![
                    branch(AsmBranchInstructionKind::IfGoto, t),
                    branch(AsmBranchInstructionKind::Goto, f),
                    branch(AsmBranchInstructionKind::Label, t),
                ];
                assert(views(out@) =~= o + head);
                let ghost st1 = st@;
                assert(st1 == StateV { ifs: (n + 1) as nat, ..old(st)@ });
                match self.compile_statements(st, out, &if_statement.statements) {
                    Err(e) => {
                        return Err(e);
                    },
                    Ok(()) => {},
                }
                let ghost c1 = stmts_code(env, st1, if_statement.statements.0@, 0)->Ok_0.0;
                match &if_statement.else_statements {
                    Some(statements) => {
                        emit(out, branch_asm(AsmBranchInstructionKind::Goto, end_val));
                        emit(out, branch_asm(AsmBranchInstructionKind::Label, false_again));
                        let ghost st2 = st@;
                        match self.compile_statements(st, out, statements) {
                            Err(e) => {
                                return Err(e);
                            },
                            Ok(()) => {},
                        }
                        emit(out, branch_asm(AsmBranchInstructionKind::Label, end_again));
                        proof {
                            let c2 = stmts_code(env, st2, statements.0@, 0)->Ok_0.0;
                            assert(views(out@) =~= o + (head + c1 + seq![
                                branch(AsmBranchInstructionKind::Goto, end),
                                branch(AsmBranchInstructionKind::Label, f),
                            ] + c2.push(branch(AsmBranchInstructionKind::Label, end))));
                        }
                        Ok(())
                    },
                    None => {
                        emit(out, branch_asm(AsmBranchInstructionKind::Label, false_again));
                        assert(views(out@) =~= o + (head + c1.push(
                            branch(AsmBranchInstructionKind::Label, f),
                        )));
                        Ok(())
                    },
                }
            },
            JackStatement::While(while_statement) => {
                if st.while_counter == usize::MAX {
                    return Err(CompileError::TooManyLabels);
                }
                let n = st.while_counter;
                let exp_val = self.label(&[87u8, 72u8, 73u8, 76u8, 69u8, 95u8, 69u8, 88u8, 80u8, 95u8], n);
                let exp_again = self.label(&[87u8, 72u8, 73u8, 76u8, 69u8, 95u8, 69u8, 88u8, 80u8, 95u8], n);
                let end_val = self.label(&[87u8, 72u8, 73u8, 76u8, 69u8, 95u8, 69u8, 78u8, 68u8, 95u8], n);
                let end_again = self.label(&[87u8, 72u8, 73u8, 76u8, 69u8, 95u8, 69u8, 78u8, 68u8, 95u8], n);
                proof {
                    assert(seq![87u8, 72u8, 73u8, 76u8, 69u8, 95u8, 69u8, 88u8, 80u8, 95u8] =~= while_exp_prefix());
                    assert(seq![87u8, 72u8, 73u8, 76u8, 69u8, 95u8, 69u8, 78u8, 68u8, 95u8] =~= while_end_prefix());
                }
                st.while_counter = n + 1;
                emit(out, branch_asm(AsmBranchInstructionKind::Label, exp_val));
                match self.compile_term(st, out, &while_statement.condition) {
                    Err(e) => {
                        return Err(e);
                    },
                    Ok(()) => {},
                }
                emit(out, arith_asm(AsmArithmeticInstruction::Not));
                emit(out, branch_asm(AsmBranchInstructionKind::IfGoto, end_val));
                let ghost exp = label(while_exp_prefix(), env, n as nat);
                let ghost end = label(while_end_prefix(), env, n as nat);
                let ghost c = term_code(env, old(st)@.assigned, while_statement.condition)->Ok_0;
                let ghost head = seq![branch(AsmBranchInstructionKind::Label, exp)] + c + seq![
                    arith(AsmArithmeticInstruction::Not),
                    branch(AsmBranchInstructionKind::IfGoto, end),
                ];
                assert(views(out@) =~= o + head);
                let ghost st1 = st@;
                assert(st1 == StateV { whiles: (n + 1) as nat, ..old(st)@ });
                match self.compile_statements(st, out, &while_statement.statements) {
                    Err(e) => {
                        return Err(e);
                    },
                    Ok(()) => {},
                }
                emit(out, branch_asm(AsmBranchInstructionKind::Goto, exp_again));
                emit(out, branch_asm(AsmBranchInstructionKind::Label, end_again));
                proof {
                    let c1 = stmts_code(env, st1, while_statement.statements.0@, 0)->Ok_0.0;
                    assert(views(out@) =~= o + (head + (c1 + seq![
                        branch(AsmBranchInstructionKind::Goto, exp),
                        branch(AsmBranchInstructionKind::Label, end),
                    ])));
                }
                Ok(())
            },
        }
    }

    /// Statements in order.
    pub fn compile_statements(
        &self,
        st: &mut CompileState,
        out: &mut VecDeque<AsmInstructionPayload>,
        statements: &JackStatements,
    ) -> (r: Result<(), CompileError>)
        ensures
            emitted_st(
                r,
                stmts_code(self.env(), old(st)@, statements.0@, 0),
                old(out)@,
                final(out)@,
                final(st)@,
            ),
        decreases statements.0@, statements.0@.len() + 1,
    {
        let ghost env = self.env();
        let ghost s = statements.0@;
        let ghost mut produced: Code = seq![];
        let n = statements.0.len();
        let mut i: usize = 0;
        while i < n
            invariant
                n == s.len(),
                s == statements.0@,
                env == self.env(),
                i <= n,
                views(out@) == views(old(out)@) + produced,
                stmts_code(env, old(st)@, s, 0) == before_st(
                    produced,
                    stmts_code(env, st@, s, i as int),
                ),
            decreases n - i,
        {
            let ghost st0 = st@;
            let ghost mid = out@;
            match self.compile_statement(st, out, &statements.0[i]) {
                Err(e) => {
                    assert(stmts_code(env, st0, s, i as int) == Err::<(Code, StateV), CompileError>(e));
                    assert(stmts_code(env, old(st)@, s, 0) == Err::<(Code, StateV), CompileError>(e));
                    return Err(e);
                },
                Ok(()) => {},
            }
            proof {
                let c = stmt_code(env, st0, *s[i as int])->Ok_0.0;
                lemma_before_st_assoc(produced, c, stmts_code(env, st@, s, i + 1));
                produced = produced + c;
            }
            i = i + 1;
        }
        assert(produced + seq![] =~= produced);
        Ok(())
    }
}

} // verus!

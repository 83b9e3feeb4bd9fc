use std::collections::VecDeque;

use vstd::prelude::*;

use crate::gramar::ast::{JackDeclaration, JackSubroutine};
use crate::gramar::units::segments::JackSegment;
use crate::gramar::units::subroutins_types::JackSubroutineType;
use crate::gramar::units::types::JackType;
use crate::gramar::units::var_name::JackVariableName;
use crate::vm::instructions::{AsmInstructionPayload, AsmInstructionV};

use super::class::{ClassContextV, JackClassCompilerContext};
use super::code::{
    before_st, stmts_code, subroutine_code, subroutine_declarations, this_declaration, this_name,
    Code, CompileEnv, CompileError, StateV,
};
use super::emit::{bytes, views, CompileState, Emitter};
use super::vars::{
    can_migrate_all, declaration_views, empty_table, lemma_migrate_all_concat,
    lemma_migrate_all_single, migrated_all, JackTableNames, TableV,
};

verus! {

/// The table of a subroutine's own variables: a method's object, then its
/// arguments and locals.
pub open spec fn subroutine_table(class_name: Seq<u8>, sub: JackSubroutine) -> TableV {
    migrated_all(
        empty_table(),
        subroutine_declarations(sub.key, class_name, declaration_views(sub.vars@)),
    )
}

/// A subroutine's declarations can all be entered in its table.
pub open spec fn subroutine_ok(class_name: Seq<u8>, sub: JackSubroutine) -> bool {
    can_migrate_all(
        empty_table(),
        subroutine_declarations(sub.key, class_name, declaration_views(sub.vars@)),
    )
}

/// What the compilation of a subroutine reads.
pub open spec fn subroutine_env(
    class: ClassContextV,
    sub: JackSubroutine,
    skip_vars_check: bool,
    is_strict: bool,
) -> CompileEnv {
    CompileEnv {
        class_name: class.name,
        class_vars: class.vars.vars,
        locals: subroutine_table(class.name, sub).vars,
        key: sub.key,
        kind: sub.kind@,
        name: sub.name.0@,
        skip: skip_vars_check,
        strict: is_strict,
    }
}

/// The compilation of one subroutine into VM instructions, handed out one
/// at a time: its header at once, then each statement's code as the
/// statement is reached.
pub struct JackSubroutineCompilerContext<'a> {
    class: &'a JackClassCompilerContext,
    subroutine: JackSubroutine,
    skip_vars_check: bool,
    is_strict: bool,
    statement_idx: usize,
    state: CompileState,
    acc: VecDeque<AsmInstructionPayload>,
    vars: JackTableNames,
    produced: Ghost<Seq<AsmInstructionV>>,
}

impl<'a> JackSubroutineCompilerContext<'a> {
    /// What the compilation reads.
    pub closed spec fn env(&self) -> CompileEnv {
        CompileEnv {
            class_name: self.class@.name,
            class_vars: self.class@.vars.vars,
            locals: self.vars@.vars,
            key: self.subroutine.key,
            kind: self.subroutine.kind@,
            name: self.subroutine.name.0@,
            skip: self.skip_vars_check,
            strict: self.is_strict,
        }
    }

    /// The code of the whole subroutine.
    pub closed spec fn code(&self) -> Result<Code, CompileError> {
        subroutine_code(
            self.env(),
            self.class@.vars.field,
            self.vars@.lcl,
            self.subroutine.statements.0@,
        )
    }

    /// The instructions handed out so far.
    pub closed spec fn produced(&self) -> Seq<AsmInstructionV> {
        self.produced@
    }

    /// What was handed out, what waits and what the remaining statements
    /// give make up the subroutine's code.
    pub closed spec fn wf(&self) -> bool {
        &&& self.statement_idx <= self.subroutine.statements.0@.len()
        &&& self.code() is Ok ==> match stmts_code(
            self.env(),
            self.state@,
            self.subroutine.statements.0@,
            self.statement_idx as int,
        ) {
            Ok((rest, _)) => self.code()->Ok_0 == self.produced@ + views(self.acc@) + rest,
            Err(_) => false,
        }
    }

    /// Builds the subroutine's table (for a method, its object first under
    /// the name `__CLASS_NAME__`) and compiles its header.
    pub fn init(
        class: &'a JackClassCompilerContext,
        subroutine: JackSubroutine,
        skip_vars_check: bool,
        is_strict: bool,
    ) -> (r: Self)
        requires
            subroutine_ok(class@.name, subroutine),
        ensures
            r.wf(),
            r.produced() == Seq::<AsmInstructionV>::empty(),
            r.code() == subroutine_code(
                subroutine_env(class@, subroutine, skip_vars_check, is_strict),
                class@.vars.field,
                subroutine_table(class@.name, subroutine).lcl,
                subroutine.statements.0@,
            ),
    {
        let ghost sub0 = subroutine;
        let ghost dv = declaration_views(subroutine.vars@);
        let mut subroutine = subroutine;
        let mut global = JackTableNames::new();
        if subroutine.key == JackSubroutineType::Method {
            let kind = JackType::Class(bytes(class.class().0.as_slice()));
            let name = JackVariableName(
                bytes(&[95u8, 95u8, 67u8, 76u8, 65u8, 83u8, 83u8, 95u8, 78u8, 65u8, 77u8, 69u8, 95u8, 95u8]),
            );
            let mut names: Vec<JackVariableName> = Vec::new();
            names.push(name);
            let mut declaration = JackDeclaration { segment: JackSegment::Arg, kind, names };
            proof {
                assert(declaration@.names =~= seq![this_name()]);
                assert(declaration@ == this_declaration(class@.name));
                lemma_migrate_all_concat(empty_table(), seq![this_declaration(class@.name)], dv);
                lemma_migrate_all_single(empty_table(), this_declaration(class@.name));
                assert(subroutine_declarations(sub0.key, class@.name, dv) == seq![
                    this_declaration(class@.name),
                ] + dv);
            }
            global.migrate(&mut declaration);
        }
        global.migrate_all(&mut subroutine.vars);
        let mut res = JackSubroutineCompilerContext {
            class,
            subroutine,
            skip_vars_check,
            is_strict,
            statement_idx: 0,
            state: CompileState::new(),
            acc: VecDeque::new(),
            vars: global,
            produced: Ghost(Seq::empty()),
        };
        let em = Emitter {
            class: res.class,
            vars: &res.vars,
            sub: &res.subroutine,
            skip_vars_check: res.skip_vars_check,
            is_strict: res.is_strict,
        };
        em.compile_function_header(&mut res.acc);
        proof {
            assert(res.env() == subroutine_env(class@, sub0, skip_vars_check, is_strict));
            assert(views(res.acc@) =~= super::code::header_code(
                res.env(),
                class@.vars.field,
                res.vars@.lcl,
            ));
            if res.code() is Ok {
                let rest = stmts_code(res.env(), res.state@, res.subroutine.statements.0@, 0);
                assert(res.code()->Ok_0 =~= res.produced@ + views(res.acc@) + rest->Ok_0.0);
            }
        }
        res
    }

    /// Whether the whole subroutine compiles, and if not, why.
    pub fn check(&self) -> (r: Result<(), CompileError>)
        ensures
            r is Ok == self.code() is Ok,
            r matches Err(e) ==> self.code() == Err::<Code, CompileError>(e),
    {
        let em = Emitter {
            class: self.class,
            vars: &self.vars,
            sub: &self.subroutine,
            skip_vars_check: self.skip_vars_check,
            is_strict: self.is_strict,
        };
        let mut st = CompileState::new();
        let mut scratch: VecDeque<AsmInstructionPayload> = VecDeque::new();
        assert(em.env() == self.env());
        em.compile_statements(&mut st, &mut scratch, &self.subroutine.statements)
    }

    /// The next instruction of the subroutine's code, or `None` once all of
    /// it was handed out.
    pub fn next(&mut self) -> (r: Option<AsmInstructionPayload>)
        requires
            old(self).wf(),
            old(self).code() is Ok,
        ensures
            final(self).wf(),
            final(self).code() == old(self).code(),
            match r {
                Some(p) => {
                    &&& old(self).produced().len() < old(self).code()->Ok_0.len()
                    &&& p@ == old(self).code()->Ok_0[old(self).produced().len() as int]
                    &&& final(self).produced() == old(self).produced().push(p@)
                },
                None => {
                    &&& old(self).produced() == old(self).code()->Ok_0
                    &&& final(self).produced() == old(self).produced()
                },
            },
    {
        let ghost total = self.code()->Ok_0;
        match self.acc.pop_front() {
            Some(v) => {
                proof {
                    let rest = stmts_code(
                        self.env(),
                        self.state@,
                        self.subroutine.statements.0@,
                        self.statement_idx as int,
                    )->Ok_0.0;
                    assert(views(old(self).acc@) =~= seq![v@] + views(self.acc@));
                    assert(total =~= self.produced@.push(v@) + views(self.acc@) + rest);
                    assert(total[self.produced@.len() as int] == v@);
                }
                self.produced = Ghost(self.produced@.push(v@));
                return Some(v);
            },
            None => {},
        }
        let n = self.subroutine.statements.0.len();
        while self.statement_idx < n
            invariant
                n == self.subroutine.statements.0@.len(),
                self.wf(),
                self.code() == old(self).code(),
                self.code() is Ok,
                total == self.code()->Ok_0,
                self.acc@.len() == 0,
                self.produced@ == old(self).produced@,
            decreases n - self.statement_idx,
        {
            let ghost st0 = self.state@;
            let ghost idx = self.statement_idx as int;
            let ghost s = self.subroutine.statements.0@;
            let ghost env = self.env();
            let r = {
                let em = Emitter {
                    class: self.class,
                    vars: &self.vars,
                    sub: &self.subroutine,
                    skip_vars_check: self.skip_vars_check,
                    is_strict: self.is_strict,
                };
                assert(em.env() == env);
                em.compile_statement(
                    &mut self.state,
                    &mut self.acc,
                    &self.subroutine.statements.0[self.statement_idx],
                )
            };
            match r {
                Err(_) => {
                    proof {
                        assert(stmts_code(env, st0, s, idx) is Ok);
                        assert(false);
                    }
                    return None;
                },
                Ok(()) => {},
            }
            self.statement_idx = self.statement_idx + 1;
            proof {
                let c = views(self.acc@);
                let rest = stmts_code(env, self.state@, s, idx + 1)->Ok_0.0;
                assert(stmts_code(env, st0, s, idx) == before_st(c, stmts_code(env, self.state@, s, idx + 1)));
                assert(total =~= self.produced@ + views(self.acc@) + rest);
            }
            let ghost acc0 = self.acc@;
            match self.acc.pop_front() {
                Some(v) => {
                    proof {
                        let rest = stmts_code(env, self.state@, s, idx + 1)->Ok_0.0;
                        assert(views(acc0) =~= seq![v@] + views(self.acc@));
                        assert(total =~= self.produced@.push(v@) + views(self.acc@) + rest);
                        assert(total[self.produced@.len() as int] == v@);
                    }
                    self.produced = Ghost(self.produced@.push(v@));
                    return Some(v);
                },
                None => {},
            }
        }
        proof {
            let s = self.subroutine.statements.0@;
            assert(stmts_code(self.env(), self.state@, s, n as int) == Ok::<(Code, StateV), CompileError>((seq![], self.state@)));
            assert(total =~= self.produced@);
        }
        None
    }
}

} // verus!

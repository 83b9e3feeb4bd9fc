use vstd::prelude::*;

use crate::gramar::ast::{JackConstantTerm, JackExpression, JackTerm, JackTermPayload};
use crate::tokens::intlit::{decimal_value, fits_i16_steps};
use crate::tokens::JackSymbol;
use crate::vm::instructions::{
    AsmArithmeticInstruction, AsmInstructionV, AsmMemoryInstructionKind,
    AsmMemoryInstructionSegment,
};

use super::code::{expr_code, extra_code, op_code, term_code, Code, CompileEnv};

verus! {

/// The value that a VM arithmetic command leaves for the two cells `x`
/// (below) and `y` (on top): sums and differences, bitwise and/or, and
/// comparisons giving -1 for true and 0 for false.
pub open spec fn vm_binary_value(a: AsmArithmeticInstruction, x: i16, y: i16) -> int {
    match a {
        AsmArithmeticInstruction::Add => x + y,
        AsmArithmeticInstruction::Sub => x - y,
        AsmArithmeticInstruction::And => (x & y) as int,
        AsmArithmeticInstruction::Or => (x | y) as int,
        AsmArithmeticInstruction::Eq => if x == y {
            -1
        } else {
            0
        },
        AsmArithmeticInstruction::Gt => if x > y {
            -1
        } else {
            0
        },
        AsmArithmeticInstruction::Lt => if x < y {
            -1
        } else {
            0
        },
        _ => 0,
    }
}

/// The value of a Jack binary operator on `x` and `y`, true being -1 and
/// false 0.
pub open spec fn jack_binary_value(op: JackSymbol, x: i16, y: i16) -> int {
    match op {
        JackSymbol::Plus => x + y,
        JackSymbol::Minus => x - y,
        JackSymbol::And => (x & y) as int,
        JackSymbol::Or => (x | y) as int,
        JackSymbol::Eq => if x == y {
            -1
        } else {
            0
        },
        JackSymbol::Greater => if x > y {
            -1
        } else {
            0
        },
        JackSymbol::Less => if x < y {
            -1
        } else {
            0
        },
        _ => 0,
    }
}

/// The Jack operators that the VM computes with one arithmetic command.
pub open spec fn is_arithmetic_op(op: JackSymbol) -> bool {
    op == JackSymbol::Plus || op == JackSymbol::Minus || op == JackSymbol::And || op
        == JackSymbol::Or || op == JackSymbol::Eq || op == JackSymbol::Greater || op
        == JackSymbol::Less
}

/// Each of `+ - & | = > <` compiles to one VM arithmetic command that
/// computes, on any two values, what the operator means in Jack; `*` and
/// `/` call `Math.multiply` and `Math.divide` with two arguments; every
/// other symbol is no binary operator.
pub proof fn lemma_op_code_meaning(op: JackSymbol, x: i16, y: i16)
    ensures
        is_arithmetic_op(op) ==> (op_code(op) matches Some(AsmInstructionV::Arithmetic(a))
            && vm_binary_value(a, x, y) == jack_binary_value(op, x, y)),
        op == JackSymbol::Multiply ==> op_code(op) == Some(
            AsmInstructionV::Call(
                seq![77u8, 97u8, 116u8, 104u8, 46u8, 109u8, 117u8, 108u8, 116u8, 105u8, 112u8, 108u8, 121u8],
                2,
            ),
        ),
        op == JackSymbol::Divide ==> op_code(op) == Some(
            AsmInstructionV::Call(seq![77u8, 97u8, 116u8, 104u8, 46u8, 100u8, 105u8, 118u8, 105u8, 100u8, 101u8], 2),
        ),
        !is_arithmetic_op(op) && op != JackSymbol::Multiply && op != JackSymbol::Divide
            ==> op_code(op) is None,
{
}

/// The value that a VM unary command leaves for the cell `x`.
pub open spec fn vm_unary_value(a: AsmArithmeticInstruction, x: i16) -> int {
    match a {
        AsmArithmeticInstruction::Neg => -x,
        AsmArithmeticInstruction::Not => (!x) as int,
        _ => 0,
    }
}

/// The value of a Jack unary operator: `-` negates, `~` flips every bit.
pub open spec fn jack_unary_value(op: JackSymbol, x: i16) -> int {
    match op {
        JackSymbol::Minus => -x,
        JackSymbol::Not => (!x) as int,
        _ => 0,
    }
}

/// A unary `-` or `~` compiles to the code of its term followed by one VM
/// command that computes, on any value, what the operator means in Jack.
pub proof fn lemma_unary_meaning(
    env: CompileEnv,
    assigned: Set<Seq<u8>>,
    op: JackSymbol,
    t: JackTerm,
    x: i16,
)
    requires
        op == JackSymbol::Minus || op == JackSymbol::Not,
        term_code(env, assigned, t) is Ok,
    ensures
        term_code(env, assigned, JackTerm { payload: JackTermPayload::Unary(op, Box::new(t)) })
            matches Ok(c) && c.len() >= 1 && c.drop_last() == term_code(env, assigned, t)->Ok_0
            && (c.last() matches AsmInstructionV::Arithmetic(a) && vm_unary_value(a, x)
            == jack_unary_value(op, x)),
{
    let u = JackTerm { payload: JackTermPayload::Unary(op, Box::new(t)) };
    let c0 = term_code(env, assigned, t)->Ok_0;
    assert(c0.push(AsmInstructionV::Arithmetic(AsmArithmeticInstruction::Neg)).drop_last() =~= c0);
    assert(c0.push(AsmInstructionV::Arithmetic(AsmArithmeticInstruction::Not)).drop_last() =~= c0);
}

/// What a VM arithmetic command leaves for `x` under `y`, on unbounded
/// integers: sums, differences, and comparisons giving -1 for true and 0
/// for false.
pub open spec fn vm_int_value(a: AsmArithmeticInstruction, x: int, y: int) -> int {
    match a {
        AsmArithmeticInstruction::Add => x + y,
        AsmArithmeticInstruction::Sub => x - y,
        AsmArithmeticInstruction::Eq => if x == y {
            -1
        } else {
            0
        },
        AsmArithmeticInstruction::Gt => if x > y {
            -1
        } else {
            0
        },
        _ => if x < y {
            -1
        } else {
            0
        },
    }
}

/// One VM command on a stack of values: `push constant v` pushes `v`, `neg`
/// negates the top, `add`, `sub`, `eq`, `gt` and `lt` replace the two top
/// values by their result. Other commands are outside this model.
pub open spec fn vm_step(i: AsmInstructionV, s: Seq<int>) -> Option<Seq<int>> {
    match i {
        AsmInstructionV::Memory(
            AsmMemoryInstructionSegment::Const,
            AsmMemoryInstructionKind::Push,
            v,
        ) => Some(s.push(v as int)),
        AsmInstructionV::Arithmetic(AsmArithmeticInstruction::Neg) => if s.len() >= 1 {
            Some(s.drop_last().push(-s.last()))
        } else {
            None
        },
        AsmInstructionV::Arithmetic(a) => if (a == AsmArithmeticInstruction::Add || a
            == AsmArithmeticInstruction::Sub || a == AsmArithmeticInstruction::Eq || a
            == AsmArithmeticInstruction::Gt || a == AsmArithmeticInstruction::Lt) && s.len()
            >= 2 {
            Some(
                s.drop_last().drop_last().push(
                    vm_int_value(a, s[s.len() - 2], s.last()),
                ),
            )
        } else {
            None
        },
        _ => None,
    }
}

/// Running VM commands in order on a stack.
pub open spec fn vm_eval(c: Code, s: Seq<int>) -> Option<Seq<int>>
    decreases c.len(),
{
    if c.len() == 0 {
        Some(s)
    } else {
        match vm_eval(c.drop_last(), s) {
            Some(s1) => vm_step(c.last(), s1),
            None => None,
        }
    }
}

/// Running two pieces of code is running the first, then the second.
pub proof fn lemma_vm_eval_concat(a: Code, b: Code, s: Seq<int>)
    ensures
        vm_eval(a + b, s) == match vm_eval(a, s) {
            Some(s1) => vm_eval(b, s1),
            None => None,
        },
    decreases b.len(),
{
    if b.len() == 0 {
        assert(a + b =~= a);
    } else {
        lemma_vm_eval_concat(a, b.drop_last(), s);
        assert((a + b).drop_last() =~= a + b.drop_last());
        assert((a + b).last() == b.last());
    }
}

/// The Jack operators with a value in this model.
pub open spec fn is_value_op(op: JackSymbol) -> bool {
    op == JackSymbol::Plus || op == JackSymbol::Minus || op == JackSymbol::Eq || op
        == JackSymbol::Greater || op == JackSymbol::Less
}

/// The value of a Jack operator on unbounded integers.
pub open spec fn jack_int_value(op: JackSymbol, x: int, y: int) -> int {
    match op {
        JackSymbol::Plus => x + y,
        JackSymbol::Minus => x - y,
        JackSymbol::Eq => if x == y {
            -1
        } else {
            0
        },
        JackSymbol::Greater => if x > y {
            -1
        } else {
            0
        },
        _ => if x < y {
            -1
        } else {
            0
        },
    }
}

/// The value of a Jack term made of integers, `true`, `false`, `null`,
/// negation and bracketed expressions: none for any other term.
pub open spec fn jack_term_value(t: JackTerm) -> Option<int>
    decreases t, 0int,
{
    match t.payload {
        JackTermPayload::Int(i) => Some(decimal_value(i.0@)),
        JackTermPayload::Const(JackConstantTerm::True) => Some(-1),
        JackTermPayload::Const(JackConstantTerm::False) => Some(0),
        JackTermPayload::Const(JackConstantTerm::Null) => Some(0),
        JackTermPayload::Expression(e) => jack_expr_value(*e),
        JackTermPayload::Unary(JackSymbol::Minus, t2) => match jack_term_value(*t2) {
            Some(v) => Some(-v),
            None => None,
        },
        _ => None,
    }
}

/// The value of a Jack expression, its operators applied from left to
/// right.
pub open spec fn jack_expr_value(e: JackExpression) -> Option<int>
    decreases e, 0int,
{
    match jack_term_value(e.term) {
        Some(v) => jack_extra_value(e.extra@, 0, v),
        None => None,
    }
}

/// The value of the operator-term pairs from the `i`-th on, applied to
/// `acc`.
pub open spec fn jack_extra_value(s: Seq<(JackSymbol, JackTerm)>, i: int, acc: int) -> Option<int>
    decreases s, s.len() - i,
{
    if i < 0 || i >= s.len() {
        Some(acc)
    } else {
        match jack_term_value(s[i].1) {
            Some(v) => if is_value_op(s[i].0) {
                jack_extra_value(s, i + 1, jack_int_value(s[i].0, acc, v))
            } else {
                None
            },
            None => None,
        }
    }
}

/// Compiled code computes the Jack value of a term: run on any stack, it
/// pushes exactly that value.
#[verifier::spinoff_prover]
pub proof fn lemma_term_computes(env: CompileEnv, assigned: Set<Seq<u8>>, t: JackTerm, st: Seq<int>)
    requires
        term_code(env, assigned, t) is Ok,
        jack_term_value(t) is Some,
    ensures
        vm_eval(term_code(env, assigned, t)->Ok_0, st) == Some(st.push(jack_term_value(t)->Some_0)),
    decreases t, 0int,
{
    let c = term_code(env, assigned, t)->Ok_0;
    match t.payload {
        JackTermPayload::Int(i) => {
            let d = i.0@;
            assert(fits_i16_steps(d));
            assert(i16::MIN <= crate::tokens::intlit::int_partial(d, d.len()) <= i16::MAX);
            assert(i16::MIN <= decimal_value(d) <= i16::MAX);
            assert((decimal_value(d) as i16) as int == decimal_value(d));
            assert(c.drop_last().len() == 0);
            assert(vm_eval(c.drop_last(), st) == Some(st));
            assert(c.last() == AsmInstructionV::Memory(
                AsmMemoryInstructionSegment::Const,
                AsmMemoryInstructionKind::Push,
                decimal_value(d) as i16,
            ));
            assert(vm_eval(c, st) == Some(st.push(jack_term_value(t)->Some_0)));
        },
        JackTermPayload::Const(JackConstantTerm::True) => {
            let c1 = c.drop_last();
            assert(c1.len() == 1);
            assert(c1.drop_last().len() == 0);
            assert(vm_eval(c1.drop_last(), st) == Some(st));
            assert(vm_eval(c1, st) == Some(st.push(1)));
            assert(st.push(1).drop_last() =~= st);
            assert(vm_eval(c, st) == Some(st.push(jack_term_value(t)->Some_0)));
        },
        JackTermPayload::Const(JackConstantTerm::False) => {
            assert(c.drop_last().len() == 0);
        },
        JackTermPayload::Const(JackConstantTerm::Null) => {
            assert(c.drop_last().len() == 0);
        },
        JackTermPayload::Expression(e) => {
            lemma_expr_computes(env, assigned, *e, st);
            assert(vm_eval(c, st) == Some(st.push(jack_term_value(t)->Some_0)));
        },
        JackTermPayload::Unary(op, t2) => {
            let c2 = term_code(env, assigned, *t2)->Ok_0;
            lemma_term_computes(env, assigned, *t2, st);
            let v = jack_term_value(*t2)->Some_0;
            assert(c.drop_last() =~= c2);
            assert(st.push(v).drop_last() =~= st);
            assert(vm_eval(c, st) == Some(st.push(jack_term_value(t)->Some_0)));
        },
        _ => {},
    }
}

/// Compiled code computes the Jack value of an expression.
pub proof fn lemma_expr_computes(env: CompileEnv, assigned: Set<Seq<u8>>, e: JackExpression, st: Seq<int>)
    requires
        expr_code(env, assigned, e) is Ok,
        jack_expr_value(e) is Some,
    ensures
        vm_eval(expr_code(env, assigned, e)->Ok_0, st) == Some(st.push(jack_expr_value(e)->Some_0)),
    decreases e, 0int,
{
    let c0 = term_code(env, assigned, e.term)->Ok_0;
    let v0 = jack_term_value(e.term)->Some_0;
    lemma_term_computes(env, assigned, e.term, st);
    lemma_extra_computes(env, assigned, e.extra@, 0, v0, st);
    let rest = extra_code(env, assigned, e.extra@, 0)->Ok_0;
    lemma_vm_eval_concat(c0, rest, st);
}

/// Compiled operator-term pairs, run on a stack whose top is `acc`, leave
/// the Jack value of applying them to `acc`.
pub proof fn lemma_extra_computes(
    env: CompileEnv,
    assigned: Set<Seq<u8>>,
    s: Seq<(JackSymbol, JackTerm)>,
    i: int,
    acc: int,
    st: Seq<int>,
)
    requires
        extra_code(env, assigned, s, i) is Ok,
        jack_extra_value(s, i, acc) is Some,
    ensures
        vm_eval(extra_code(env, assigned, s, i)->Ok_0, st.push(acc)) == Some(
            st.push(jack_extra_value(s, i, acc)->Some_0),
        ),
    decreases s, s.len() - i,
{
    if i < 0 || i >= s.len() {
    } else {
        let op = s[i].0;
        let t = s[i].1;
        let c = term_code(env, assigned, t)->Ok_0;
        let v = jack_term_value(t)->Some_0;
        lemma_op_code_meaning(op, 0, 0);
        let o = op_code(op)->Some_0;
        let rest = extra_code(env, assigned, s, i + 1)->Ok_0;
        let w = jack_int_value(op, acc, v);
        lemma_term_computes(env, assigned, t, st.push(acc));
        lemma_vm_eval_concat(c, seq![o], st.push(acc));
        assert(seq![o].drop_last().len() == 0);
        assert(c.push(o) =~= c + seq![o]);
        let s2 = st.push(acc).push(v);
        assert(s2.drop_last().drop_last() =~= st);
        assert(s2[s2.len() - 2] == acc);
        if op == JackSymbol::Plus {
            assert(o == AsmInstructionV::Arithmetic(AsmArithmeticInstruction::Add));
        } else if op == JackSymbol::Minus {
            assert(o == AsmInstructionV::Arithmetic(AsmArithmeticInstruction::Sub));
        } else if op == JackSymbol::Eq {
            assert(o == AsmInstructionV::Arithmetic(AsmArithmeticInstruction::Eq));
        } else if op == JackSymbol::Greater {
            assert(o == AsmInstructionV::Arithmetic(AsmArithmeticInstruction::Gt));
        } else {
            assert(o == AsmInstructionV::Arithmetic(AsmArithmeticInstruction::Lt));
        }
        assert(vm_step(o, s2) == Some(st.push(w)));
        assert(seq![o].drop_last() =~= Seq::<AsmInstructionV>::empty());
        assert(vm_eval(Seq::<AsmInstructionV>::empty(), s2) == Some(s2));
        assert(seq![o].last() == o);
        assert(vm_eval(seq![o], s2) == Some(st.push(w)));
        assert(vm_eval(c.push(o), st.push(acc)) == Some(st.push(w)));
        assert(extra_code(env, assigned, s, i) == Ok::<Code, crate::compiler::code::CompileError>(c.push(o) + rest));
        lemma_extra_computes(env, assigned, s, i + 1, w, st);
        lemma_vm_eval_concat(c.push(o), rest, st.push(acc));
    }
}

} // verus!

use vstd::prelude::*;
use vstd::slice::slice_subrange;

use crate::util::{
    byte_pos, bytes_equal, find_byte, int_text, lemma_byte_pos_bounds, nat_digits, push_all,
    push_digits, push_int,
};

use super::asm_text::{
    at_true, at_true_bytes, close_label, close_label_bytes, comment_open, comment_open_bytes, d_line_end, d_line_end_bytes, debug_arg, debug_arg_bytes, debug_const, debug_const_bytes, debug_local, debug_local_bytes, debug_pointer, debug_pointer_bytes, debug_pop, debug_pop_bytes, debug_push, debug_push_bytes, debug_static, debug_static_bytes, debug_temp, debug_temp_bytes, debug_that, debug_that_bytes, debug_this, debug_this_bytes, deref_a, deref_a_bytes, end_load, end_load_bytes, end_load_const, end_load_const_bytes, end_store, end_store_bytes, goto_close, goto_close_bytes, goto_open, goto_open_bytes, if_goto_at, if_goto_at_bytes, if_goto_close, if_goto_close_bytes, if_goto_open, if_goto_open_bytes, jump_d, jump_d_bytes, jump_eq, jump_eq_bytes, jump_gt, jump_gt_bytes, jump_lt, jump_lt_bytes, jump_true_label, jump_true_label_bytes, label_arg, label_arg_bytes, label_lcl, label_lcl_bytes, label_that, label_that_bytes, label_this, label_this_bytes, load_d, load_d_bytes, neg_text, neg_text_bytes, next_a, next_a_bytes, not_text, not_text_bytes, op_and, op_and_bytes, op_minus, op_minus_bytes, op_or, op_or_bytes, op_plus, op_plus_bytes, pop_from_sp, pop_from_sp_bytes, push_to_sp, push_to_sp_bytes, store_d, store_d_bytes, that_load, that_load_bytes, that_store, that_store_bytes, this_load, this_load_bytes, this_store, this_store_bytes, update_in_place, update_in_place_bytes, word_add, word_add_bytes, word_and, word_and_bytes, word_eq, word_eq_bytes, word_goto, word_goto_bytes, word_gt, word_gt_bytes, word_if_goto, word_if_goto_bytes, word_label, word_label_bytes, word_lt, word_lt_bytes, word_neg, word_neg_bytes, word_not, word_not_bytes, word_or, word_or_bytes, word_pop, word_pop_bytes, word_push, word_push_bytes, word_sub, word_sub_bytes, write_comparison, write_comparison_bytes, write_false, write_false_bytes, write_true, write_true_bytes,
};
use super::tokens::{spec_segment_named, MemoryTokenKind, Segment};

verus! {

/// `text` repeated `n` times.
pub open spec fn repeat(text: Seq<u8>, n: int) -> Seq<u8>
    decreases n,
{
    if n <= 0 {
        seq![]
    } else {
        repeat(text, n - 1) + text
    }
}

/// Follows the pointer held at `label` `val` cells on, then ends with `last`.
pub open spec fn pointer_access(label: Seq<u8>, val: i16, last: Seq<u8>) -> Seq<u8> {
    seq![64u8] + label + deref_a() + repeat(next_a(), val as int) + last
}

/// Loading a segment's cell into `D`; `None` where no cell is meant: a
/// pointer cell other than 0 and 1, or a temp cell past the 16-bit range.
pub open spec fn spec_load_data(s: Segment, val: i16, file_name: Seq<u8>) -> Option<Seq<u8>> {
    match s {
        Segment::Arg => Some(pointer_access(label_arg(), val, load_d())),
        Segment::This => Some(pointer_access(label_this(), val, load_d())),
        Segment::That => Some(pointer_access(label_that(), val, load_d())),
        Segment::Local => Some(pointer_access(label_lcl(), val, load_d())),
        Segment::Const => Some(seq![64u8] + int_text(val as int) + end_load_const()),
        Segment::Temp => if val + 5 > i16::MAX {
            None
        } else {
            Some(seq![64u8] + int_text(val + 5) + end_load())
        },
        Segment::Static => Some(
            seq![64u8] + file_name + seq![46u8] + int_text(val as int) + end_load(),
        ),
        Segment::Pointer => if val == 0 {
            Some(this_load())
        } else if val == 1 {
            Some(that_load())
        } else {
            None
        },
    }
}

/// Storing `D` into a segment's cell; `None` for a constant and where no
/// cell is meant.
pub open spec fn spec_save_data(s: Segment, val: i16, file_name: Seq<u8>) -> Option<Seq<u8>> {
    match s {
        Segment::Arg => Some(pointer_access(label_arg(), val, store_d())),
        Segment::This => Some(pointer_access(label_this(), val, store_d())),
        Segment::That => Some(pointer_access(label_that(), val, store_d())),
        Segment::Local => Some(pointer_access(label_lcl(), val, store_d())),
        Segment::Const => None,
        Segment::Temp => if val + 5 > i16::MAX {
            None
        } else {
            Some(seq![64u8] + int_text(val + 5) + end_store())
        },
        Segment::Static => Some(
            seq![64u8] + file_name + seq![46u8] + int_text(val as int) + end_store(),
        ),
        Segment::Pointer => if val == 0 {
            Some(this_store())
        } else if val == 1 {
            Some(that_store())
        } else {
            None
        },
    }
}

fn pointer_access_bytes(out: &mut Vec<u8>, label: &[u8], val: i16, last: &[u8])
    ensures
        final(out)@ == old(out)@ + pointer_access(label@, val, last@),
{
    out.push(64);
    push_all(out, label);
    push_all(out, deref_a_bytes());
    let ghost head = old(out)@ + seq![64u8] + label@ + deref_a();
    assert(out@ =~= head + repeat(next_a(), 0));
    let mut v = val;
    let mut k: i16 = 0;
    while v > 0
        invariant
            v == val - k,
            0 <= k,
            v > 0 ==> k <= val,
            v <= 0 ==> k == (if val > 0 {
                val
            } else {
                0
            }),
            out@ == head + repeat(next_a(), k as int),
        decreases v,
    {
        push_all(out, next_a_bytes());
        v = v - 1;
        k = k + 1;
        assert(out@ =~= head + repeat(next_a(), k as int));
    }
    proof {
        if val <= 0 {
            assert(repeat(next_a(), val as int) == repeat(next_a(), 0));
        }
    }
    push_all(out, last);
    assert(out@ =~= old(out)@ + pointer_access(label@, val, last@));
}

impl Segment {
    /// The Hack code that loads the segment's cell `val` into `D`.
    pub fn load_data(&self, val: i16, file_name: &[u8]) -> (r: Vec<u8>)
        requires
            spec_load_data(*self, val, file_name@) is Some,
        ensures
            r@ == spec_load_data(*self, val, file_name@)->Some_0,
    {
        let mut out: Vec<u8> = Vec::new();
        match self {
            Self::Arg => pointer_access_bytes(&mut out, label_arg_bytes(), val, load_d_bytes()),
            Self::This => pointer_access_bytes(&mut out, label_this_bytes(), val, load_d_bytes()),
            Self::That => pointer_access_bytes(&mut out, label_that_bytes(), val, load_d_bytes()),
            Self::Local => pointer_access_bytes(&mut out, label_lcl_bytes(), val, load_d_bytes()),
            Self::Const => {
                out.push(64);
                push_int(&mut out, val as i64);
                push_all(&mut out, end_load_const_bytes());
            },
            Self::Temp => {
                out.push(64);
                push_int(&mut out, (val + 5) as i64);
                push_all(&mut out, end_load_bytes());
            },
            Self::Static => {
                out.push(64);
                push_all(&mut out, file_name);
                out.push(46);
                push_int(&mut out, val as i64);
                push_all(&mut out, end_load_bytes());
            },
            Self::Pointer => {
                if val == 0 {
                    push_all(&mut out, this_load_bytes());
                } else {
                    push_all(&mut out, that_load_bytes());
                }
            },
        }
        assert(out@ =~= spec_load_data(*self, val, file_name@)->Some_0);
        out
    }

    /// The Hack code that stores `D` into the segment's cell `val`.
    pub fn save_data(&self, val: i16, file_name: &[u8]) -> (r: Vec<u8>)
        requires
            spec_save_data(*self, val, file_name@) is Some,
        ensures
            r@ == spec_save_data(*self, val, file_name@)->Some_0,
    {
        let mut out: Vec<u8> = Vec::new();
        match self {
            Self::Arg => pointer_access_bytes(&mut out, label_arg_bytes(), val, store_d_bytes()),
            Self::This => pointer_access_bytes(&mut out, label_this_bytes(), val, store_d_bytes()),
            Self::That => pointer_access_bytes(&mut out, label_that_bytes(), val, store_d_bytes()),
            Self::Local => pointer_access_bytes(&mut out, label_lcl_bytes(), val, store_d_bytes()),
            Self::Const => {},
            Self::Temp => {
                out.push(64);
                push_int(&mut out, (val + 5) as i64);
                push_all(&mut out, end_store_bytes());
            },
            Self::Static => {
                out.push(64);
                push_all(&mut out, file_name);
                out.push(46);
                push_int(&mut out, val as i64);
                push_all(&mut out, end_store_bytes());
            },
            Self::Pointer => {
                if val == 0 {
                    push_all(&mut out, this_store_bytes());
                } else {
                    push_all(&mut out, that_store_bytes());
                }
            },
        }
        assert(out@ =~= spec_save_data(*self, val, file_name@)->Some_0);
        out
    }
}

/// How a memory command's kind is printed in its comment.
pub open spec fn kind_debug(k: MemoryTokenKind) -> Seq<u8> {
    match k {
        MemoryTokenKind::Pop => debug_pop(),
        MemoryTokenKind::Push => debug_push(),
    }
}

/// How a segment is printed in a memory command's comment.
pub open spec fn segment_debug(s: Segment) -> Seq<u8> {
    match s {
        Segment::Arg => debug_arg(),
        Segment::Const => debug_const(),
        Segment::Pointer => debug_pointer(),
        Segment::Static => debug_static(),
        Segment::Local => debug_local(),
        Segment::Temp => debug_temp(),
        Segment::That => debug_that(),
        Segment::This => debug_this(),
    }
}

/// The Hack code of a memory command, after a comment that names it.
pub open spec fn memory_code(
    kind: MemoryTokenKind,
    s: Segment,
    val: i16,
    file_name: Seq<u8>,
) -> Option<Seq<u8>> {
    let command = comment_open() + kind_debug(kind) + seq![32u8] + segment_debug(s) + seq![32u8]
        + int_text(val as int) + seq![10u8];
    match kind {
        MemoryTokenKind::Pop => match spec_save_data(s, val, file_name) {
            Some(d) => Some(seq![10u8] + command + pop_from_sp() + d + seq![10u8]),
            None => None,
        },
        MemoryTokenKind::Push => match spec_load_data(s, val, file_name) {
            Some(d) => Some(seq![10u8] + command + d + push_to_sp() + seq![10u8]),
            None => None,
        },
    }
}

/// A binary operation that updates the new top of the stack in place.
pub open spec fn two_elements_code(name: Seq<u8>, operand: Seq<u8>) -> Seq<u8> {
    comment_open() + name + seq![10u8] + pop_from_sp() + update_in_place() + operand
        + d_line_end()
}

/// A comparison: the difference of the two top values, then `-1` or `0`
/// by a jump to labels numbered `idx`.
pub open spec fn comparison_code(name: Seq<u8>, jump: Seq<u8>, idx: nat) -> Seq<u8> {
    let d = nat_digits(idx);
    comment_open() + name + seq![10u8] + pop_from_sp() + write_comparison() + at_true() + d + jump_d()
        + jump + write_false() + d + jump_true_label() + d + write_true() + d + close_label()
}

/// The arithmetic commands, in the order a reader tries them.
#[derive(Debug, PartialEq, Eq, Structural, Clone, Copy)]
pub enum ArithmeticTokens {
    Add,
    Sub,
    Neg,
    Eq,
    Gt,
    Lt,
    And,
    Or,
    Not,
}

/// The Hack code of an arithmetic command, comparisons labelled `idx`.
pub open spec fn arithmetic_code(a: ArithmeticTokens, idx: nat) -> Seq<u8> {
    match a {
        ArithmeticTokens::Add => two_elements_code(word_add(), op_plus()),
        ArithmeticTokens::Sub => two_elements_code(word_sub(), op_minus()),
        ArithmeticTokens::Neg => neg_text(),
        ArithmeticTokens::Eq => comparison_code(word_eq(), jump_eq(), idx),
        ArithmeticTokens::Gt => comparison_code(word_gt(), jump_gt(), idx),
        ArithmeticTokens::Lt => comparison_code(word_lt(), jump_lt(), idx),
        ArithmeticTokens::Not => not_text(),
        ArithmeticTokens::Or => two_elements_code(word_or(), op_or()),
        ArithmeticTokens::And => two_elements_code(word_and(), op_and()),
    }
}

/// `label`, `goto` and `if-goto`.
#[derive(Debug, PartialEq, Eq, Structural, Clone, Copy)]
pub enum BranchTokenKind {
    Label,
    Goto,
    IfGoto,
}

/// The Hack code of a branching command.
pub open spec fn branch_code(k: BranchTokenKind, name: Seq<u8>) -> Seq<u8> {
    match k {
        BranchTokenKind::Label => seq![40u8] + name + seq![41u8],
        BranchTokenKind::Goto => goto_open() + name + goto_close(),
        BranchTokenKind::IfGoto => if_goto_open() + pop_from_sp() + if_goto_at() + name
            + if_goto_close(),
    }
}

/// The value of a number word, each byte added as `v * 10 - 48 + byte`.
pub open spec fn word_value(s: Seq<u8>) -> int
    decreases s.len(),
{
    if s.len() == 0 {
        0
    } else {
        word_value(s.drop_last()) * 10 - 48 + s.last()
    }
}

/// Every step of the value's computation stays within `i16`.
pub open spec fn word_value_ok(s: Seq<u8>) -> bool
    decreases s.len(),
{
    if s.len() == 0 {
        true
    } else {
        let v = word_value(s.drop_last());
        &&& word_value_ok(s.drop_last())
        &&& i16::MIN <= v * 10 <= i16::MAX
        &&& i16::MIN <= v * 10 - 48 <= i16::MAX
        &&& i16::MIN <= v * 10 - 48 + s.last() <= i16::MAX
    }
}

/// The end of the word that starts at `p`: the next space or the end.
pub open spec fn word_end(b: Seq<u8>, p: int) -> int {
    byte_pos(b, 32u8, p)
}

/// The segment and value of a memory command whose keyword ends at `e`.
pub open spec fn memory_operands(b: Seq<u8>, e: int) -> Option<(Segment, i16)> {
    let p = e + 1;
    if p > b.len() {
        None
    } else {
        let e2 = word_end(b, p);
        match spec_segment_named(b.subrange(p, e2)) {
            None => None,
            Some(s) => {
                let p2 = e2 + 1;
                if p2 > b.len() {
                    None
                } else {
                    let w = b.subrange(p2, word_end(b, p2));
                    if word_value_ok(w) {
                        Some((s, word_value(w) as i16))
                    } else {
                        None
                    }
                }
            },
        }
    }
}

/// The label name of a branching command whose keyword ends at `e`.
pub open spec fn branch_operand(b: Seq<u8>, e: int) -> Option<Seq<u8>> {
    let p = e + 1;
    if p > b.len() {
        None
    } else {
        Some(b.subrange(p, word_end(b, p)))
    }
}

/// The Hack code of the command whose keyword is `b[p..e]`.
pub open spec fn command_code(b: Seq<u8>, file_name: Seq<u8>, idx: nat, p: int, e: int) -> Option<
    Seq<u8>,
> {
    let w = b.subrange(p, e);
    if w == word_push() || w == word_pop() {
        let kind = if w == word_push() {
            MemoryTokenKind::Push
        } else {
            MemoryTokenKind::Pop
        };
        match memory_operands(b, e) {
            Some((s, v)) => memory_code(kind, s, v, file_name),
            None => None,
        }
    } else if w == word_add() {
        Some(arithmetic_code(ArithmeticTokens::Add, idx))
    } else if w == word_sub() {
        Some(arithmetic_code(ArithmeticTokens::Sub, idx))
    } else if w == word_neg() {
        Some(arithmetic_code(ArithmeticTokens::Neg, idx))
    } else if w == word_eq() {
        Some(arithmetic_code(ArithmeticTokens::Eq, idx))
    } else if w == word_gt() {
        Some(arithmetic_code(ArithmeticTokens::Gt, idx))
    } else if w == word_lt() {
        Some(arithmetic_code(ArithmeticTokens::Lt, idx))
    } else if w == word_and() {
        Some(arithmetic_code(ArithmeticTokens::And, idx))
    } else if w == word_or() {
        Some(arithmetic_code(ArithmeticTokens::Or, idx))
    } else if w == word_not() {
        Some(arithmetic_code(ArithmeticTokens::Not, idx))
    } else if w == word_label() || w == word_goto() || w == word_if_goto() {
        let k = if w == word_label() {
            BranchTokenKind::Label
        } else if w == word_goto() {
            BranchTokenKind::Goto
        } else {
            BranchTokenKind::IfGoto
        };
        match branch_operand(b, e) {
            Some(name) => Some(branch_code(k, name)),
            None => None,
        }
    } else {
        None
    }
}

/// The Hack code of a line from position `p` on: blanks are skipped, a
/// comment gives nothing, and the first word is the command.
pub open spec fn assemble_from(b: Seq<u8>, file_name: Seq<u8>, idx: nat, p: int) -> Option<
    Seq<u8>,
>
    decreases b.len() - p,
{
    if p < 0 || p >= b.len() {
        Some(seq![])
    } else if b[p] == 32u8 || b[p] == 9u8 {
        assemble_from(b, file_name, idx, p + 1)
    } else if b[p] == 47u8 {
        if p + 1 < b.len() && b[p + 1] == 47u8 {
            Some(seq![])
        } else {
            None
        }
    } else {
        command_code(b, file_name, idx, p, word_end(b, p))
    }
}

/// The Hack code of one line of VM text; `None` for a line that is not a
/// command the translator knows.
pub open spec fn spec_assemble(b: Seq<u8>, file_name: Seq<u8>, idx: nat) -> Option<Seq<u8>> {
    assemble_from(b, file_name, idx, 0)
}

fn cell_exists(s: Segment, val: i16, saving: bool, file_name: &[u8]) -> (r: bool)
    ensures
        saving ==> r == spec_save_data(s, val, file_name@) is Some,
        !saving ==> r == spec_load_data(s, val, file_name@) is Some,
{
    match s {
        Segment::Const => !saving,
        Segment::Temp => val <= 32762,
        Segment::Pointer => val == 0 || val == 1,
        _ => true,
    }
}

fn memory_command(kind: MemoryTokenKind, s: Segment, val: i16, file_name: &[u8]) -> (r: Option<
    Vec<u8>,
>)
    ensures
        match memory_code(kind, s, val, file_name@) {
            Some(c) => r matches Some(v) && v@ == c,
            None => r is None,
        },
{
    let mut out: Vec<u8> = Vec::new();
    out.push(10);
    push_all(&mut out, comment_open_bytes());
    match kind {
        MemoryTokenKind::Pop => push_all(&mut out, debug_pop_bytes()),
        MemoryTokenKind::Push => push_all(&mut out, debug_push_bytes()),
    }
    out.push(32);
    let name: &[u8] = match s {
        Segment::Arg => debug_arg_bytes(),
        Segment::Const => debug_const_bytes(),
        Segment::Pointer => debug_pointer_bytes(),
        Segment::Static => debug_static_bytes(),
        Segment::Local => debug_local_bytes(),
        Segment::Temp => debug_temp_bytes(),
        Segment::That => debug_that_bytes(),
        Segment::This => debug_this_bytes(),
    };
    push_all(&mut out, name);
    out.push(32);
    push_int(&mut out, val as i64);
    out.push(10);
    let ghost command = comment_open() + kind_debug(kind) + seq![32u8] + segment_debug(s) + seq![
        32u8,
    ] + int_text(val as int) + seq![10u8];
    assert(out@ =~= seq![10u8] + command);
    match kind {
        MemoryTokenKind::Pop => {
            if !cell_exists(s, val, true, file_name) {
                return None;
            }
            push_all(&mut out, pop_from_sp_bytes());
            let d = s.save_data(val, file_name);
            push_all(&mut out, d.as_slice());
        },
        MemoryTokenKind::Push => {
            if !cell_exists(s, val, false, file_name) {
                return None;
            }
            let d = s.load_data(val, file_name);
            push_all(&mut out, d.as_slice());
            push_all(&mut out, push_to_sp_bytes());
        },
    }
    out.push(10);
    assert(out@ =~= memory_code(kind, s, val, file_name@)->Some_0);
    Some(out)
}

fn two_elements(out: &mut Vec<u8>, name: &[u8], operand: &[u8])
    ensures
        final(out)@ == old(out)@ + two_elements_code(name@, operand@),
{
    push_all(out, comment_open_bytes());
    push_all(out, name);
    out.push(10);
    push_all(out, pop_from_sp_bytes());
    push_all(out, update_in_place_bytes());
    push_all(out, operand);
    push_all(out, d_line_end_bytes());
    assert(out@ =~= old(out)@ + two_elements_code(name@, operand@));
}

fn comparison_operation(out: &mut Vec<u8>, name: &[u8], jump: &[u8], idx: usize)
    ensures
        final(out)@ == old(out)@ + comparison_code(name@, jump@, idx as nat),
{
    assert(idx as u64 == idx);
    push_all(out, comment_open_bytes());
    push_all(out, name);
    out.push(10);
    push_all(out, pop_from_sp_bytes());
    push_all(out, write_comparison_bytes());
    push_all(out, at_true_bytes());
    push_digits(out, idx as u64);
    push_all(out, jump_d_bytes());
    push_all(out, jump);
    push_all(out, write_false_bytes());
    push_digits(out, idx as u64);
    push_all(out, jump_true_label_bytes());
    push_digits(out, idx as u64);
    push_all(out, write_true_bytes());
    push_digits(out, idx as u64);
    push_all(out, close_label_bytes());
    assert(out@ =~= old(out)@ + comparison_code(name@, jump@, idx as nat));
}

impl ArithmeticTokens {
    /// Appends the command's Hack code, comparisons labelled `idx`.
    pub fn assemble(&self, out: &mut Vec<u8>, idx: usize)
        ensures
            final(out)@ == old(out)@ + arithmetic_code(*self, idx as nat),
    {
        match self {
            ArithmeticTokens::Add => two_elements(out, word_add_bytes(), op_plus_bytes()),
            ArithmeticTokens::Sub => two_elements(out, word_sub_bytes(), op_minus_bytes()),
            ArithmeticTokens::Neg => push_all(out, neg_text_bytes()),
            ArithmeticTokens::Eq => comparison_operation(out, word_eq_bytes(), jump_eq_bytes(), idx),
            ArithmeticTokens::Gt => comparison_operation(out, word_gt_bytes(), jump_gt_bytes(), idx),
            ArithmeticTokens::Lt => comparison_operation(out, word_lt_bytes(), jump_lt_bytes(), idx),
            ArithmeticTokens::Not => push_all(out, not_text_bytes()),
            ArithmeticTokens::Or => two_elements(out, word_or_bytes(), op_or_bytes()),
            ArithmeticTokens::And => two_elements(out, word_and_bytes(), op_and_bytes()),
        }
    }
}

impl BranchTokenKind {
    /// Appends the Hack code of a branching command to `name`.
    pub fn assemble(&self, out: &mut Vec<u8>, name: &[u8])
        ensures
            final(out)@ == old(out)@ + branch_code(*self, name@),
    {
        match self {
            BranchTokenKind::Label => {
                out.push(40);
                push_all(out, name);
                out.push(41);
            },
            BranchTokenKind::Goto => {
                push_all(out, goto_open_bytes());
                push_all(out, name);
                push_all(out, goto_close_bytes());
            },
            BranchTokenKind::IfGoto => {
                push_all(out, if_goto_open_bytes());
                push_all(out, pop_from_sp_bytes());
                push_all(out, if_goto_at_bytes());
                push_all(out, name);
                push_all(out, if_goto_close_bytes());
            },
        }
        assert(out@ =~= old(out)@ + branch_code(*self, name@));
    }
}

/// A computation that stays in range does so on every prefix.
pub proof fn lemma_word_value_ok_prefix(s: Seq<u8>, k: int)
    requires
        0 <= k <= s.len(),
        word_value_ok(s),
    ensures
        word_value_ok(s.subrange(0, k)),
    decreases s.len(),
{
    if k < s.len() {
        assert(s.drop_last() =~= s.subrange(0, s.len() - 1));
        lemma_word_value_ok_prefix(s.drop_last(), k);
        assert(s.drop_last().subrange(0, k) =~= s.subrange(0, k));
    } else {
        assert(s.subrange(0, k) =~= s);
    }
}

/// The value of a number word, if every step stays within `i16`.
pub fn word_value_checked(w: &[u8]) -> (r: Option<i16>)
    ensures
        r is Some == word_value_ok(w@),
        r matches Some(v) ==> v == word_value(w@),
{
    let mut v: i32 = 0;
    let mut i: usize = 0;
    assert(w@.subrange(0, 0) =~= Seq::<u8>::empty());
    while i < w.len()
        invariant
            i <= w@.len(),
            word_value_ok(w@.subrange(0, i as int)),
            v == word_value(w@.subrange(0, i as int)),
            -32768 <= v <= 32767,
        decreases w@.len() - i,
    {
        let x = w[i];
        let ghost p = w@.subrange(0, i + 1);
        proof {
            assert(p.drop_last() =~= w@.subrange(0, i as int));
            assert(p.last() == x);
        }
        let t1: i32 = v * 10;
        if t1 < -32768 || t1 > 32767 {
            proof {
                if word_value_ok(w@) {
                    lemma_word_value_ok_prefix(w@, i + 1);
                }
            }
            return None;
        }
        let t2: i32 = t1 - 48;
        if t2 < -32768 || t2 > 32767 {
            proof {
                if word_value_ok(w@) {
                    lemma_word_value_ok_prefix(w@, i + 1);
                }
            }
            return None;
        }
        let t3: i32 = t2 + x as i32;
        if t3 < -32768 || t3 > 32767 {
            proof {
                if word_value_ok(w@) {
                    lemma_word_value_ok_prefix(w@, i + 1);
                }
            }
            return None;
        }
        v = t3;
        i = i + 1;
    }
    assert(w@.subrange(0, i as int) =~= w@);
    Some(v as i16)
}

fn memory_operands_exec(b: &[u8], e: usize) -> (r: Option<(Segment, i16)>)
    requires
        e <= b@.len(),
    ensures
        r == memory_operands(b@, e as int),
{
    if e >= b.len() {
        return None;
    }
    let p = e + 1;
    let e2 = find_byte(b, 32, p);
    let segment = match Segment::from_name(slice_subrange(b, p, e2)) {
        Some(s) => s,
        None => {
            return None;
        },
    };
    if e2 >= b.len() {
        return None;
    }
    let p2 = e2 + 1;
    let e3 = find_byte(b, 32, p2);
    match word_value_checked(slice_subrange(b, p2, e3)) {
        Some(v) => Some((segment, v)),
        None => None,
    }
}

fn command_exec(b: &[u8], file_name: &[u8], idx: usize, p: usize, e: usize) -> (r: Option<Vec<u8>>)
    requires
        p <= e <= b@.len(),
    ensures
        match command_code(b@, file_name@, idx as nat, p as int, e as int) {
            Some(c) => r matches Some(v) && v@ == c,
            None => r is None,
        },
{
    let w = slice_subrange(b, p, e);
    let is_push = bytes_equal(w, word_push_bytes());
    let is_pop = bytes_equal(w, word_pop_bytes());
    if is_push || is_pop {
        let kind = if is_push {
            MemoryTokenKind::Push
        } else {
            MemoryTokenKind::Pop
        };
        return match memory_operands_exec(b, e) {
            Some((s, v)) => memory_command(kind, s, v, file_name),
            None => None,
        };
    }
    let arith = if bytes_equal(w, word_add_bytes()) {
        Some(ArithmeticTokens::Add)
    } else if bytes_equal(w, word_sub_bytes()) {
        Some(ArithmeticTokens::Sub)
    } else if bytes_equal(w, word_neg_bytes()) {
        Some(ArithmeticTokens::Neg)
    } else if bytes_equal(w, word_eq_bytes()) {
        Some(ArithmeticTokens::Eq)
    } else if bytes_equal(w, word_gt_bytes()) {
        Some(ArithmeticTokens::Gt)
    } else if bytes_equal(w, word_lt_bytes()) {
        Some(ArithmeticTokens::Lt)
    } else if bytes_equal(w, word_and_bytes()) {
        Some(ArithmeticTokens::And)
    } else if bytes_equal(w, word_or_bytes()) {
        Some(ArithmeticTokens::Or)
    } else if bytes_equal(w, word_not_bytes()) {
        Some(ArithmeticTokens::Not)
    } else {
        None
    };
    match arith {
        Some(a) => {
            let mut out: Vec<u8> = Vec::new();
            a.assemble(&mut out, idx);
            assert(out@ =~= arithmetic_code(a, idx as nat));
            return Some(out);
        },
        None => {},
    }
    let branch = if bytes_equal(w, word_label_bytes()) {
        Some(BranchTokenKind::Label)
    } else if bytes_equal(w, word_goto_bytes()) {
        Some(BranchTokenKind::Goto)
    } else if bytes_equal(w, word_if_goto_bytes()) {
        Some(BranchTokenKind::IfGoto)
    } else {
        None
    };
    match branch {
        Some(k) => {
            if e >= b.len() {
                return None;
            }
            let q = e + 1;
            let q_end = find_byte(b, 32, q);
            let mut out: Vec<u8> = Vec::new();
            k.assemble(&mut out, slice_subrange(b, q, q_end));
            assert(out@ =~= branch_code(k, b@.subrange(q as int, q_end as int)));
            Some(out)
        },
        None => None,
    }
}

/// The Hack code of one line of VM text, or `None` where the line is not a
/// command the translator knows.
pub fn try_assemble(s: &[u8], file_name: &[u8], idx: usize) -> (r: Option<Vec<u8>>)
    ensures
        match spec_assemble(s@, file_name@, idx as nat) {
            Some(c) => r matches Some(v) && v@ == c,
            None => r is None,
        },
{
    let l = s.len();
    let mut pointer: usize = 0;
    while pointer < l
        invariant
            l == s@.len(),
            pointer <= l,
            spec_assemble(s@, file_name@, idx as nat) == assemble_from(
                s@,
                file_name@,
                idx as nat,
                pointer as int,
            ),
        decreases l - pointer,
    {
        let c = s[pointer];
        if c == 32 || c == 9 {
            pointer = pointer + 1;
        } else if c == 47 {
            if pointer + 1 < l && s[pointer + 1] == 47 {
                return Some(Vec::new());
            }
            return None;
        } else {
            let new_pointer = find_byte(s, 32, pointer);
            return command_exec(s, file_name, idx, pointer, new_pointer);
        }
    }
    Some(Vec::new())
}

/// The Hack code of one line of VM text: a blank or comment line gives
/// nothing; a command gives its code after a comment that names it.
pub fn assemble(s: &[u8], file_name: &[u8], idx: usize) -> (r: Vec<u8>)
    requires
        spec_assemble(s@, file_name@, idx as nat) is Some,
    ensures
        r@ == spec_assemble(s@, file_name@, idx as nat)->Some_0,
{
    match try_assemble(s, file_name, idx) {
        Some(v) => v,
        None => Vec::new(),
    }
}

/// A line of blanks gives no code.
pub proof fn lemma_blank_line(b: Seq<u8>, file_name: Seq<u8>, idx: nat, p: int)
    requires
        0 <= p <= b.len(),
        forall|i: int| p <= i < b.len() ==> #[trigger] b[i] == 32u8 || b[i] == 9u8,
    ensures
        assemble_from(b, file_name, idx, p) == Some(Seq::<u8>::empty()),
    decreases b.len() - p,
{
    if p < b.len() {
        lemma_blank_line(b, file_name, idx, p + 1);
    }
}

/// A line of blanks then a `//` comment gives no code.
pub proof fn lemma_comment_line(b: Seq<u8>, file_name: Seq<u8>, idx: nat, p: int, k: int)
    requires
        0 <= p <= k,
        k + 1 < b.len(),
        b[k] == 47u8,
        b[k + 1] == 47u8,
        forall|i: int| p <= i < k ==> #[trigger] b[i] == 32u8 || b[i] == 9u8,
    ensures
        assemble_from(b, file_name, idx, p) == Some(Seq::<u8>::empty()),
    decreases k - p,
{
    if p < k {
        lemma_comment_line(b, file_name, idx, p + 1, k);
    }
}

} // verus!

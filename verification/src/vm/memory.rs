use vstd::prelude::*;

use crate::util::{int_text, push_all, push_int};

use super::tokens::{MemoryToken, MemoryTokenKind, Segment};

verus! {

/// `// Set const value to D`
pub open spec fn set_const_comment() -> Seq<u8> {
    seq![47u8, 47u8, 32u8, 83u8, 101u8, 116u8, 32u8, 99u8, 111u8, 110u8, 115u8, 116u8, 32u8, 118u8, 97u8, 108u8, 117u8, 101u8, 32u8, 116u8, 111u8, 32u8, 68u8]
}

pub(crate) fn set_const_comment_line() -> (r: Vec<u8>)
    ensures
        r@ == set_const_comment(),
{
    let mut v: Vec<u8> = Vec::new();
    push_all(&mut v, &[47u8, 47u8, 32u8, 83u8, 101u8, 116u8, 32u8, 99u8, 111u8, 110u8, 115u8, 116u8, 32u8, 118u8, 97u8, 108u8, 117u8, 101u8, 32u8, 116u8, 111u8, 32u8, 68u8]);
    assert(v@ =~= set_const_comment());
    v
}

/// `D=A`
pub open spec fn d_eq_a() -> Seq<u8> {
    seq![68u8, 61u8, 65u8]
}

pub(crate) fn d_eq_a_line() -> (r: Vec<u8>)
    ensures
        r@ == d_eq_a(),
{
    let mut v: Vec<u8> = Vec::new();
    push_all(&mut v, &[68u8, 61u8, 65u8]);
    assert(v@ =~= d_eq_a());
    v
}

/// `D=M`
pub open spec fn d_eq_m() -> Seq<u8> {
    seq![68u8, 61u8, 77u8]
}

pub(crate) fn d_eq_m_line() -> (r: Vec<u8>)
    ensures
        r@ == d_eq_m(),
{
    let mut v: Vec<u8> = Vec::new();
    push_all(&mut v, &[68u8, 61u8, 77u8]);
    assert(v@ =~= d_eq_m());
    v
}

/// `M=D`
pub open spec fn m_eq_d() -> Seq<u8> {
    seq![77u8, 61u8, 68u8]
}

pub(crate) fn m_eq_d_line() -> (r: Vec<u8>)
    ensures
        r@ == m_eq_d(),
{
    let mut v: Vec<u8> = Vec::new();
    push_all(&mut v, &[77u8, 61u8, 68u8]);
    assert(v@ =~= m_eq_d());
    v
}

/// `A=M`
pub open spec fn a_eq_m() -> Seq<u8> {
    seq![65u8, 61u8, 77u8]
}

pub(crate) fn a_eq_m_line() -> (r: Vec<u8>)
    ensures
        r@ == a_eq_m(),
{
    let mut v: Vec<u8> = Vec::new();
    push_all(&mut v, &[65u8, 61u8, 77u8]);
    assert(v@ =~= a_eq_m());
    v
}

/// `A=A+1`
pub open spec fn a_eq_a_plus_1() -> Seq<u8> {
    seq![65u8, 61u8, 65u8, 43u8, 49u8]
}

pub(crate) fn a_eq_a_plus_1_line() -> (r: Vec<u8>)
    ensures
        r@ == a_eq_a_plus_1(),
{
    let mut v: Vec<u8> = Vec::new();
    push_all(&mut v, &[65u8, 61u8, 65u8, 43u8, 49u8]);
    assert(v@ =~= a_eq_a_plus_1());
    v
}

/// `A=D+A`
pub open spec fn a_eq_d_plus_a() -> Seq<u8> {
    seq![65u8, 61u8, 68u8, 43u8, 65u8]
}

pub(crate) fn a_eq_d_plus_a_line() -> (r: Vec<u8>)
    ensures
        r@ == a_eq_d_plus_a(),
{
    let mut v: Vec<u8> = Vec::new();
    push_all(&mut v, &[65u8, 61u8, 68u8, 43u8, 65u8]);
    assert(v@ =~= a_eq_d_plus_a());
    v
}

/// `D=D+A`
pub open spec fn d_eq_d_plus_a() -> Seq<u8> {
    seq![68u8, 61u8, 68u8, 43u8, 65u8]
}

pub(crate) fn d_eq_d_plus_a_line() -> (r: Vec<u8>)
    ensures
        r@ == d_eq_d_plus_a(),
{
    let mut v: Vec<u8> = Vec::new();
    push_all(&mut v, &[68u8, 61u8, 68u8, 43u8, 65u8]);
    assert(v@ =~= d_eq_d_plus_a());
    v
}

/// `@SP`
pub open spec fn at_sp() -> Seq<u8> {
    seq![64u8, 83u8, 80u8]
}

pub(crate) fn at_sp_line() -> (r: Vec<u8>)
    ensures
        r@ == at_sp(),
{
    let mut v: Vec<u8> = Vec::new();
    push_all(&mut v, &[64u8, 83u8, 80u8]);
    assert(v@ =~= at_sp());
    v
}

/// `M=M-1`
pub open spec fn m_eq_m_minus_1() -> Seq<u8> {
    seq![77u8, 61u8, 77u8, 45u8, 49u8]
}

pub(crate) fn m_eq_m_minus_1_line() -> (r: Vec<u8>)
    ensures
        r@ == m_eq_m_minus_1(),
{
    let mut v: Vec<u8> = Vec::new();
    push_all(&mut v, &[77u8, 61u8, 77u8, 45u8, 49u8]);
    assert(v@ =~= m_eq_m_minus_1());
    v
}

/// `M=M+1`
pub open spec fn m_eq_m_plus_1() -> Seq<u8> {
    seq![77u8, 61u8, 77u8, 43u8, 49u8]
}

pub(crate) fn m_eq_m_plus_1_line() -> (r: Vec<u8>)
    ensures
        r@ == m_eq_m_plus_1(),
{
    let mut v: Vec<u8> = Vec::new();
    push_all(&mut v, &[77u8, 61u8, 77u8, 43u8, 49u8]);
    assert(v@ =~= m_eq_m_plus_1());
    v
}

/// `// Decriment SP`
pub open spec fn decrement_sp_comment() -> Seq<u8> {
    seq![47u8, 47u8, 32u8, 68u8, 101u8, 99u8, 114u8, 105u8, 109u8, 101u8, 110u8, 116u8, 32u8, 83u8, 80u8]
}

pub(crate) fn decrement_sp_comment_line() -> (r: Vec<u8>)
    ensures
        r@ == decrement_sp_comment(),
{
    let mut v: Vec<u8> = Vec::new();
    push_all(&mut v, &[47u8, 47u8, 32u8, 68u8, 101u8, 99u8, 114u8, 105u8, 109u8, 101u8, 110u8, 116u8, 32u8, 83u8, 80u8]);
    assert(v@ =~= decrement_sp_comment());
    v
}

/// `// Extract value from SP to D`
pub open spec fn extract_comment() -> Seq<u8> {
    seq![47u8, 47u8, 32u8, 69u8, 120u8, 116u8, 114u8, 97u8, 99u8, 116u8, 32u8, 118u8, 97u8, 108u8, 117u8, 101u8, 32u8, 102u8, 114u8, 111u8, 109u8, 32u8, 83u8, 80u8, 32u8, 116u8, 111u8, 32u8, 68u8]
}

pub(crate) fn extract_comment_line() -> (r: Vec<u8>)
    ensures
        r@ == extract_comment(),
{
    let mut v: Vec<u8> = Vec::new();
    push_all(&mut v, &[47u8, 47u8, 32u8, 69u8, 120u8, 116u8, 114u8, 97u8, 99u8, 116u8, 32u8, 118u8, 97u8, 108u8, 117u8, 101u8, 32u8, 102u8, 114u8, 111u8, 109u8, 32u8, 83u8, 80u8, 32u8, 116u8, 111u8, 32u8, 68u8]);
    assert(v@ =~= extract_comment());
    v
}

/// `// Write value to SP from D`
pub open spec fn write_value_comment() -> Seq<u8> {
    seq![47u8, 47u8, 32u8, 87u8, 114u8, 105u8, 116u8, 101u8, 32u8, 118u8, 97u8, 108u8, 117u8, 101u8, 32u8, 116u8, 111u8, 32u8, 83u8, 80u8, 32u8, 102u8, 114u8, 111u8, 109u8, 32u8, 68u8]
}

pub(crate) fn write_value_comment_line() -> (r: Vec<u8>)
    ensures
        r@ == write_value_comment(),
{
    let mut v: Vec<u8> = Vec::new();
    push_all(&mut v, &[47u8, 47u8, 32u8, 87u8, 114u8, 105u8, 116u8, 101u8, 32u8, 118u8, 97u8, 108u8, 117u8, 101u8, 32u8, 116u8, 111u8, 32u8, 83u8, 80u8, 32u8, 102u8, 114u8, 111u8, 109u8, 32u8, 68u8]);
    assert(v@ =~= write_value_comment());
    v
}

/// `// Incriment sp`
pub open spec fn increment_sp_comment() -> Seq<u8> {
    seq![47u8, 47u8, 32u8, 73u8, 110u8, 99u8, 114u8, 105u8, 109u8, 101u8, 110u8, 116u8, 32u8, 115u8, 112u8]
}

pub(crate) fn increment_sp_comment_line() -> (r: Vec<u8>)
    ensures
        r@ == increment_sp_comment(),
{
    let mut v: Vec<u8> = Vec::new();
    push_all(&mut v, &[47u8, 47u8, 32u8, 73u8, 110u8, 99u8, 114u8, 105u8, 109u8, 101u8, 110u8, 116u8, 32u8, 115u8, 112u8]);
    assert(v@ =~= increment_sp_comment());
    v
}

/// `// Start Prepare`
pub open spec fn start_prepare_comment() -> Seq<u8> {
    seq![47u8, 47u8, 32u8, 83u8, 116u8, 97u8, 114u8, 116u8, 32u8, 80u8, 114u8, 101u8, 112u8, 97u8, 114u8, 101u8]
}

pub(crate) fn start_prepare_comment_line() -> (r: Vec<u8>)
    ensures
        r@ == start_prepare_comment(),
{
    let mut v: Vec<u8> = Vec::new();
    push_all(&mut v, &[47u8, 47u8, 32u8, 83u8, 116u8, 97u8, 114u8, 116u8, 32u8, 80u8, 114u8, 101u8, 112u8, 97u8, 114u8, 101u8]);
    assert(v@ =~= start_prepare_comment());
    v
}

/// `// End Prepare`
pub open spec fn end_prepare_comment() -> Seq<u8> {
    seq![47u8, 47u8, 32u8, 69u8, 110u8, 100u8, 32u8, 80u8, 114u8, 101u8, 112u8, 97u8, 114u8, 101u8]
}

pub(crate) fn end_prepare_comment_line() -> (r: Vec<u8>)
    ensures
        r@ == end_prepare_comment(),
{
    let mut v: Vec<u8> = Vec::new();
    push_all(&mut v, &[47u8, 47u8, 32u8, 69u8, 110u8, 100u8, 32u8, 80u8, 114u8, 101u8, 112u8, 97u8, 114u8, 101u8]);
    assert(v@ =~= end_prepare_comment());
    v
}

/// `@R5`
pub open spec fn at_r5() -> Seq<u8> {
    seq![64u8, 82u8, 53u8]
}

pub(crate) fn at_r5_line() -> (r: Vec<u8>)
    ensures
        r@ == at_r5(),
{
    let mut v: Vec<u8> = Vec::new();
    push_all(&mut v, &[64u8, 82u8, 53u8]);
    assert(v@ =~= at_r5());
    v
}

/// `@THIS`
pub open spec fn at_this() -> Seq<u8> {
    seq![64u8, 84u8, 72u8, 73u8, 83u8]
}

pub(crate) fn at_this_line() -> (r: Vec<u8>)
    ensures
        r@ == at_this(),
{
    let mut v: Vec<u8> = Vec::new();
    push_all(&mut v, &[64u8, 84u8, 72u8, 73u8, 83u8]);
    assert(v@ =~= at_this());
    v
}

/// `@THAT`
pub open spec fn at_that() -> Seq<u8> {
    seq![64u8, 84u8, 72u8, 65u8, 84u8]
}

pub(crate) fn at_that_line() -> (r: Vec<u8>)
    ensures
        r@ == at_that(),
{
    let mut v: Vec<u8> = Vec::new();
    push_all(&mut v, &[64u8, 84u8, 72u8, 65u8, 84u8]);
    assert(v@ =~= at_that());
    v
}

/// `@ARG`
pub open spec fn at_arg() -> Seq<u8> {
    seq![64u8, 65u8, 82u8, 71u8]
}

pub(crate) fn at_arg_line() -> (r: Vec<u8>)
    ensures
        r@ == at_arg(),
{
    let mut v: Vec<u8> = Vec::new();
    push_all(&mut v, &[64u8, 65u8, 82u8, 71u8]);
    assert(v@ =~= at_arg());
    v
}

/// `@LCL`
pub open spec fn at_lcl() -> Seq<u8> {
    seq![64u8, 76u8, 67u8, 76u8]
}

pub(crate) fn at_lcl_line() -> (r: Vec<u8>)
    ensures
        r@ == at_lcl(),
{
    let mut v: Vec<u8> = Vec::new();
    push_all(&mut v, &[64u8, 76u8, 67u8, 76u8]);
    assert(v@ =~= at_lcl());
    v
}


/// Takes the top of the stack into `D`.
pub open spec fn pop_lines() -> Seq<Seq<u8>> {
    seq![
        decrement_sp_comment(),
        at_sp(),
        m_eq_m_minus_1(),
        extract_comment(),
        at_sp(),
        a_eq_m(),
        d_eq_m(),
    ]
}

/// Pushes `D` onto the stack.
pub open spec fn push_lines() -> Seq<Seq<u8>> {
    seq![
        write_value_comment(),
        at_sp(),
        a_eq_m(),
        m_eq_d(),
        increment_sp_comment(),
        at_sp(),
        m_eq_m_plus_1(),
    ]
}

/// `@n`
pub open spec fn at_number(n: int) -> Seq<u8> {
    seq![64u8] + int_text(n)
}

/// The symbol of a pointer segment's base.
pub open spec fn segment_base(s: Segment) -> Seq<u8> {
    match s {
        Segment::Arg => at_arg(),
        Segment::Local => at_lcl(),
        Segment::This => at_this(),
        _ => at_that(),
    }
}

/// A pointer segment's cell far from its base: a pop reaches it through an
/// address computed beforehand.
pub open spec fn should_be_prepared(t: MemoryToken) -> bool {
    match t.segment {
        Segment::Const | Segment::Temp | Segment::Static | Segment::Pointer => false,
        _ => t.kind == MemoryTokenKind::Pop && t.val > 6,
    }
}

/// The address computation of a far pop, saved in `R5`.
pub open spec fn prepare_lines(t: MemoryToken) -> Seq<Seq<u8>> {
    if should_be_prepared(t) {
        seq![
            start_prepare_comment(),
            segment_base(t.segment),
            d_eq_m(),
            at_number(t.val as int),
            d_eq_d_plus_a(),
            at_r5(),
            m_eq_d(),
            end_prepare_comment(),
        ]
    } else {
        seq![]
    }
}

/// `A=M` then `A=A+1` `n` times.
pub open spec fn step_lines(n: int) -> Seq<Seq<u8>>
    decreases n,
{
    if n <= 0 {
        seq![a_eq_m()]
    } else {
        step_lines(n - 1).push(a_eq_a_plus_1())
    }
}

/// The lines that point `A` at the token's cell.
pub open spec fn address_lines(t: MemoryToken, prefix: Seq<u8>) -> Seq<Seq<u8>> {
    match t.segment {
        Segment::Temp => seq![at_number(t.val + 5)],
        Segment::Static => seq![seq![64u8] + prefix + seq![46u8] + int_text(t.val as int)],
        Segment::Pointer => if t.val == 0 {
            seq![at_this()]
        } else {
            seq![at_that()]
        },
        _ => if should_be_prepared(t) {
            seq![at_r5(), a_eq_m()]
        } else if t.val == 0 {
            seq![segment_base(t.segment), a_eq_m()]
        } else if t.val == 1 {
            seq![segment_base(t.segment), a_eq_m(), a_eq_a_plus_1()]
        } else if t.kind == MemoryTokenKind::Pop {
            seq![segment_base(t.segment)] + step_lines(t.val as int)
        } else {
            seq![segment_base(t.segment), d_eq_m(), at_number(t.val as int), a_eq_d_plus_a()]
        },
    }
}

/// The Hack instructions of a memory command, one line each; the static
/// cells are named after `prefix`. A constant is loaded into `D` and pushed;
/// other cells are addressed, popped into or read, and pushed.
pub open spec fn memory_lines(t: MemoryToken, prefix: Seq<u8>) -> Seq<Seq<u8>> {
    if t.segment == Segment::Const {
        seq![set_const_comment(), at_number(t.val as int), d_eq_a()] + push_lines()
    } else {
        let head = prepare_lines(t) + if t.kind == MemoryTokenKind::Pop {
            pop_lines()
        } else {
            seq![]
        };
        let body = head + address_lines(t, prefix);
        if t.kind == MemoryTokenKind::Push {
            body.push(d_eq_m()) + push_lines()
        } else {
            body.push(m_eq_d())
        }
    }
}

/// The memory commands that can be translated: no pop into a constant, a
/// pointer cell 0 or 1, a temp cell within the 16-bit range.
pub open spec fn memory_token_ok(t: MemoryToken) -> bool {
    &&& !(t.kind == MemoryTokenKind::Pop && t.segment == Segment::Const)
    &&& t.segment == Segment::Pointer ==> (t.val == 0 || t.val == 1)
    &&& t.segment == Segment::Temp ==> t.val + 5 <= i16::MAX
}

pub(crate) fn at_number_line(n: i16) -> (r: Vec<u8>)
    ensures
        r@ == at_number(n as int),
{
    let mut v: Vec<u8> = Vec::new();
    v.push(64);
    push_int(&mut v, n as i64);
    v
}

pub(crate) fn push_block(out: &mut Vec<Vec<u8>>)
    ensures
        views_of(final(out)@) == views_of(old(out)@) + push_lines(),
{
    let ghost o = views_of(out@);
    add_line(out, write_value_comment_line());
    add_line(out, at_sp_line());
    add_line(out, a_eq_m_line());
    add_line(out, m_eq_d_line());
    add_line(out, increment_sp_comment_line());
    add_line(out, at_sp_line());
    add_line(out, m_eq_m_plus_1_line());
    assert(views_of(out@) =~= o + push_lines());
}

pub(crate) fn pop_block(out: &mut Vec<Vec<u8>>)
    ensures
        views_of(final(out)@) == views_of(old(out)@) + pop_lines(),
{
    let ghost o = views_of(out@);
    add_line(out, decrement_sp_comment_line());
    add_line(out, at_sp_line());
    add_line(out, m_eq_m_minus_1_line());
    add_line(out, extract_comment_line());
    add_line(out, at_sp_line());
    add_line(out, a_eq_m_line());
    add_line(out, d_eq_m_line());
    assert(views_of(out@) =~= o + pop_lines());
}

/// The views of lines.
pub open spec fn views_of(s: Seq<Vec<u8>>) -> Seq<Seq<u8>> {
    s.map_values(|v: Vec<u8>| v@)
}

pub(crate) fn add_line(out: &mut Vec<Vec<u8>>, line: Vec<u8>)
    ensures
        views_of(final(out)@) == views_of(old(out)@).push(line@),
{
    let ghost l = line@;
    out.push(line);
    assert(views_of(final(out)@) =~= views_of(old(out)@).push(l));
}

pub(crate) fn segment_base_line(s: Segment) -> (r: Vec<u8>)
    ensures
        r@ == segment_base(s),
{
    match s {
        Segment::Arg => at_arg_line(),
        Segment::Local => at_lcl_line(),
        Segment::This => at_this_line(),
        _ => at_that_line(),
    }
}

fn needs_preparation(t: &MemoryToken) -> (r: bool)
    ensures
        r == should_be_prepared(*t),
{
    match t.segment {
        Segment::Const | Segment::Temp | Segment::Static | Segment::Pointer => false,
        _ => t.kind == MemoryTokenKind::Pop && t.val > 6,
    }
}

/// The Hack instructions of a memory command, one line each, the static
/// cells named after `prefix`.
pub fn translate_memory_token(token: &MemoryToken, prefix: &[u8]) -> (r: Vec<Vec<u8>>)
    requires
        memory_token_ok(*token),
    ensures
        views_of(r@) == memory_lines(*token, prefix@),
{
    let mut out: Vec<Vec<u8>> = Vec::new();
    if token.segment == Segment::Const {
        add_line(&mut out, set_const_comment_line());
        add_line(&mut out, at_number_line(token.val));
        add_line(&mut out, d_eq_a_line());
        push_block(&mut out);
        assert(views_of(out@) =~= memory_lines(*token, prefix@));
        return out;
    }
    let prepared = needs_preparation(token);
    if prepared {
        add_line(&mut out, start_prepare_comment_line());
        add_line(&mut out, segment_base_line(token.segment));
        add_line(&mut out, d_eq_m_line());
        add_line(&mut out, at_number_line(token.val));
        add_line(&mut out, d_eq_d_plus_a_line());
        add_line(&mut out, at_r5_line());
        add_line(&mut out, m_eq_d_line());
        add_line(&mut out, end_prepare_comment_line());
    }
    assert(views_of(out@) =~= prepare_lines(*token));
    if token.kind == MemoryTokenKind::Pop {
        pop_block(&mut out);
    }
    let ghost head = views_of(out@);
    assert(head =~= prepare_lines(*token) + if token.kind == MemoryTokenKind::Pop {
        pop_lines()
    } else {
        seq![]
    });
    match token.segment {
        Segment::Const => {},
        Segment::Temp => {
            add_line(&mut out, at_number_line(token.val + 5));
            assert(views_of(out@) =~= head + address_lines(*token, prefix@));
        },
        Segment::Static => {
            let mut v: Vec<u8> = Vec::new();
            v.push(64);
            push_all(&mut v, prefix);
            v.push(46);
            push_int(&mut v, token.val as i64);
            assert(v@ =~= seq![64u8] + prefix@ + seq![46u8] + int_text(token.val as int));
            add_line(&mut out, v);
            assert(views_of(out@) =~= head + address_lines(*token, prefix@));
        },
        Segment::Pointer => {
            if token.val == 0 {
                add_line(&mut out, at_this_line());
            } else {
                add_line(&mut out, at_that_line());
            }
        },
        _ => {
            if prepared {
                add_line(&mut out, at_r5_line());
                add_line(&mut out, a_eq_m_line());
            } else {
                add_line(&mut out, segment_base_line(token.segment));
                if token.val == 0 {
                    add_line(&mut out, a_eq_m_line());
                } else if token.val == 1 {
                    add_line(&mut out, a_eq_m_line());
                    add_line(&mut out, a_eq_a_plus_1_line());
                } else if token.kind == MemoryTokenKind::Pop {
                    let ghost base = views_of(out@);
                    add_line(&mut out, a_eq_m_line());
                    assert(views_of(out@) =~= base + step_lines(0));
                    let mut k: i16 = 0;
                    while k < token.val
                        invariant
                            0 <= k,
                            token.val >= 0 ==> k <= token.val,
                            token.val < 0 ==> k == 0,
                            views_of(out@) == base + step_lines(k as int),
                        decreases token.val - k,
                    {
                        add_line(&mut out, a_eq_a_plus_1_line());
                        k = k + 1;
                        assert(views_of(out@) =~= base + step_lines(k as int));
                    }
                    proof {
                        if token.val < 0 {
                            assert(step_lines(token.val as int) == step_lines(0));
                            assert(k == 0);
                        }
                        assert(views_of(out@) =~= base + step_lines(token.val as int));
                    }
                    assert(views_of(out@) =~= head + address_lines(*token, prefix@));
                } else {
                    add_line(&mut out, d_eq_m_line());
                    add_line(&mut out, at_number_line(token.val));
                    add_line(&mut out, a_eq_d_plus_a_line());
                }
            }
        },
    }
    assert(views_of(out@) =~= head + address_lines(*token, prefix@));
    if token.kind == MemoryTokenKind::Push {
        add_line(&mut out, d_eq_m_line());
        push_block(&mut out);
    } else {
        add_line(&mut out, m_eq_d_line());
    }
    assert(views_of(out@) =~= memory_lines(*token, prefix@));
    out
}

/// The Hack lines of memory commands, spelt out.
pub proof fn lemma_memory_line_spellings()
    ensures
        set_const_comment() == seq!['/' as u8, '/' as u8, ' ' as u8, 'S' as u8, 'e' as u8, 't' as u8, ' ' as u8, 'c' as u8, 'o' as u8, 'n' as u8, 's' as u8, 't' as u8, ' ' as u8, 'v' as u8, 'a' as u8, 'l' as u8, 'u' as u8, 'e' as u8, ' ' as u8, 't' as u8, 'o' as u8, ' ' as u8, 'D' as u8],
        d_eq_a() == seq!['D' as u8, '=' as u8, 'A' as u8],
        d_eq_m() == seq!['D' as u8, '=' as u8, 'M' as u8],
        m_eq_d() == seq!['M' as u8, '=' as u8, 'D' as u8],
        a_eq_m() == seq!['A' as u8, '=' as u8, 'M' as u8],
        a_eq_a_plus_1() == seq!['A' as u8, '=' as u8, 'A' as u8, '+' as u8, '1' as u8],
        a_eq_d_plus_a() == seq!['A' as u8, '=' as u8, 'D' as u8, '+' as u8, 'A' as u8],
        d_eq_d_plus_a() == seq!['D' as u8, '=' as u8, 'D' as u8, '+' as u8, 'A' as u8],
        at_sp() == seq!['@' as u8, 'S' as u8, 'P' as u8],
        m_eq_m_minus_1() == seq!['M' as u8, '=' as u8, 'M' as u8, '-' as u8, '1' as u8],
        m_eq_m_plus_1() == seq!['M' as u8, '=' as u8, 'M' as u8, '+' as u8, '1' as u8],
        decrement_sp_comment() == seq!['/' as u8, '/' as u8, ' ' as u8, 'D' as u8, 'e' as u8, 'c' as u8, 'r' as u8, 'i' as u8, 'm' as u8, 'e' as u8, 'n' as u8, 't' as u8, ' ' as u8, 'S' as u8, 'P' as u8],
        extract_comment() == seq!['/' as u8, '/' as u8, ' ' as u8, 'E' as u8, 'x' as u8, 't' as u8, 'r' as u8, 'a' as u8, 'c' as u8, 't' as u8, ' ' as u8, 'v' as u8, 'a' as u8, 'l' as u8, 'u' as u8, 'e' as u8, ' ' as u8, 'f' as u8, 'r' as u8, 'o' as u8, 'm' as u8, ' ' as u8, 'S' as u8, 'P' as u8, ' ' as u8, 't' as u8, 'o' as u8, ' ' as u8, 'D' as u8],
        write_value_comment() == seq!['/' as u8, '/' as u8, ' ' as u8, 'W' as u8, 'r' as u8, 'i' as u8, 't' as u8, 'e' as u8, ' ' as u8, 'v' as u8, 'a' as u8, 'l' as u8, 'u' as u8, 'e' as u8, ' ' as u8, 't' as u8, 'o' as u8, ' ' as u8, 'S' as u8, 'P' as u8, ' ' as u8, 'f' as u8, 'r' as u8, 'o' as u8, 'm' as u8, ' ' as u8, 'D' as u8],
        increment_sp_comment() == seq!['/' as u8, '/' as u8, ' ' as u8, 'I' as u8, 'n' as u8, 'c' as u8, 'r' as u8, 'i' as u8, 'm' as u8, 'e' as u8, 'n' as u8, 't' as u8, ' ' as u8, 's' as u8, 'p' as u8],
        start_prepare_comment() == seq!['/' as u8, '/' as u8, ' ' as u8, 'S' as u8, 't' as u8, 'a' as u8, 'r' as u8, 't' as u8, ' ' as u8, 'P' as u8, 'r' as u8, 'e' as u8, 'p' as u8, 'a' as u8, 'r' as u8, 'e' as u8],
        end_prepare_comment() == seq!['/' as u8, '/' as u8, ' ' as u8, 'E' as u8, 'n' as u8, 'd' as u8, ' ' as u8, 'P' as u8, 'r' as u8, 'e' as u8, 'p' as u8, 'a' as u8, 'r' as u8, 'e' as u8],
        at_r5() == seq!['@' as u8, 'R' as u8, '5' as u8],
        at_this() == seq!['@' as u8, 'T' as u8, 'H' as u8, 'I' as u8, 'S' as u8],
        at_that() == seq!['@' as u8, 'T' as u8, 'H' as u8, 'A' as u8, 'T' as u8],
        at_arg() == seq!['@' as u8, 'A' as u8, 'R' as u8, 'G' as u8],
        at_lcl() == seq!['@' as u8, 'L' as u8, 'C' as u8, 'L' as u8],
{
}

} // verus!

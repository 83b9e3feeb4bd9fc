use vstd::prelude::*;

use crate::hack::instruction::{AInstruction, VariableFactory};
use crate::util::{int_text, nat_digits, push_all, push_digits, push_int};

use super::context::TranslateOpts;
use super::instructions::{
    AsmArithmeticInstruction, AsmBranchInstruction, AsmBranchInstructionKind,
    AsmFunctionInstruction, AsmInstructionPayload, AsmInstructionV, AsmMemoryInstruction,
    AsmMemoryInstructionKind, AsmMemoryInstructionSegment,
};
use super::memory::{
    a_eq_m, a_eq_m_line, add_line, at_arg, at_arg_line, at_lcl, at_lcl_line, at_number,
    at_number_line, at_sp, at_sp_line, d_eq_a, d_eq_a_line, d_eq_m, d_eq_m_line, m_eq_d,
    m_eq_d_line, memory_lines, pop_block, pop_lines, push_block, push_lines, segment_base,
    address_lines, memory_token_ok, segment_base_line, translate_memory_token, views_of,
};
use super::instructions::{memory_kind_text, segment_text};
use super::tokens::{
    memory_token_kind_text, vm_segment_text, MemoryToken, MemoryTokenKind, Segment,
};

verus! {

/// `A=M-1`
pub open spec fn a_eq_m_minus_1() -> Seq<u8> {
    seq![65u8, 61u8, 77u8, 45u8, 49u8]
}

fn a_eq_m_minus_1_line() -> (r: Vec<u8>)
    ensures
        r@ == a_eq_m_minus_1(),
{
    let mut v: Vec<u8> = Vec::new();
    push_all(&mut v, &[65u8, 61u8, 77u8, 45u8, 49u8]);
    assert(v@ =~= a_eq_m_minus_1());
    v
}

/// `M=-M`
pub open spec fn m_eq_neg_m() -> Seq<u8> {
    seq![77u8, 61u8, 45u8, 77u8]
}

fn m_eq_neg_m_line() -> (r: Vec<u8>)
    ensures
        r@ == m_eq_neg_m(),
{
    let mut v: Vec<u8> = Vec::new();
    push_all(&mut v, &[77u8, 61u8, 45u8, 77u8]);
    assert(v@ =~= m_eq_neg_m());
    v
}

/// `M=!M`
pub open spec fn m_eq_not_m() -> Seq<u8> {
    seq![77u8, 61u8, 33u8, 77u8]
}

fn m_eq_not_m_line() -> (r: Vec<u8>)
    ensures
        r@ == m_eq_not_m(),
{
    let mut v: Vec<u8> = Vec::new();
    push_all(&mut v, &[77u8, 61u8, 33u8, 77u8]);
    assert(v@ =~= m_eq_not_m());
    v
}

/// `M=D+M`
pub open spec fn m_eq_d_plus_m() -> Seq<u8> {
    seq![77u8, 61u8, 68u8, 43u8, 77u8]
}

fn m_eq_d_plus_m_line() -> (r: Vec<u8>)
    ensures
        r@ == m_eq_d_plus_m(),
{
    let mut v: Vec<u8> = Vec::new();
    push_all(&mut v, &[77u8, 61u8, 68u8, 43u8, 77u8]);
    assert(v@ =~= m_eq_d_plus_m());
    v
}

/// `M=M-D`
pub open spec fn m_eq_m_minus_d() -> Seq<u8> {
    seq![77u8, 61u8, 77u8, 45u8, 68u8]
}

fn m_eq_m_minus_d_line() -> (r: Vec<u8>)
    ensures
        r@ == m_eq_m_minus_d(),
{
    let mut v: Vec<u8> = Vec::new();
    push_all(&mut v, &[77u8, 61u8, 77u8, 45u8, 68u8]);
    assert(v@ =~= m_eq_m_minus_d());
    v
}

/// `M=D|M`
pub open spec fn m_eq_d_or_m() -> Seq<u8> {
    seq![77u8, 61u8, 68u8, 124u8, 77u8]
}

fn m_eq_d_or_m_line() -> (r: Vec<u8>)
    ensures
        r@ == m_eq_d_or_m(),
{
    let mut v: Vec<u8> = Vec::new();
    push_all(&mut v, &[77u8, 61u8, 68u8, 124u8, 77u8]);
    assert(v@ =~= m_eq_d_or_m());
    v
}

/// `M=D&M`
pub open spec fn m_eq_d_and_m() -> Seq<u8> {
    seq![77u8, 61u8, 68u8, 38u8, 77u8]
}

fn m_eq_d_and_m_line() -> (r: Vec<u8>)
    ensures
        r@ == m_eq_d_and_m(),
{
    let mut v: Vec<u8> = Vec::new();
    push_all(&mut v, &[77u8, 61u8, 68u8, 38u8, 77u8]);
    assert(v@ =~= m_eq_d_and_m());
    v
}

/// `D=M-D`
pub open spec fn d_eq_m_minus_d() -> Seq<u8> {
    seq![68u8, 61u8, 77u8, 45u8, 68u8]
}

fn d_eq_m_minus_d_line() -> (r: Vec<u8>)
    ensures
        r@ == d_eq_m_minus_d(),
{
    let mut v: Vec<u8> = Vec::new();
    push_all(&mut v, &[68u8, 61u8, 77u8, 45u8, 68u8]);
    assert(v@ =~= d_eq_m_minus_d());
    v
}

/// `D;JEQ`
pub open spec fn d_jeq() -> Seq<u8> {
    seq![68u8, 59u8, 74u8, 69u8, 81u8]
}

fn d_jeq_line() -> (r: Vec<u8>)
    ensures
        r@ == d_jeq(),
{
    let mut v: Vec<u8> = Vec::new();
    push_all(&mut v, &[68u8, 59u8, 74u8, 69u8, 81u8]);
    assert(v@ =~= d_jeq());
    v
}

/// `D;JGT`
pub open spec fn d_jgt() -> Seq<u8> {
    seq![68u8, 59u8, 74u8, 71u8, 84u8]
}

fn d_jgt_line() -> (r: Vec<u8>)
    ensures
        r@ == d_jgt(),
{
    let mut v: Vec<u8> = Vec::new();
    push_all(&mut v, &[68u8, 59u8, 74u8, 71u8, 84u8]);
    assert(v@ =~= d_jgt());
    v
}

/// `D;JLT`
pub open spec fn d_jlt() -> Seq<u8> {
    seq![68u8, 59u8, 74u8, 76u8, 84u8]
}

fn d_jlt_line() -> (r: Vec<u8>)
    ensures
        r@ == d_jlt(),
{
    let mut v: Vec<u8> = Vec::new();
    push_all(&mut v, &[68u8, 59u8, 74u8, 76u8, 84u8]);
    assert(v@ =~= d_jlt());
    v
}

/// `D;JNE`
pub open spec fn d_jne() -> Seq<u8> {
    seq![68u8, 59u8, 74u8, 78u8, 69u8]
}

fn d_jne_line() -> (r: Vec<u8>)
    ensures
        r@ == d_jne(),
{
    let mut v: Vec<u8> = Vec::new();
    push_all(&mut v, &[68u8, 59u8, 74u8, 78u8, 69u8]);
    assert(v@ =~= d_jne());
    v
}

/// `M=0`
pub open spec fn m_eq_zero() -> Seq<u8> {
    seq![77u8, 61u8, 48u8]
}

fn m_eq_zero_line() -> (r: Vec<u8>)
    ensures
        r@ == m_eq_zero(),
{
    let mut v: Vec<u8> = Vec::new();
    push_all(&mut v, &[77u8, 61u8, 48u8]);
    assert(v@ =~= m_eq_zero());
    v
}

/// `0;JMP`
pub open spec fn zero_jmp() -> Seq<u8> {
    seq![48u8, 59u8, 74u8, 77u8, 80u8]
}

fn zero_jmp_line() -> (r: Vec<u8>)
    ensures
        r@ == zero_jmp(),
{
    let mut v: Vec<u8> = Vec::new();
    push_all(&mut v, &[48u8, 59u8, 74u8, 77u8, 80u8]);
    assert(v@ =~= zero_jmp());
    v
}

/// `M=-1`
pub open spec fn m_eq_minus_one() -> Seq<u8> {
    seq![77u8, 61u8, 45u8, 49u8]
}

fn m_eq_minus_one_line() -> (r: Vec<u8>)
    ensures
        r@ == m_eq_minus_one(),
{
    let mut v: Vec<u8> = Vec::new();
    push_all(&mut v, &[77u8, 61u8, 45u8, 49u8]);
    assert(v@ =~= m_eq_minus_one());
    v
}

/// `D=M+1`
pub open spec fn d_eq_m_plus_1() -> Seq<u8> {
    seq![68u8, 61u8, 77u8, 43u8, 49u8]
}

fn d_eq_m_plus_1_line() -> (r: Vec<u8>)
    ensures
        r@ == d_eq_m_plus_1(),
{
    let mut v: Vec<u8> = Vec::new();
    push_all(&mut v, &[68u8, 61u8, 77u8, 43u8, 49u8]);
    assert(v@ =~= d_eq_m_plus_1());
    v
}

/// `A=D-A`
pub open spec fn a_eq_d_minus_a() -> Seq<u8> {
    seq![65u8, 61u8, 68u8, 45u8, 65u8]
}

fn a_eq_d_minus_a_line() -> (r: Vec<u8>)
    ensures
        r@ == a_eq_d_minus_a(),
{
    let mut v: Vec<u8> = Vec::new();
    push_all(&mut v, &[65u8, 61u8, 68u8, 45u8, 65u8]);
    assert(v@ =~= a_eq_d_minus_a());
    v
}

/// `D=D-A`
pub open spec fn d_eq_d_minus_a() -> Seq<u8> {
    seq![68u8, 61u8, 68u8, 45u8, 65u8]
}

fn d_eq_d_minus_a_line() -> (r: Vec<u8>)
    ensures
        r@ == d_eq_d_minus_a(),
{
    let mut v: Vec<u8> = Vec::new();
    push_all(&mut v, &[68u8, 61u8, 68u8, 45u8, 65u8]);
    assert(v@ =~= d_eq_d_minus_a());
    v
}

/// `@R13`
pub open spec fn at_r13() -> Seq<u8> {
    seq![64u8, 82u8, 49u8, 51u8]
}

fn at_r13_line() -> (r: Vec<u8>)
    ensures
        r@ == at_r13(),
{
    let mut v: Vec<u8> = Vec::new();
    push_all(&mut v, &[64u8, 82u8, 49u8, 51u8]);
    assert(v@ =~= at_r13());
    v
}

/// `@R14`
pub open spec fn at_r14() -> Seq<u8> {
    seq![64u8, 82u8, 49u8, 52u8]
}

fn at_r14_line() -> (r: Vec<u8>)
    ensures
        r@ == at_r14(),
{
    let mut v: Vec<u8> = Vec::new();
    push_all(&mut v, &[64u8, 82u8, 49u8, 52u8]);
    assert(v@ =~= at_r14());
    v
}

/// `// Push local variables`
pub open spec fn push_locals_comment() -> Seq<u8> {
    seq![47u8, 47u8, 32u8, 80u8, 117u8, 115u8, 104u8, 32u8, 108u8, 111u8, 99u8, 97u8, 108u8, 32u8, 118u8, 97u8, 114u8, 105u8, 97u8, 98u8, 108u8, 101u8, 115u8]
}

fn push_locals_comment_line() -> (r: Vec<u8>)
    ensures
        r@ == push_locals_comment(),
{
    let mut v: Vec<u8> = Vec::new();
    push_all(&mut v, &[47u8, 47u8, 32u8, 80u8, 117u8, 115u8, 104u8, 32u8, 108u8, 111u8, 99u8, 97u8, 108u8, 32u8, 118u8, 97u8, 114u8, 105u8, 97u8, 98u8, 108u8, 101u8, 115u8]);
    assert(v@ =~= push_locals_comment());
    v
}

/// `// Execute body`
pub open spec fn execute_body_comment() -> Seq<u8> {
    seq![47u8, 47u8, 32u8, 69u8, 120u8, 101u8, 99u8, 117u8, 116u8, 101u8, 32u8, 98u8, 111u8, 100u8, 121u8]
}

fn execute_body_comment_line() -> (r: Vec<u8>)
    ensures
        r@ == execute_body_comment(),
{
    let mut v: Vec<u8> = Vec::new();
    push_all(&mut v, &[47u8, 47u8, 32u8, 69u8, 120u8, 101u8, 99u8, 117u8, 116u8, 101u8, 32u8, 98u8, 111u8, 100u8, 121u8]);
    assert(v@ =~= execute_body_comment());
    v
}

/// `// Save return address in case zero arguments`
pub open spec fn save_return_comment() -> Seq<u8> {
    seq![47u8, 47u8, 32u8, 83u8, 97u8, 118u8, 101u8, 32u8, 114u8, 101u8, 116u8, 117u8, 114u8, 110u8, 32u8, 97u8, 100u8, 100u8, 114u8, 101u8, 115u8, 115u8, 32u8, 105u8, 110u8, 32u8, 99u8, 97u8, 115u8, 101u8, 32u8, 122u8, 101u8, 114u8, 111u8, 32u8, 97u8, 114u8, 103u8, 117u8, 109u8, 101u8, 110u8, 116u8, 115u8]
}

fn save_return_comment_line() -> (r: Vec<u8>)
    ensures
        r@ == save_return_comment(),
{
    let mut v: Vec<u8> = Vec::new();
    push_all(&mut v, &[47u8, 47u8, 32u8, 83u8, 97u8, 118u8, 101u8, 32u8, 114u8, 101u8, 116u8, 117u8, 114u8, 110u8, 32u8, 97u8, 100u8, 100u8, 114u8, 101u8, 115u8, 115u8, 32u8, 105u8, 110u8, 32u8, 99u8, 97u8, 115u8, 101u8, 32u8, 122u8, 101u8, 114u8, 111u8, 32u8, 97u8, 114u8, 103u8, 117u8, 109u8, 101u8, 110u8, 116u8, 115u8]);
    assert(v@ =~= save_return_comment());
    v
}

/// `// Push value to zero ARG`
pub open spec fn push_zero_arg_comment() -> Seq<u8> {
    seq![47u8, 47u8, 32u8, 80u8, 117u8, 115u8, 104u8, 32u8, 118u8, 97u8, 108u8, 117u8, 101u8, 32u8, 116u8, 111u8, 32u8, 122u8, 101u8, 114u8, 111u8, 32u8, 65u8, 82u8, 71u8]
}

fn push_zero_arg_comment_line() -> (r: Vec<u8>)
    ensures
        r@ == push_zero_arg_comment(),
{
    let mut v: Vec<u8> = Vec::new();
    push_all(&mut v, &[47u8, 47u8, 32u8, 80u8, 117u8, 115u8, 104u8, 32u8, 118u8, 97u8, 108u8, 117u8, 101u8, 32u8, 116u8, 111u8, 32u8, 122u8, 101u8, 114u8, 111u8, 32u8, 65u8, 82u8, 71u8]);
    assert(v@ =~= push_zero_arg_comment());
    v
}

/// `// Move SP to restoring segments`
pub open spec fn move_sp_comment() -> Seq<u8> {
    seq![47u8, 47u8, 32u8, 77u8, 111u8, 118u8, 101u8, 32u8, 83u8, 80u8, 32u8, 116u8, 111u8, 32u8, 114u8, 101u8, 115u8, 116u8, 111u8, 114u8, 105u8, 110u8, 103u8, 32u8, 115u8, 101u8, 103u8, 109u8, 101u8, 110u8, 116u8, 115u8]
}

fn move_sp_comment_line() -> (r: Vec<u8>)
    ensures
        r@ == move_sp_comment(),
{
    let mut v: Vec<u8> = Vec::new();
    push_all(&mut v, &[47u8, 47u8, 32u8, 77u8, 111u8, 118u8, 101u8, 32u8, 83u8, 80u8, 32u8, 116u8, 111u8, 32u8, 114u8, 101u8, 115u8, 116u8, 111u8, 114u8, 105u8, 110u8, 103u8, 32u8, 115u8, 101u8, 103u8, 109u8, 101u8, 110u8, 116u8, 115u8]);
    assert(v@ =~= move_sp_comment());
    v
}

/// `// Restoring coller segemnts`
pub open spec fn restoring_comment() -> Seq<u8> {
    seq![47u8, 47u8, 32u8, 82u8, 101u8, 115u8, 116u8, 111u8, 114u8, 105u8, 110u8, 103u8, 32u8, 99u8, 111u8, 108u8, 108u8, 101u8, 114u8, 32u8, 115u8, 101u8, 103u8, 101u8, 109u8, 110u8, 116u8, 115u8]
}

fn restoring_comment_line() -> (r: Vec<u8>)
    ensures
        r@ == restoring_comment(),
{
    let mut v: Vec<u8> = Vec::new();
    push_all(&mut v, &[47u8, 47u8, 32u8, 82u8, 101u8, 115u8, 116u8, 111u8, 114u8, 105u8, 110u8, 103u8, 32u8, 99u8, 111u8, 108u8, 108u8, 101u8, 114u8, 32u8, 115u8, 101u8, 103u8, 101u8, 109u8, 110u8, 116u8, 115u8]);
    assert(v@ =~= restoring_comment());
    v
}

/// `// Move PC back`
pub open spec fn move_pc_comment() -> Seq<u8> {
    seq![47u8, 47u8, 32u8, 77u8, 111u8, 118u8, 101u8, 32u8, 80u8, 67u8, 32u8, 98u8, 97u8, 99u8, 107u8]
}

fn move_pc_comment_line() -> (r: Vec<u8>)
    ensures
        r@ == move_pc_comment(),
{
    let mut v: Vec<u8> = Vec::new();
    push_all(&mut v, &[47u8, 47u8, 32u8, 77u8, 111u8, 118u8, 101u8, 32u8, 80u8, 67u8, 32u8, 98u8, 97u8, 99u8, 107u8]);
    assert(v@ =~= move_pc_comment());
    v
}

/// `// Return back to caller function`
pub open spec fn return_back_comment() -> Seq<u8> {
    seq![47u8, 47u8, 32u8, 82u8, 101u8, 116u8, 117u8, 114u8, 110u8, 32u8, 98u8, 97u8, 99u8, 107u8, 32u8, 116u8, 111u8, 32u8, 99u8, 97u8, 108u8, 108u8, 101u8, 114u8, 32u8, 102u8, 117u8, 110u8, 99u8, 116u8, 105u8, 111u8, 110u8]
}

fn return_back_comment_line() -> (r: Vec<u8>)
    ensures
        r@ == return_back_comment(),
{
    let mut v: Vec<u8> = Vec::new();
    push_all(&mut v, &[47u8, 47u8, 32u8, 82u8, 101u8, 116u8, 117u8, 114u8, 110u8, 32u8, 98u8, 97u8, 99u8, 107u8, 32u8, 116u8, 111u8, 32u8, 99u8, 97u8, 108u8, 108u8, 101u8, 114u8, 32u8, 102u8, 117u8, 110u8, 99u8, 116u8, 105u8, 111u8, 110u8]);
    assert(v@ =~= return_back_comment());
    v
}

/// `// Call function`
pub open spec fn call_comment() -> Seq<u8> {
    seq![47u8, 47u8, 32u8, 67u8, 97u8, 108u8, 108u8, 32u8, 102u8, 117u8, 110u8, 99u8, 116u8, 105u8, 111u8, 110u8]
}

fn call_comment_line() -> (r: Vec<u8>)
    ensures
        r@ == call_comment(),
{
    let mut v: Vec<u8> = Vec::new();
    push_all(&mut v, &[47u8, 47u8, 32u8, 67u8, 97u8, 108u8, 108u8, 32u8, 102u8, 117u8, 110u8, 99u8, 116u8, 105u8, 111u8, 110u8]);
    assert(v@ =~= call_comment());
    v
}

/// `// Saving current segemnts`
pub open spec fn saving_comment() -> Seq<u8> {
    seq![47u8, 47u8, 32u8, 83u8, 97u8, 118u8, 105u8, 110u8, 103u8, 32u8, 99u8, 117u8, 114u8, 114u8, 101u8, 110u8, 116u8, 32u8, 115u8, 101u8, 103u8, 101u8, 109u8, 110u8, 116u8, 115u8]
}

fn saving_comment_line() -> (r: Vec<u8>)
    ensures
        r@ == saving_comment(),
{
    let mut v: Vec<u8> = Vec::new();
    push_all(&mut v, &[47u8, 47u8, 32u8, 83u8, 97u8, 118u8, 105u8, 110u8, 103u8, 32u8, 99u8, 117u8, 114u8, 114u8, 101u8, 110u8, 116u8, 32u8, 115u8, 101u8, 103u8, 101u8, 109u8, 110u8, 116u8, 115u8]);
    assert(v@ =~= saving_comment());
    v
}

/// `// Saved current segemnts`
pub open spec fn saved_comment() -> Seq<u8> {
    seq![47u8, 47u8, 32u8, 83u8, 97u8, 118u8, 101u8, 100u8, 32u8, 99u8, 117u8, 114u8, 114u8, 101u8, 110u8, 116u8, 32u8, 115u8, 101u8, 103u8, 101u8, 109u8, 110u8, 116u8, 115u8]
}

fn saved_comment_line() -> (r: Vec<u8>)
    ensures
        r@ == saved_comment(),
{
    let mut v: Vec<u8> = Vec::new();
    push_all(&mut v, &[47u8, 47u8, 32u8, 83u8, 97u8, 118u8, 101u8, 100u8, 32u8, 99u8, 117u8, 114u8, 114u8, 101u8, 110u8, 116u8, 32u8, 115u8, 101u8, 103u8, 101u8, 109u8, 110u8, 116u8, 115u8]);
    assert(v@ =~= saved_comment());
    v
}

/// `// Set ARG pointer`
pub open spec fn set_arg_comment() -> Seq<u8> {
    seq![47u8, 47u8, 32u8, 83u8, 101u8, 116u8, 32u8, 65u8, 82u8, 71u8, 32u8, 112u8, 111u8, 105u8, 110u8, 116u8, 101u8, 114u8]
}

fn set_arg_comment_line() -> (r: Vec<u8>)
    ensures
        r@ == set_arg_comment(),
{
    let mut v: Vec<u8> = Vec::new();
    push_all(&mut v, &[47u8, 47u8, 32u8, 83u8, 101u8, 116u8, 32u8, 65u8, 82u8, 71u8, 32u8, 112u8, 111u8, 105u8, 110u8, 116u8, 101u8, 114u8]);
    assert(v@ =~= set_arg_comment());
    v
}

/// `// Set LCL = SP`
pub open spec fn set_lcl_comment() -> Seq<u8> {
    seq![47u8, 47u8, 32u8, 83u8, 101u8, 116u8, 32u8, 76u8, 67u8, 76u8, 32u8, 61u8, 32u8, 83u8, 80u8]
}

fn set_lcl_comment_line() -> (r: Vec<u8>)
    ensures
        r@ == set_lcl_comment(),
{
    let mut v: Vec<u8> = Vec::new();
    push_all(&mut v, &[47u8, 47u8, 32u8, 83u8, 101u8, 116u8, 32u8, 76u8, 67u8, 76u8, 32u8, 61u8, 32u8, 83u8, 80u8]);
    assert(v@ =~= set_lcl_comment());
    v
}

/// `// Goto function body`
pub open spec fn goto_body_comment() -> Seq<u8> {
    seq![47u8, 47u8, 32u8, 71u8, 111u8, 116u8, 111u8, 32u8, 102u8, 117u8, 110u8, 99u8, 116u8, 105u8, 111u8, 110u8, 32u8, 98u8, 111u8, 100u8, 121u8]
}

fn goto_body_comment_line() -> (r: Vec<u8>)
    ensures
        r@ == goto_body_comment(),
{
    let mut v: Vec<u8> = Vec::new();
    push_all(&mut v, &[47u8, 47u8, 32u8, 71u8, 111u8, 116u8, 111u8, 32u8, 102u8, 117u8, 110u8, 99u8, 116u8, 105u8, 111u8, 110u8, 32u8, 98u8, 111u8, 100u8, 121u8]);
    assert(v@ =~= goto_body_comment());
    v
}

/// `// Here we return after function execution`
pub open spec fn returned_comment() -> Seq<u8> {
    seq![47u8, 47u8, 32u8, 72u8, 101u8, 114u8, 101u8, 32u8, 119u8, 101u8, 32u8, 114u8, 101u8, 116u8, 117u8, 114u8, 110u8, 32u8, 97u8, 102u8, 116u8, 101u8, 114u8, 32u8, 102u8, 117u8, 110u8, 99u8, 116u8, 105u8, 111u8, 110u8, 32u8, 101u8, 120u8, 101u8, 99u8, 117u8, 116u8, 105u8, 111u8, 110u8]
}

fn returned_comment_line() -> (r: Vec<u8>)
    ensures
        r@ == returned_comment(),
{
    let mut v: Vec<u8> = Vec::new();
    push_all(&mut v, &[47u8, 47u8, 32u8, 72u8, 101u8, 114u8, 101u8, 32u8, 119u8, 101u8, 32u8, 114u8, 101u8, 116u8, 117u8, 114u8, 110u8, 32u8, 97u8, 102u8, 116u8, 101u8, 114u8, 32u8, 102u8, 117u8, 110u8, 99u8, 116u8, 105u8, 111u8, 110u8, 32u8, 101u8, 120u8, 101u8, 99u8, 117u8, 116u8, 105u8, 111u8, 110u8]);
    assert(v@ =~= returned_comment());
    v
}

/// `// End function call`
pub open spec fn end_call_comment() -> Seq<u8> {
    seq![47u8, 47u8, 32u8, 69u8, 110u8, 100u8, 32u8, 102u8, 117u8, 110u8, 99u8, 116u8, 105u8, 111u8, 110u8, 32u8, 99u8, 97u8, 108u8, 108u8]
}

fn end_call_comment_line() -> (r: Vec<u8>)
    ensures
        r@ == end_call_comment(),
{
    let mut v: Vec<u8> = Vec::new();
    push_all(&mut v, &[47u8, 47u8, 32u8, 69u8, 110u8, 100u8, 32u8, 102u8, 117u8, 110u8, 99u8, 116u8, 105u8, 111u8, 110u8, 32u8, 99u8, 97u8, 108u8, 108u8]);
    assert(v@ =~= end_call_comment());
    v
}


/// `(name)`: the line that defines a label.
pub open spec fn label_line(name: Seq<u8>) -> Seq<u8> {
    seq![40u8] + name + seq![41u8]
}

/// `@name`: the line that loads a label's address.
pub open spec fn var_line(name: Seq<u8>) -> Seq<u8> {
    seq![64u8] + name
}

/// Points `A` at the top cell of the stack.
pub open spec fn point_stack_lines() -> Seq<Seq<u8>> {
    seq![at_sp(), a_eq_m_minus_1()]
}

/// The lines of a branch command.
pub open spec fn branch_lines(kind: AsmBranchInstructionKind, name: Seq<u8>) -> Seq<Seq<u8>> {
    match kind {
        AsmBranchInstructionKind::Label => seq![label_line(name)],
        AsmBranchInstructionKind::Goto => seq![var_line(name), zero_jmp()],
        AsmBranchInstructionKind::IfGoto => pop_lines() + seq![var_line(name), d_jne()],
    }
}

/// The jump of a comparison.
pub open spec fn comparison_jump(t: AsmArithmeticInstruction) -> Seq<u8> {
    match t {
        AsmArithmeticInstruction::Eq => d_jeq(),
        AsmArithmeticInstruction::Gt => d_jgt(),
        _ => d_jlt(),
    }
}

/// Whether the command compares the two top cells of the stack.
pub open spec fn is_comparison(t: AsmArithmeticInstruction) -> bool {
    t == AsmArithmeticInstruction::Eq || t == AsmArithmeticInstruction::Gt
        || t == AsmArithmeticInstruction::Lt
}

/// The lines of an arithmetic command. A comparison jumps to the label
/// `when_true` to write -1, else writes 0 and jumps to `when_false`.
pub open spec fn arithmetic_lines(
    t: AsmArithmeticInstruction,
    when_true: Seq<u8>,
    when_false: Seq<u8>,
) -> Seq<Seq<u8>> {
    match t {
        AsmArithmeticInstruction::Neg => point_stack_lines().push(m_eq_neg_m()),
        AsmArithmeticInstruction::Not => point_stack_lines().push(m_eq_not_m()),
        AsmArithmeticInstruction::Add => (pop_lines() + point_stack_lines()).push(m_eq_d_plus_m()),
        AsmArithmeticInstruction::Sub => (pop_lines() + point_stack_lines()).push(m_eq_m_minus_d()),
        AsmArithmeticInstruction::Or => (pop_lines() + point_stack_lines()).push(m_eq_d_or_m()),
        AsmArithmeticInstruction::And => (pop_lines() + point_stack_lines()).push(m_eq_d_and_m()),
        _ => pop_lines() + point_stack_lines() + seq![
            d_eq_m_minus_d(),
            var_line(when_true),
            comparison_jump(t),
        ] + point_stack_lines() + seq![m_eq_zero(), var_line(when_false), zero_jmp(), label_line(when_true)]
            + point_stack_lines() + seq![m_eq_minus_one(), label_line(when_false)],
    }
}


fn label_line_of(name: &[u8]) -> (r: Vec<u8>)
    ensures
        r@ == label_line(name@),
{
    let mut v: Vec<u8> = Vec::new();
    v.push(40);
    push_all(&mut v, name);
    v.push(41);
    assert(v@ =~= label_line(name@));
    v
}

fn var_line_of(name: &[u8]) -> (r: Vec<u8>)
    ensures
        r@ == var_line(name@),
{
    let mut v: Vec<u8> = Vec::new();
    v.push(64);
    push_all(&mut v, name);
    assert(v@ =~= var_line(name@));
    v
}

fn point_stack_block(out: &mut Vec<Vec<u8>>)
    ensures
        views_of(final(out)@) == views_of(old(out)@) + point_stack_lines(),
{
    let ghost o = views_of(out@);
    add_line(out, at_sp_line());
    add_line(out, a_eq_m_minus_1_line());
    assert(views_of(out@) =~= o + point_stack_lines());
}

fn branch_block(out: &mut Vec<Vec<u8>>, kind: AsmBranchInstructionKind, name: &[u8])
    ensures
        views_of(final(out)@) == views_of(old(out)@) + branch_lines(kind, name@),
{
    let ghost o = views_of(out@);
    match kind {
        AsmBranchInstructionKind::Label => {
            add_line(out, label_line_of(name));
        },
        AsmBranchInstructionKind::Goto => {
            add_line(out, var_line_of(name));
            add_line(out, zero_jmp_line());
        },
        AsmBranchInstructionKind::IfGoto => {
            pop_block(out);
            add_line(out, var_line_of(name));
            add_line(out, d_jne_line());
        },
    }
    assert(views_of(out@) =~= o + branch_lines(kind, name@));
}

/// What translating a command leaves of it: the name of a branch and of a
/// function definition is moved out, leaving it empty.
pub open spec fn payload_taken(v: AsmInstructionV) -> AsmInstructionV {
    match v {
        AsmInstructionV::Branch(k, _) => AsmInstructionV::Branch(k, Seq::<u8>::empty()),
        AsmInstructionV::Definition(_, a) => AsmInstructionV::Definition(Seq::<u8>::empty(), a),
        _ => v,
    }
}

/// The Hack instructions of a branch command, one line each. The label's
/// name is moved out of the token, leaving it empty.
pub fn translate_branch_token(token: &mut AsmBranchInstruction) -> (r: Vec<Vec<u8>>)
    ensures
        views_of(r@) == branch_lines(old(token).kind, old(token).name@),
        final(token).kind == old(token).kind,
        final(token).name@ == Seq::<u8>::empty(),
{
    let mut name: Vec<u8> = Vec::new();
    std::mem::swap(&mut token.name, &mut name);
    let mut out: Vec<Vec<u8>> = Vec::new();
    branch_block(&mut out, token.kind, name.as_slice());
    assert(views_of(out@) =~= branch_lines(token.kind, name@));
    out
}

/// The Hack instructions of an arithmetic command, one line each; a
/// comparison uses the labels `when_true` and `when_false`.
pub fn translate_arithmetic_token(
    token: &AsmArithmeticInstruction,
    when_true: &[u8],
    when_false: &[u8],
) -> (r: Vec<Vec<u8>>)
    ensures
        views_of(r@) == arithmetic_lines(*token, when_true@, when_false@),
{
    let mut out: Vec<Vec<u8>> = Vec::new();
    match token {
        AsmArithmeticInstruction::Neg => {
            point_stack_block(&mut out);
            add_line(&mut out, m_eq_neg_m_line());
        },
        AsmArithmeticInstruction::Not => {
            point_stack_block(&mut out);
            add_line(&mut out, m_eq_not_m_line());
        },
        AsmArithmeticInstruction::Add => {
            pop_block(&mut out);
            point_stack_block(&mut out);
            add_line(&mut out, m_eq_d_plus_m_line());
        },
        AsmArithmeticInstruction::Sub => {
            pop_block(&mut out);
            point_stack_block(&mut out);
            add_line(&mut out, m_eq_m_minus_d_line());
        },
        AsmArithmeticInstruction::Or => {
            pop_block(&mut out);
            point_stack_block(&mut out);
            add_line(&mut out, m_eq_d_or_m_line());
        },
        AsmArithmeticInstruction::And => {
            pop_block(&mut out);
            point_stack_block(&mut out);
            add_line(&mut out, m_eq_d_and_m_line());
        },
        _ => {
            pop_block(&mut out);
            point_stack_block(&mut out);
            add_line(&mut out, d_eq_m_minus_d_line());
            add_line(&mut out, var_line_of(when_true));
            let jump = match token {
                AsmArithmeticInstruction::Eq => d_jeq_line(),
                AsmArithmeticInstruction::Gt => d_jgt_line(),
                _ => d_jlt_line(),
            };
            add_line(&mut out, jump);
            point_stack_block(&mut out);
            add_line(&mut out, m_eq_zero_line());
            add_line(&mut out, var_line_of(when_false));
            add_line(&mut out, zero_jmp_line());
            add_line(&mut out, label_line_of(when_true));
            point_stack_block(&mut out);
            add_line(&mut out, m_eq_minus_one_line());
            add_line(&mut out, label_line_of(when_false));
        },
    }
    assert(views_of(out@) =~= arithmetic_lines(*token, when_true@, when_false@));
    out
}


/// `n` times: `@0`, `D=A` and a push, one local variable set to zero each.
pub open spec fn local_pushes(n: int) -> Seq<Seq<u8>>
    decreases n,
{
    if n <= 0 {
        seq![]
    } else {
        local_pushes(n - 1) + seq![at_number(0), d_eq_a()] + push_lines()
    }
}

/// The lines of a function's entry: two blank lines, its label and its
/// local variables.
pub open spec fn definition_lines(name: Seq<u8>, locals: int) -> Seq<Seq<u8>> {
    seq![seq![], seq![], label_line(name), push_locals_comment()] + local_pushes(locals)
        + seq![execute_body_comment()]
}

/// Saves the return address, found five cells below `LCL`, in `R14`.
pub open spec fn save_return_lines() -> Seq<Seq<u8>> {
    seq![at_lcl(), d_eq_m(), at_number(5), a_eq_d_minus_a(), d_eq_m(), at_r14(), m_eq_d()]
}

/// Moves `SP` to `LCL`, above the saved segments.
pub open spec fn move_sp_to_caller_lines() -> Seq<Seq<u8>> {
    seq![at_lcl(), d_eq_m(), at_sp(), m_eq_d()]
}

/// Saves the caller's stack top, one above `ARG`, in `R13`.
pub open spec fn save_parent_sp_lines() -> Seq<Seq<u8>> {
    seq![at_arg(), d_eq_m_plus_1(), at_r13(), m_eq_d()]
}

/// Sets `SP` back from `R13`.
pub open spec fn restore_parent_sp_lines() -> Seq<Seq<u8>> {
    seq![at_r13(), d_eq_m(), at_sp(), m_eq_d()]
}

/// Jumps to the address saved in `R14`.
pub open spec fn return_from_r14_lines() -> Seq<Seq<u8>> {
    seq![at_r14(), a_eq_m(), zero_jmp()]
}

/// Pops the stack top into a segment's base pointer.
pub open spec fn restore_lines(s: Segment) -> Seq<Seq<u8>> {
    pop_lines() + seq![segment_base(s), m_eq_d()]
}

/// Pushes a segment's base pointer.
pub open spec fn save_lines(s: Segment) -> Seq<Seq<u8>> {
    seq![segment_base(s), d_eq_m()] + push_lines()
}

/// The lines of a return.
pub open spec fn return_lines() -> Seq<Seq<u8>> {
    seq![save_return_comment()] + save_return_lines() + seq![push_zero_arg_comment()]
        + memory_lines(MemoryToken { segment: Segment::Arg, kind: MemoryTokenKind::Pop, val: 0 }, seq![])
        + seq![move_sp_comment()] + move_sp_to_caller_lines() + save_parent_sp_lines()
        + seq![restoring_comment()] + restore_lines(Segment::That) + restore_lines(Segment::This)
        + restore_lines(Segment::Arg) + restore_lines(Segment::Local) + seq![move_pc_comment()]
        + restore_parent_sp_lines() + return_from_r14_lines() + seq![return_back_comment()]
}

/// The label a call returns to: the function's name, the file's prefix and
/// the call's number, joined by dots.
pub open spec fn return_label(name: Seq<u8>, prefix: Seq<u8>, id: nat) -> Seq<u8> {
    name + seq![46u8] + prefix + seq![46u8] + nat_digits(id)
}

/// Points `ARG` at the first of `args` arguments, below the five saved cells.
pub open spec fn set_arg_lines(args: int) -> Seq<Seq<u8>> {
    seq![at_sp(), d_eq_m(), at_number(5), d_eq_d_minus_a(), at_number(args), d_eq_d_minus_a(), at_arg(), m_eq_d()]
}

/// Sets `LCL` to `SP`.
pub open spec fn set_lcl_lines() -> Seq<Seq<u8>> {
    seq![at_sp(), a_eq_m(), d_eq_a(), at_lcl(), m_eq_d()]
}

/// The lines of a call: the return address and the caller's segments are
/// pushed, `ARG` and `LCL` set, and the function jumped to.
pub open spec fn call_lines(name: Seq<u8>, args: int, prefix: Seq<u8>, id: nat) -> Seq<Seq<u8>> {
    let back = return_label(name, prefix, id);
    seq![call_comment(), saving_comment(), var_line(back), d_eq_a()] + push_lines()
        + save_lines(Segment::Local) + save_lines(Segment::Arg) + save_lines(Segment::This)
        + save_lines(Segment::That) + seq![saved_comment(), set_arg_comment()]
        + set_arg_lines(args) + seq![set_lcl_comment()] + set_lcl_lines()
        + seq![goto_body_comment()] + branch_lines(AsmBranchInstructionKind::Goto, name)
        + branch_lines(AsmBranchInstructionKind::Label, back)
        + seq![returned_comment(), end_call_comment()]
}

/// The lines of a function command; a call is numbered `id` and returns to
/// a label named after `prefix`.
pub open spec fn function_lines(t: AsmFunctionInstruction, prefix: Seq<u8>, id: nat) -> Seq<Seq<u8>> {
    match t {
        AsmFunctionInstruction::Definition(m) => definition_lines(m.name@, m.args_count as int),
        AsmFunctionInstruction::Call(m) => call_lines(m.name@, m.args_count as int, prefix, id),
        AsmFunctionInstruction::Return => return_lines(),
    }
}


fn add_lines(out: &mut Vec<Vec<u8>>, lines: Vec<Vec<u8>>)
    ensures
        views_of(final(out)@) == views_of(old(out)@) + views_of(lines@),
{
    let ghost o = views_of(out@);
    let mut i: usize = 0;
    while i < lines.len()
        invariant
            i <= lines@.len(),
            views_of(out@) == o + views_of(lines@.subrange(0, i as int)),
        decreases lines@.len() - i,
    {
        add_line(out, lines[i].clone());
        proof {
            assert(lines@[i as int]@ == lines[i as int]@);
        }
        i = i + 1;
        assert(views_of(lines@.subrange(0, i as int)) =~= views_of(lines@.subrange(0, i - 1 as int)).push(lines@[i - 1]@));
    }
    assert(lines@.subrange(0, lines@.len() as int) =~= lines@);
}


fn save_block(out: &mut Vec<Vec<u8>>, s: Segment)
    ensures
        views_of(final(out)@) == views_of(old(out)@) + save_lines(s),
{
    let ghost o = views_of(out@);
    add_line(out, segment_base_line(s));
    add_line(out, d_eq_m_line());
    push_block(out);
    assert(views_of(out@) =~= o + save_lines(s));
}

fn restore_block(out: &mut Vec<Vec<u8>>, s: Segment)
    ensures
        views_of(final(out)@) == views_of(old(out)@) + restore_lines(s),
{
    let ghost o = views_of(out@);
    pop_block(out);
    add_line(out, segment_base_line(s));
    add_line(out, m_eq_d_line());
    assert(views_of(out@) =~= o + restore_lines(s));
}

fn definition_block(out: &mut Vec<Vec<u8>>, name: &[u8], locals: i16)
    ensures
        views_of(final(out)@) == views_of(old(out)@) + definition_lines(name@, locals as int),
{
    let ghost o = views_of(out@);
    add_line(out, Vec::new());
    add_line(out, Vec::new());
    branch_block(out, AsmBranchInstructionKind::Label, name);
    add_line(out, push_locals_comment_line());
    let ghost base = views_of(out@);
    assert(base =~= o + seq![seq![], seq![], label_line(name@), push_locals_comment()]);
    let mut k: i16 = 0;
    while k < locals
        invariant
            0 <= k,
            locals >= 0 ==> k <= locals,
            locals < 0 ==> k == 0,
            views_of(out@) == base + local_pushes(k as int),
        decreases locals - k,
    {
        add_line(out, at_number_line(0));
        add_line(out, d_eq_a_line());
        push_block(out);
        k = k + 1;
        assert(views_of(out@) =~= base + local_pushes(k as int));
    }
    proof {
        if locals < 0 {
            assert(local_pushes(locals as int) == local_pushes(0));
        }
    }
    add_line(out, execute_body_comment_line());
    assert(views_of(out@) =~= o + definition_lines(name@, locals as int));
}

fn add_piece(out: &mut Vec<Vec<u8>>, line: Vec<u8>)
    ensures
        views_of(final(out)@) == views_of(old(out)@) + seq![line@],
{
    let ghost o = views_of(out@);
    let ghost l = line@;
    add_line(out, line);
    assert(views_of(out@) =~= o + seq![l]);
}

proof fn lemma_grow(o: Seq<Seq<u8>>, acc: Seq<Seq<u8>>, piece: Seq<Seq<u8>>)
    ensures
        (o + acc) + piece == o + (acc + piece),
{
    vstd::seq_lib::lemma_concat_associative(o, acc, piece);
}

fn save_return_block(out: &mut Vec<Vec<u8>>)
    ensures
        views_of(final(out)@) == views_of(old(out)@) + save_return_lines(),
{
    let ghost o = views_of(out@);
    add_line(out, at_lcl_line());
    add_line(out, d_eq_m_line());
    add_line(out, at_number_line(5));
    add_line(out, a_eq_d_minus_a_line());
    add_line(out, d_eq_m_line());
    add_line(out, at_r14_line());
    add_line(out, m_eq_d_line());
    assert(views_of(out@) =~= o + save_return_lines());
}

fn move_sp_to_caller_block(out: &mut Vec<Vec<u8>>)
    ensures
        views_of(final(out)@) == views_of(old(out)@) + move_sp_to_caller_lines(),
{
    let ghost o = views_of(out@);
    add_line(out, at_lcl_line());
    add_line(out, d_eq_m_line());
    add_line(out, at_sp_line());
    add_line(out, m_eq_d_line());
    assert(views_of(out@) =~= o + move_sp_to_caller_lines());
}

fn save_parent_sp_block(out: &mut Vec<Vec<u8>>)
    ensures
        views_of(final(out)@) == views_of(old(out)@) + save_parent_sp_lines(),
{
    let ghost o = views_of(out@);
    add_line(out, at_arg_line());
    add_line(out, d_eq_m_plus_1_line());
    add_line(out, at_r13_line());
    add_line(out, m_eq_d_line());
    assert(views_of(out@) =~= o + save_parent_sp_lines());
}

fn restore_parent_sp_block(out: &mut Vec<Vec<u8>>)
    ensures
        views_of(final(out)@) == views_of(old(out)@) + restore_parent_sp_lines(),
{
    let ghost o = views_of(out@);
    add_line(out, at_r13_line());
    add_line(out, d_eq_m_line());
    add_line(out, at_sp_line());
    add_line(out, m_eq_d_line());
    assert(views_of(out@) =~= o + restore_parent_sp_lines());
}

fn return_from_r14_block(out: &mut Vec<Vec<u8>>)
    ensures
        views_of(final(out)@) == views_of(old(out)@) + return_from_r14_lines(),
{
    let ghost o = views_of(out@);
    add_line(out, at_r14_line());
    add_line(out, a_eq_m_line());
    add_line(out, zero_jmp_line());
    assert(views_of(out@) =~= o + return_from_r14_lines());
}

fn set_arg_block(out: &mut Vec<Vec<u8>>, args: i16)
    ensures
        views_of(final(out)@) == views_of(old(out)@) + set_arg_lines(args as int),
{
    let ghost o = views_of(out@);
    add_line(out, at_sp_line());
    add_line(out, d_eq_m_line());
    add_line(out, at_number_line(5));
    add_line(out, d_eq_d_minus_a_line());
    add_line(out, at_number_line(args));
    add_line(out, d_eq_d_minus_a_line());
    add_line(out, at_arg_line());
    add_line(out, m_eq_d_line());
    assert(views_of(out@) =~= o + set_arg_lines(args as int));
}

fn set_lcl_block(out: &mut Vec<Vec<u8>>)
    ensures
        views_of(final(out)@) == views_of(old(out)@) + set_lcl_lines(),
{
    let ghost o = views_of(out@);
    add_line(out, at_sp_line());
    add_line(out, a_eq_m_line());
    add_line(out, d_eq_a_line());
    add_line(out, at_lcl_line());
    add_line(out, m_eq_d_line());
    assert(views_of(out@) =~= o + set_lcl_lines());
}

fn return_block(out: &mut Vec<Vec<u8>>)
    ensures
        views_of(final(out)@) == views_of(old(out)@) + return_lines(),
{
    let ghost o = views_of(out@);
    add_piece(out, save_return_comment_line());
    let ghost acc = seq![save_return_comment()];
    save_return_block(out);
    proof { lemma_grow(o, acc, save_return_lines()); acc = acc + save_return_lines(); }
    add_piece(out, push_zero_arg_comment_line());
    proof { lemma_grow(o, acc, seq![push_zero_arg_comment()]); acc = acc + seq![push_zero_arg_comment()]; }
    let token = MemoryToken::new(MemoryTokenKind::Pop, Segment::Arg, 0);
    let popped = translate_memory_token(&token, &[]);
    proof {
        assert(views_of(popped@) == memory_lines(token, seq![]));
    }
    add_lines(out, popped);
    proof {
        lemma_grow(o, acc, memory_lines(token, seq![]));
        acc = acc + memory_lines(token, seq![]);
    }
    add_piece(out, move_sp_comment_line());
    proof { lemma_grow(o, acc, seq![move_sp_comment()]); acc = acc + seq![move_sp_comment()]; }
    move_sp_to_caller_block(out);
    proof { lemma_grow(o, acc, move_sp_to_caller_lines()); acc = acc + move_sp_to_caller_lines(); }
    save_parent_sp_block(out);
    proof { lemma_grow(o, acc, save_parent_sp_lines()); acc = acc + save_parent_sp_lines(); }
    add_piece(out, restoring_comment_line());
    proof { lemma_grow(o, acc, seq![restoring_comment()]); acc = acc + seq![restoring_comment()]; }
    restore_block(out, Segment::That);
    proof { lemma_grow(o, acc, restore_lines(Segment::That)); acc = acc + restore_lines(Segment::That); }
    restore_block(out, Segment::This);
    proof { lemma_grow(o, acc, restore_lines(Segment::This)); acc = acc + restore_lines(Segment::This); }
    restore_block(out, Segment::Arg);
    proof { lemma_grow(o, acc, restore_lines(Segment::Arg)); acc = acc + restore_lines(Segment::Arg); }
    restore_block(out, Segment::Local);
    proof { lemma_grow(o, acc, restore_lines(Segment::Local)); acc = acc + restore_lines(Segment::Local); }
    add_piece(out, move_pc_comment_line());
    proof { lemma_grow(o, acc, seq![move_pc_comment()]); acc = acc + seq![move_pc_comment()]; }
    restore_parent_sp_block(out);
    proof { lemma_grow(o, acc, restore_parent_sp_lines()); acc = acc + restore_parent_sp_lines(); }
    return_from_r14_block(out);
    proof { lemma_grow(o, acc, return_from_r14_lines()); acc = acc + return_from_r14_lines(); }
    add_piece(out, return_back_comment_line());
    proof { lemma_grow(o, acc, seq![return_back_comment()]); acc = acc + seq![return_back_comment()]; }
    assert(acc == return_lines());
}

fn call_block(out: &mut Vec<Vec<u8>>, name: &[u8], args: i16, prefix: &[u8], id: usize)
    ensures
        views_of(final(out)@) == views_of(old(out)@) + call_lines(name@, args as int, prefix@, id as nat),
{
    let ghost o = views_of(out@);
    let mut back: Vec<u8> = Vec::new();
    push_all(&mut back, name);
    back.push(46);
    push_all(&mut back, prefix);
    back.push(46);
    push_digits(&mut back, id as u64);
    assert(back@ =~= return_label(name@, prefix@, id as nat));
    let ghost head = seq![call_comment(), saving_comment(), var_line(back@), d_eq_a()];
    add_line(out, call_comment_line());
    add_line(out, saving_comment_line());
    add_line(out, var_line_of(back.as_slice()));
    add_line(out, d_eq_a_line());
    assert(views_of(out@) =~= o + head);
    let ghost acc = head;
    push_block(out);
    proof { lemma_grow(o, acc, push_lines()); acc = acc + push_lines(); }
    save_block(out, Segment::Local);
    proof { lemma_grow(o, acc, save_lines(Segment::Local)); acc = acc + save_lines(Segment::Local); }
    save_block(out, Segment::Arg);
    proof { lemma_grow(o, acc, save_lines(Segment::Arg)); acc = acc + save_lines(Segment::Arg); }
    save_block(out, Segment::This);
    proof { lemma_grow(o, acc, save_lines(Segment::This)); acc = acc + save_lines(Segment::This); }
    save_block(out, Segment::That);
    proof { lemma_grow(o, acc, save_lines(Segment::That)); acc = acc + save_lines(Segment::That); }
    let ghost mid = views_of(out@);
    add_line(out, saved_comment_line());
    add_line(out, set_arg_comment_line());
    assert(views_of(out@) =~= mid + seq![saved_comment(), set_arg_comment()]);
    proof {
        lemma_grow(o, acc, seq![saved_comment(), set_arg_comment()]);
        acc = acc + seq![saved_comment(), set_arg_comment()];
    }
    set_arg_block(out, args);
    proof { lemma_grow(o, acc, set_arg_lines(args as int)); acc = acc + set_arg_lines(args as int); }
    add_piece(out, set_lcl_comment_line());
    proof { lemma_grow(o, acc, seq![set_lcl_comment()]); acc = acc + seq![set_lcl_comment()]; }
    set_lcl_block(out);
    proof { lemma_grow(o, acc, set_lcl_lines()); acc = acc + set_lcl_lines(); }
    add_piece(out, goto_body_comment_line());
    proof { lemma_grow(o, acc, seq![goto_body_comment()]); acc = acc + seq![goto_body_comment()]; }
    branch_block(out, AsmBranchInstructionKind::Goto, name);
    proof {
        lemma_grow(o, acc, branch_lines(AsmBranchInstructionKind::Goto, name@));
        acc = acc + branch_lines(AsmBranchInstructionKind::Goto, name@);
    }
    branch_block(out, AsmBranchInstructionKind::Label, back.as_slice());
    proof {
        lemma_grow(o, acc, branch_lines(AsmBranchInstructionKind::Label, back@));
        acc = acc + branch_lines(AsmBranchInstructionKind::Label, back@);
    }
    let ghost tail = views_of(out@);
    add_line(out, returned_comment_line());
    add_line(out, end_call_comment_line());
    assert(views_of(out@) =~= tail + seq![returned_comment(), end_call_comment()]);
    proof {
        lemma_grow(o, acc, seq![returned_comment(), end_call_comment()]);
        acc = acc + seq![returned_comment(), end_call_comment()];
    }
    assert(acc == call_lines(name@, args as int, prefix@, id as nat));
}

/// The Hack instructions of a function command, one line each; a call is
/// numbered `instruction_id` and its return label is named after `prefix`.
/// A definition's name is moved out of the token, leaving it empty.
pub fn translate_function_token(
    token: &mut AsmFunctionInstruction,
    prefix: &[u8],
    instruction_id: usize,
) -> (r: Vec<Vec<u8>>)
    ensures
        views_of(r@) == function_lines(*old(token), prefix@, instruction_id as nat),
        AsmInstructionPayload::Function(*final(token))@ == payload_taken(
            AsmInstructionPayload::Function(*old(token))@,
        ),
{
    let mut out: Vec<Vec<u8>> = Vec::new();
    match token {
        AsmFunctionInstruction::Definition(meta) => {
            let mut name: Vec<u8> = Vec::new();
            std::mem::swap(&mut meta.name, &mut name);
            definition_block(&mut out, name.as_slice(), meta.args_count);
        },
        AsmFunctionInstruction::Call(meta) => {
            call_block(&mut out, meta.name.as_slice(), meta.args_count, prefix, instruction_id);
        },
        AsmFunctionInstruction::Return => {
            return_block(&mut out);
        },
    }
    assert(views_of(out@) =~= function_lines(*old(token), prefix@, instruction_id as nat));
    out
}

/// The memory token of a parsed memory command.
pub open spec fn memory_token_of(m: AsmMemoryInstruction) -> MemoryToken {
    MemoryToken {
        segment: match m.segment {
            AsmMemoryInstructionSegment::Arg => Segment::Arg,
            AsmMemoryInstructionSegment::Const => Segment::Const,
            AsmMemoryInstructionSegment::Pointer => Segment::Pointer,
            AsmMemoryInstructionSegment::Static => Segment::Static,
            AsmMemoryInstructionSegment::Local => Segment::Local,
            AsmMemoryInstructionSegment::Temp => Segment::Temp,
            AsmMemoryInstructionSegment::That => Segment::That,
            AsmMemoryInstructionSegment::This => Segment::This,
        },
        kind: match m.kind {
            AsmMemoryInstructionKind::Pop => MemoryTokenKind::Pop,
            AsmMemoryInstructionKind::Push => MemoryTokenKind::Push,
        },
        val: m.val,
    }
}

fn to_memory_token(m: &AsmMemoryInstruction) -> (r: MemoryToken)
    ensures
        r == memory_token_of(*m),
{
    let segment = match m.segment {
        AsmMemoryInstructionSegment::Arg => Segment::Arg,
        AsmMemoryInstructionSegment::Const => Segment::Const,
        AsmMemoryInstructionSegment::Pointer => Segment::Pointer,
        AsmMemoryInstructionSegment::Static => Segment::Static,
        AsmMemoryInstructionSegment::Local => Segment::Local,
        AsmMemoryInstructionSegment::Temp => Segment::Temp,
        AsmMemoryInstructionSegment::That => Segment::That,
        AsmMemoryInstructionSegment::This => Segment::This,
    };
    let kind = match m.kind {
        AsmMemoryInstructionKind::Pop => MemoryTokenKind::Pop,
        AsmMemoryInstructionKind::Push => MemoryTokenKind::Push,
    };
    MemoryToken::new(kind, segment, m.val)
}

/// The commands that can be translated: every command but a memory one
/// that `memory_token_ok` refuses.
pub open spec fn payload_ok(p: AsmInstructionPayload) -> bool {
    match p {
        AsmInstructionPayload::Memory(m) => memory_token_ok(memory_token_of(m)),
        _ => true,
    }
}

/// The lines of any command: `prefix` names the file's statics and return
/// labels, `id` numbers a call, `when_true` and `when_false` are a
/// comparison's labels.
pub open spec fn payload_lines(
    p: AsmInstructionPayload,
    prefix: Seq<u8>,
    id: nat,
    when_true: Seq<u8>,
    when_false: Seq<u8>,
) -> Seq<Seq<u8>> {
    match p {
        AsmInstructionPayload::Memory(m) => memory_lines(memory_token_of(m), prefix),
        AsmInstructionPayload::Arithmetic(a) => arithmetic_lines(a, when_true, when_false),
        AsmInstructionPayload::Branch(b) => branch_lines(b.kind, b.name@),
        AsmInstructionPayload::Function(f) => function_lines(f, prefix, id),
    }
}

/// A comment line: it starts with `//`.
pub open spec fn is_comment(l: Seq<u8>) -> bool {
    l.len() >= 2 && l[0] == 47u8 && l[1] == 47u8
}

/// The lines without the comments, in their order.
pub open spec fn drop_comments(s: Seq<Seq<u8>>) -> Seq<Seq<u8>>
    decreases s.len(),
{
    if s.len() == 0 {
        seq![]
    } else if is_comment(s.last()) {
        drop_comments(s.drop_last())
    } else {
        drop_comments(s.drop_last()).push(s.last())
    }
}

/// The lines that are written under `opts`: all of them, or all but the
/// comments.
pub open spec fn kept_lines(s: Seq<Seq<u8>>, opts: TranslateOpts) -> Seq<Seq<u8>> {
    if opts.comments {
        s
    } else {
        drop_comments(s)
    }
}

fn line_is_comment(l: &Vec<u8>) -> (r: bool)
    ensures
        r == is_comment(l@),
{
    l.len() >= 2 && l[0] == 47 && l[1] == 47
}

fn without_comments(lines: Vec<Vec<u8>>) -> (r: Vec<Vec<u8>>)
    ensures
        views_of(r@) == drop_comments(views_of(lines@)),
{
    let mut out: Vec<Vec<u8>> = Vec::new();
    let mut i: usize = 0;
    while i < lines.len()
        invariant
            i <= lines@.len(),
            views_of(out@) == drop_comments(views_of(lines@.subrange(0, i as int))),
        decreases lines@.len() - i,
    {
        let ghost before = views_of(lines@.subrange(0, i as int));
        let ghost after = views_of(lines@.subrange(0, i + 1 as int));
        assert(after.drop_last() =~= before);
        assert(after.last() == lines@[i as int]@);
        if !line_is_comment(&lines[i]) {
            add_line(&mut out, lines[i].clone());
        }
        i = i + 1;
    }
    assert(lines@.subrange(0, lines@.len() as int) =~= lines@);
    out
}

/// The name of a variable that a factory hands out: its prefix, a dot and
/// its number.
pub open spec fn variable_name(prefix: Seq<u8>, n: int) -> Seq<u8> {
    prefix + seq![46u8] + int_text(n)
}

/// Whether translating the command draws two labels: only a comparison
/// does.
pub open spec fn draws_labels(p: AsmInstructionPayload) -> bool {
    p matches AsmInstructionPayload::Arithmetic(a) && is_comparison(a)
}

fn draw_label(factory: &mut VariableFactory) -> (r: Vec<u8>)
    requires
        old(factory).wf(),
        old(factory).next_index() < i16::MAX,
    ensures
        final(factory).wf(),
        final(factory).prefix() == old(factory).prefix(),
        final(factory).next_index() == old(factory).next_index() + 1,
        r@ == variable_name(old(factory).prefix(), old(factory).next_index() as int),
{
    let v = factory.new_variable();
    let mut out: Vec<u8> = Vec::new();
    match v {
        AInstruction::Variable((p, _, n)) => {
            push_all(&mut out, p);
            out.push(46);
            push_int(&mut out, n as i64);
        },
        _ => {},
    }
    assert(out@ =~= variable_name(old(factory).prefix(), old(factory).next_index() as int));
    out
}

/// The Hack instructions of an arithmetic command, one line each. A
/// comparison draws its two labels from `factory`, the next two variables
/// it hands out, the first for a true result; the other commands draw
/// none.
pub fn translate_arithmetic_command(
    token: &AsmArithmeticInstruction,
    factory: &mut VariableFactory,
) -> (r: Vec<Vec<u8>>)
    requires
        old(factory).wf(),
        is_comparison(*token) ==> old(factory).next_index() < i16::MAX - 1,
    ensures
        final(factory).wf(),
        final(factory).prefix() == old(factory).prefix(),
        final(factory).next_index() == old(factory).next_index() + if is_comparison(*token) {
            2int
        } else {
            0int
        },
        views_of(r@) == arithmetic_lines(
            *token,
            variable_name(old(factory).prefix(), old(factory).next_index() as int),
            variable_name(old(factory).prefix(), old(factory).next_index() + 1),
        ),
{
    let compares = match token {
        AsmArithmeticInstruction::Eq | AsmArithmeticInstruction::Gt | AsmArithmeticInstruction::Lt => true,
        _ => false,
    };
    if compares {
        let when_true = draw_label(factory);
        let when_false = draw_label(factory);
        translate_arithmetic_token(token, when_true.as_slice(), when_false.as_slice())
    } else {
        let none: &[u8] = &[];
        let r = translate_arithmetic_token(token, none, none);
        proof {
            let p = old(factory).prefix();
            let n = old(factory).next_index() as int;
            assert(arithmetic_lines(*token, none@, none@) == arithmetic_lines(
                *token,
                variable_name(p, n),
                variable_name(p, n + 1),
            ));
        }
        r
    }
}

/// The Hack instructions of a command, one line each, written under
/// `opts`. The factory's prefix names the file's statics and a call's
/// return label, `instruction_id` numbers a call, and a comparison draws
/// its two labels from the factory. The name of a branch or of a function
/// definition is moved out of the command, leaving it empty.
pub fn translate_payload(
    payload: &mut AsmInstructionPayload,
    factory: &mut VariableFactory,
    instruction_id: usize,
    opts: &TranslateOpts,
) -> (r: Vec<Vec<u8>>)
    requires
        payload_ok(*old(payload)),
        old(factory).wf(),
        draws_labels(*old(payload)) ==> old(factory).next_index() < i16::MAX - 1,
    ensures
        final(factory).wf(),
        final(factory).prefix() == old(factory).prefix(),
        final(factory).next_index() == old(factory).next_index() + if draws_labels(*old(payload)) {
            2int
        } else {
            0int
        },
        views_of(r@) == kept_lines(
            payload_lines(
                *old(payload),
                old(factory).prefix(),
                instruction_id as nat,
                variable_name(old(factory).prefix(), old(factory).next_index() as int),
                variable_name(old(factory).prefix(), old(factory).next_index() + 1),
            ),
            *opts,
        ),
        final(payload)@ == payload_taken(old(payload)@),
{
    let prefix = factory.prefix_bytes();
    let lines = match payload {
        AsmInstructionPayload::Memory(m) => translate_memory_token(&to_memory_token(m), prefix),
        AsmInstructionPayload::Arithmetic(a) => translate_arithmetic_command(a, factory),
        AsmInstructionPayload::Branch(b) => translate_branch_token(b),
        AsmInstructionPayload::Function(f) => translate_function_token(f, prefix, instruction_id),
    };
    if opts.comments {
        lines
    } else {
        without_comments(lines)
    }
}

/// With comments off, what is written holds no comment, and every line
/// that is not a comment is kept, in its order: dropping comments twice
/// drops nothing more.
pub proof fn lemma_drop_comments(s: Seq<Seq<u8>>)
    ensures
        forall|i: int| 0 <= i < drop_comments(s).len() ==> !is_comment(#[trigger] drop_comments(s)[i]),
        drop_comments(drop_comments(s)) == drop_comments(s),
        drop_comments(s).len() <= s.len(),
        (forall|i: int| 0 <= i < s.len() ==> !is_comment(#[trigger] s[i])) ==> drop_comments(s) == s,
    decreases s.len(),
{
    if s.len() > 0 {
        let p = s.drop_last();
        lemma_drop_comments(p);
        let r = drop_comments(p);
        if !is_comment(s.last()) {
            let q = r.push(s.last());
            assert(q.drop_last() =~= r);
            assert(q.last() == s.last());
            assert(drop_comments(q) == drop_comments(r).push(s.last()));
        }
        if forall|i: int| 0 <= i < s.len() ==> !is_comment(#[trigger] s[i]) {
            assert forall|i: int| 0 <= i < p.len() implies !is_comment(#[trigger] p[i]) by {
                assert(p[i] == s[i]);
            }
            assert(!is_comment(s[s.len() - 1]));
            assert(s =~= p.push(s.last()));
        }
    }
}

/// A parsed memory command reaches the translator with its own segment,
/// kind and value: the token names the same segment and kind in VM text.
pub proof fn lemma_memory_token_names(m: AsmMemoryInstruction)
    ensures
        vm_segment_text(memory_token_of(m).segment) == segment_text(m.segment),
        memory_token_kind_text(memory_token_of(m).kind) == memory_kind_text(m.kind),
        memory_token_of(m).val == m.val,
{
}

/// With `x` the cell under the top and `y` the top, popped into `D` and
/// reached as `M`: add stores `D+M`, sub stores `M-D` (x - y), and/or store
/// `D&M`/`D|M`, neg and not rewrite the top as `-M`/`!M`; a comparison
/// computes `D=M-D` (x - y) and jumps to its true label on `JEQ`, `JGT` or
/// `JLT` of that difference.
pub proof fn lemma_arithmetic_spellings(t: Seq<u8>, f: Seq<u8>)
    ensures
        arithmetic_lines(AsmArithmeticInstruction::Add, t, f).last() == seq!['M' as u8, '=' as u8, 'D' as u8, '+' as u8, 'M' as u8],
        arithmetic_lines(AsmArithmeticInstruction::Sub, t, f).last() == seq!['M' as u8, '=' as u8, 'M' as u8, '-' as u8, 'D' as u8],
        arithmetic_lines(AsmArithmeticInstruction::And, t, f).last() == seq!['M' as u8, '=' as u8, 'D' as u8, '&' as u8, 'M' as u8],
        arithmetic_lines(AsmArithmeticInstruction::Or, t, f).last() == seq!['M' as u8, '=' as u8, 'D' as u8, '|' as u8, 'M' as u8],
        arithmetic_lines(AsmArithmeticInstruction::Neg, t, f).last() == seq!['M' as u8, '=' as u8, '-' as u8, 'M' as u8],
        arithmetic_lines(AsmArithmeticInstruction::Not, t, f).last() == seq!['M' as u8, '=' as u8, '!' as u8, 'M' as u8],
        arithmetic_lines(AsmArithmeticInstruction::Eq, t, f)[pop_lines().len() as int + 2] == seq!['D' as u8, '=' as u8, 'M' as u8, '-' as u8, 'D' as u8],
        arithmetic_lines(AsmArithmeticInstruction::Eq, t, f)[pop_lines().len() as int + 4] == seq!['D' as u8, ';' as u8, 'J' as u8, 'E' as u8, 'Q' as u8],
        arithmetic_lines(AsmArithmeticInstruction::Gt, t, f)[pop_lines().len() as int + 2] == seq!['D' as u8, '=' as u8, 'M' as u8, '-' as u8, 'D' as u8],
        arithmetic_lines(AsmArithmeticInstruction::Gt, t, f)[pop_lines().len() as int + 4] == seq!['D' as u8, ';' as u8, 'J' as u8, 'G' as u8, 'T' as u8],
        arithmetic_lines(AsmArithmeticInstruction::Lt, t, f)[pop_lines().len() as int + 2] == seq!['D' as u8, '=' as u8, 'M' as u8, '-' as u8, 'D' as u8],
        arithmetic_lines(AsmArithmeticInstruction::Lt, t, f)[pop_lines().len() as int + 4] == seq!['D' as u8, ';' as u8, 'J' as u8, 'L' as u8, 'T' as u8],
{
}

/// Each segment is reached through its Hack base symbol: `argument` through
/// `@ARG`, `local` through `@LCL`, `this` through `@THIS`, `that` through
/// `@THAT`; a pointer cell 0 is `@THIS` and 1 is `@THAT`, a temp cell `n`
/// is `@(5+n)`.
pub proof fn lemma_segment_bases(prefix: Seq<u8>, k: MemoryTokenKind, n: i16)
    ensures
        segment_base(Segment::Arg) == seq!['@' as u8, 'A' as u8, 'R' as u8, 'G' as u8],
        segment_base(Segment::Local) == seq!['@' as u8, 'L' as u8, 'C' as u8, 'L' as u8],
        segment_base(Segment::This) == seq!['@' as u8, 'T' as u8, 'H' as u8, 'I' as u8, 'S' as u8],
        segment_base(Segment::That) == seq!['@' as u8, 'T' as u8, 'H' as u8, 'A' as u8, 'T' as u8],
        address_lines(MemoryToken { segment: Segment::Pointer, kind: k, val: 0 }, prefix) == seq![seq!['@' as u8, 'T' as u8, 'H' as u8, 'I' as u8, 'S' as u8]],
        address_lines(MemoryToken { segment: Segment::Pointer, kind: k, val: 1 }, prefix) == seq![seq!['@' as u8, 'T' as u8, 'H' as u8, 'A' as u8, 'T' as u8]],
        address_lines(MemoryToken { segment: Segment::Temp, kind: k, val: n }, prefix) == seq![
            seq!['@' as u8] + int_text(n + 5),
        ],
{
}

/// The Hack lines of arithmetic, branch and function commands, spelt out.
pub proof fn lemma_translation_line_spellings()
    ensures
        a_eq_m_minus_1() == seq!['A' as u8, '=' as u8, 'M' as u8, '-' as u8, '1' as u8],
        m_eq_neg_m() == seq!['M' as u8, '=' as u8, '-' as u8, 'M' as u8],
        m_eq_not_m() == seq!['M' as u8, '=' as u8, '!' as u8, 'M' as u8],
        m_eq_d_plus_m() == seq!['M' as u8, '=' as u8, 'D' as u8, '+' as u8, 'M' as u8],
        m_eq_m_minus_d() == seq!['M' as u8, '=' as u8, 'M' as u8, '-' as u8, 'D' as u8],
        m_eq_d_or_m() == seq!['M' as u8, '=' as u8, 'D' as u8, '|' as u8, 'M' as u8],
        m_eq_d_and_m() == seq!['M' as u8, '=' as u8, 'D' as u8, '&' as u8, 'M' as u8],
        d_eq_m_minus_d() == seq!['D' as u8, '=' as u8, 'M' as u8, '-' as u8, 'D' as u8],
        d_jeq() == seq!['D' as u8, ';' as u8, 'J' as u8, 'E' as u8, 'Q' as u8],
        d_jgt() == seq!['D' as u8, ';' as u8, 'J' as u8, 'G' as u8, 'T' as u8],
        d_jlt() == seq!['D' as u8, ';' as u8, 'J' as u8, 'L' as u8, 'T' as u8],
        d_jne() == seq!['D' as u8, ';' as u8, 'J' as u8, 'N' as u8, 'E' as u8],
        m_eq_zero() == seq!['M' as u8, '=' as u8, '0' as u8],
        zero_jmp() == seq!['0' as u8, ';' as u8, 'J' as u8, 'M' as u8, 'P' as u8],
        m_eq_minus_one() == seq!['M' as u8, '=' as u8, '-' as u8, '1' as u8],
        d_eq_m_plus_1() == seq!['D' as u8, '=' as u8, 'M' as u8, '+' as u8, '1' as u8],
        a_eq_d_minus_a() == seq!['A' as u8, '=' as u8, 'D' as u8, '-' as u8, 'A' as u8],
        d_eq_d_minus_a() == seq!['D' as u8, '=' as u8, 'D' as u8, '-' as u8, 'A' as u8],
        at_r13() == seq!['@' as u8, 'R' as u8, '1' as u8, '3' as u8],
        at_r14() == seq!['@' as u8, 'R' as u8, '1' as u8, '4' as u8],
        push_locals_comment() == seq!['/' as u8, '/' as u8, ' ' as u8, 'P' as u8, 'u' as u8, 's' as u8, 'h' as u8, ' ' as u8, 'l' as u8, 'o' as u8, 'c' as u8, 'a' as u8, 'l' as u8, ' ' as u8, 'v' as u8, 'a' as u8, 'r' as u8, 'i' as u8, 'a' as u8, 'b' as u8, 'l' as u8, 'e' as u8, 's' as u8],
        execute_body_comment() == seq!['/' as u8, '/' as u8, ' ' as u8, 'E' as u8, 'x' as u8, 'e' as u8, 'c' as u8, 'u' as u8, 't' as u8, 'e' as u8, ' ' as u8, 'b' as u8, 'o' as u8, 'd' as u8, 'y' as u8],
        save_return_comment() == seq!['/' as u8, '/' as u8, ' ' as u8, 'S' as u8, 'a' as u8, 'v' as u8, 'e' as u8, ' ' as u8, 'r' as u8, 'e' as u8, 't' as u8, 'u' as u8, 'r' as u8, 'n' as u8, ' ' as u8, 'a' as u8, 'd' as u8, 'd' as u8, 'r' as u8, 'e' as u8, 's' as u8, 's' as u8, ' ' as u8, 'i' as u8, 'n' as u8, ' ' as u8, 'c' as u8, 'a' as u8, 's' as u8, 'e' as u8, ' ' as u8, 'z' as u8, 'e' as u8, 'r' as u8, 'o' as u8, ' ' as u8, 'a' as u8, 'r' as u8, 'g' as u8, 'u' as u8, 'm' as u8, 'e' as u8, 'n' as u8, 't' as u8, 's' as u8],
        push_zero_arg_comment() == seq!['/' as u8, '/' as u8, ' ' as u8, 'P' as u8, 'u' as u8, 's' as u8, 'h' as u8, ' ' as u8, 'v' as u8, 'a' as u8, 'l' as u8, 'u' as u8, 'e' as u8, ' ' as u8, 't' as u8, 'o' as u8, ' ' as u8, 'z' as u8, 'e' as u8, 'r' as u8, 'o' as u8, ' ' as u8, 'A' as u8, 'R' as u8, 'G' as u8],
        move_sp_comment() == seq!['/' as u8, '/' as u8, ' ' as u8, 'M' as u8, 'o' as u8, 'v' as u8, 'e' as u8, ' ' as u8, 'S' as u8, 'P' as u8, ' ' as u8, 't' as u8, 'o' as u8, ' ' as u8, 'r' as u8, 'e' as u8, 's' as u8, 't' as u8, 'o' as u8, 'r' as u8, 'i' as u8, 'n' as u8, 'g' as u8, ' ' as u8, 's' as u8, 'e' as u8, 'g' as u8, 'm' as u8, 'e' as u8, 'n' as u8, 't' as u8, 's' as u8],
        restoring_comment() == seq!['/' as u8, '/' as u8, ' ' as u8, 'R' as u8, 'e' as u8, 's' as u8, 't' as u8, 'o' as u8, 'r' as u8, 'i' as u8, 'n' as u8, 'g' as u8, ' ' as u8, 'c' as u8, 'o' as u8, 'l' as u8, 'l' as u8, 'e' as u8, 'r' as u8, ' ' as u8, 's' as u8, 'e' as u8, 'g' as u8, 'e' as u8, 'm' as u8, 'n' as u8, 't' as u8, 's' as u8],
        move_pc_comment() == seq!['/' as u8, '/' as u8, ' ' as u8, 'M' as u8, 'o' as u8, 'v' as u8, 'e' as u8, ' ' as u8, 'P' as u8, 'C' as u8, ' ' as u8, 'b' as u8, 'a' as u8, 'c' as u8, 'k' as u8],
        return_back_comment() == seq!['/' as u8, '/' as u8, ' ' as u8, 'R' as u8, 'e' as u8, 't' as u8, 'u' as u8, 'r' as u8, 'n' as u8, ' ' as u8, 'b' as u8, 'a' as u8, 'c' as u8, 'k' as u8, ' ' as u8, 't' as u8, 'o' as u8, ' ' as u8, 'c' as u8, 'a' as u8, 'l' as u8, 'l' as u8, 'e' as u8, 'r' as u8, ' ' as u8, 'f' as u8, 'u' as u8, 'n' as u8, 'c' as u8, 't' as u8, 'i' as u8, 'o' as u8, 'n' as u8],
        call_comment() == seq!['/' as u8, '/' as u8, ' ' as u8, 'C' as u8, 'a' as u8, 'l' as u8, 'l' as u8, ' ' as u8, 'f' as u8, 'u' as u8, 'n' as u8, 'c' as u8, 't' as u8, 'i' as u8, 'o' as u8, 'n' as u8],
        saving_comment() == seq!['/' as u8, '/' as u8, ' ' as u8, 'S' as u8, 'a' as u8, 'v' as u8, 'i' as u8, 'n' as u8, 'g' as u8, ' ' as u8, 'c' as u8, 'u' as u8, 'r' as u8, 'r' as u8, 'e' as u8, 'n' as u8, 't' as u8, ' ' as u8, 's' as u8, 'e' as u8, 'g' as u8, 'e' as u8, 'm' as u8, 'n' as u8, 't' as u8, 's' as u8],
        saved_comment() == seq!['/' as u8, '/' as u8, ' ' as u8, 'S' as u8, 'a' as u8, 'v' as u8, 'e' as u8, 'd' as u8, ' ' as u8, 'c' as u8, 'u' as u8, 'r' as u8, 'r' as u8, 'e' as u8, 'n' as u8, 't' as u8, ' ' as u8, 's' as u8, 'e' as u8, 'g' as u8, 'e' as u8, 'm' as u8, 'n' as u8, 't' as u8, 's' as u8],
        set_arg_comment() == seq!['/' as u8, '/' as u8, ' ' as u8, 'S' as u8, 'e' as u8, 't' as u8, ' ' as u8, 'A' as u8, 'R' as u8, 'G' as u8, ' ' as u8, 'p' as u8, 'o' as u8, 'i' as u8, 'n' as u8, 't' as u8, 'e' as u8, 'r' as u8],
        set_lcl_comment() == seq!['/' as u8, '/' as u8, ' ' as u8, 'S' as u8, 'e' as u8, 't' as u8, ' ' as u8, 'L' as u8, 'C' as u8, 'L' as u8, ' ' as u8, '=' as u8, ' ' as u8, 'S' as u8, 'P' as u8],
        goto_body_comment() == seq!['/' as u8, '/' as u8, ' ' as u8, 'G' as u8, 'o' as u8, 't' as u8, 'o' as u8, ' ' as u8, 'f' as u8, 'u' as u8, 'n' as u8, 'c' as u8, 't' as u8, 'i' as u8, 'o' as u8, 'n' as u8, ' ' as u8, 'b' as u8, 'o' as u8, 'd' as u8, 'y' as u8],
        returned_comment() == seq!['/' as u8, '/' as u8, ' ' as u8, 'H' as u8, 'e' as u8, 'r' as u8, 'e' as u8, ' ' as u8, 'w' as u8, 'e' as u8, ' ' as u8, 'r' as u8, 'e' as u8, 't' as u8, 'u' as u8, 'r' as u8, 'n' as u8, ' ' as u8, 'a' as u8, 'f' as u8, 't' as u8, 'e' as u8, 'r' as u8, ' ' as u8, 'f' as u8, 'u' as u8, 'n' as u8, 'c' as u8, 't' as u8, 'i' as u8, 'o' as u8, 'n' as u8, ' ' as u8, 'e' as u8, 'x' as u8, 'e' as u8, 'c' as u8, 'u' as u8, 't' as u8, 'i' as u8, 'o' as u8, 'n' as u8],
        end_call_comment() == seq!['/' as u8, '/' as u8, ' ' as u8, 'E' as u8, 'n' as u8, 'd' as u8, ' ' as u8, 'f' as u8, 'u' as u8, 'n' as u8, 'c' as u8, 't' as u8, 'i' as u8, 'o' as u8, 'n' as u8, ' ' as u8, 'c' as u8, 'a' as u8, 'l' as u8, 'l' as u8],
{
}

/// A label is defined by its name in brackets and reached by `@` and its
/// name; a call returns to the label `name.prefix.id`.
pub proof fn lemma_label_spellings(name: Seq<u8>, prefix: Seq<u8>, id: nat)
    ensures
        label_line(name) == seq!['(' as u8] + name + seq![')' as u8],
        var_line(name) == seq!['@' as u8] + name,
        return_label(name, prefix, id) == name + seq!['.' as u8] + prefix + seq!['.' as u8] + nat_digits(id),
{
}

} // verus!

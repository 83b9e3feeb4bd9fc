use vstd::prelude::*;

verus! {

/// Takes the top of the stack into `D`.
pub open spec fn pop_from_sp() -> Seq<u8> {
    seq![47u8, 47u8, 32u8, 68u8, 101u8, 99u8, 114u8, 105u8, 109u8, 101u8, 110u8, 116u8, 32u8, 115u8, 112u8, 10u8, 64u8, 83u8, 80u8, 10u8, 77u8, 61u8, 77u8, 45u8, 49u8, 10u8, 47u8, 47u8, 32u8, 69u8, 120u8, 116u8, 114u8, 97u8, 99u8, 116u8, 32u8, 118u8, 97u8, 108u8, 117u8, 101u8, 32u8, 102u8, 114u8, 111u8, 109u8, 32u8, 115u8, 112u8, 10u8, 64u8, 83u8, 80u8, 10u8, 65u8, 61u8, 77u8, 10u8, 68u8, 61u8, 77u8, 10u8]
}

pub(crate) fn pop_from_sp_bytes() -> (r: &'static [u8])
    ensures
        r@ == pop_from_sp(),
{
    let r: &'static [u8] = &[47u8, 47u8, 32u8, 68u8, 101u8, 99u8, 114u8, 105u8, 109u8, 101u8, 110u8, 116u8, 32u8, 115u8, 112u8, 10u8, 64u8, 83u8, 80u8, 10u8, 77u8, 61u8, 77u8, 45u8, 49u8, 10u8, 47u8, 47u8, 32u8, 69u8, 120u8, 116u8, 114u8, 97u8, 99u8, 116u8, 32u8, 118u8, 97u8, 108u8, 117u8, 101u8, 32u8, 102u8, 114u8, 111u8, 109u8, 32u8, 115u8, 112u8, 10u8, 64u8, 83u8, 80u8, 10u8, 65u8, 61u8, 77u8, 10u8, 68u8, 61u8, 77u8, 10u8];
    assert(r@ =~= pop_from_sp());
    r
}

/// Pushes `D` onto the stack.
pub open spec fn push_to_sp() -> Seq<u8> {
    seq![47u8, 47u8, 32u8, 87u8, 114u8, 105u8, 116u8, 101u8, 32u8, 118u8, 97u8, 108u8, 117u8, 101u8, 32u8, 116u8, 111u8, 32u8, 115u8, 112u8, 10u8, 64u8, 83u8, 80u8, 10u8, 65u8, 61u8, 77u8, 10u8, 77u8, 61u8, 68u8, 10u8, 47u8, 47u8, 32u8, 73u8, 110u8, 99u8, 114u8, 105u8, 109u8, 101u8, 110u8, 116u8, 32u8, 115u8, 112u8, 10u8, 64u8, 83u8, 80u8, 10u8, 77u8, 61u8, 77u8, 43u8, 49u8, 10u8]
}

pub(crate) fn push_to_sp_bytes() -> (r: &'static [u8])
    ensures
        r@ == push_to_sp(),
{
    let r: &'static [u8] = &[47u8, 47u8, 32u8, 87u8, 114u8, 105u8, 116u8, 101u8, 32u8, 118u8, 97u8, 108u8, 117u8, 101u8, 32u8, 116u8, 111u8, 32u8, 115u8, 112u8, 10u8, 64u8, 83u8, 80u8, 10u8, 65u8, 61u8, 77u8, 10u8, 77u8, 61u8, 68u8, 10u8, 47u8, 47u8, 32u8, 73u8, 110u8, 99u8, 114u8, 105u8, 109u8, 101u8, 110u8, 116u8, 32u8, 115u8, 112u8, 10u8, 64u8, 83u8, 80u8, 10u8, 77u8, 61u8, 77u8, 43u8, 49u8, 10u8];
    assert(r@ =~= push_to_sp());
    r
}

/// Opens a comment.
pub open spec fn comment_open() -> Seq<u8> {
    seq![47u8, 47u8, 32u8]
}

pub(crate) fn comment_open_bytes() -> (r: &'static [u8])
    ensures
        r@ == comment_open(),
{
    let r: &'static [u8] = &[47u8, 47u8, 32u8];
    assert(r@ =~= comment_open());
    r
}

/// Ends a symbol and follows it.
pub open spec fn deref_a() -> Seq<u8> {
    seq![10u8, 65u8, 61u8, 77u8, 10u8]
}

pub(crate) fn deref_a_bytes() -> (r: &'static [u8])
    ensures
        r@ == deref_a(),
{
    let r: &'static [u8] = &[10u8, 65u8, 61u8, 77u8, 10u8];
    assert(r@ =~= deref_a());
    r
}

/// Steps `A` to the next cell.
pub open spec fn next_a() -> Seq<u8> {
    seq![65u8, 61u8, 65u8, 43u8, 49u8, 10u8]
}

pub(crate) fn next_a_bytes() -> (r: &'static [u8])
    ensures
        r@ == next_a(),
{
    let r: &'static [u8] = &[65u8, 61u8, 65u8, 43u8, 49u8, 10u8];
    assert(r@ =~= next_a());
    r
}

/// Loads the cell into `D`.
pub open spec fn load_d() -> Seq<u8> {
    seq![68u8, 61u8, 77u8, 10u8]
}

pub(crate) fn load_d_bytes() -> (r: &'static [u8])
    ensures
        r@ == load_d(),
{
    let r: &'static [u8] = &[68u8, 61u8, 77u8, 10u8];
    assert(r@ =~= load_d());
    r
}

/// Stores `D` into the cell.
pub open spec fn store_d() -> Seq<u8> {
    seq![77u8, 61u8, 68u8, 10u8]
}

pub(crate) fn store_d_bytes() -> (r: &'static [u8])
    ensures
        r@ == store_d(),
{
    let r: &'static [u8] = &[77u8, 61u8, 68u8, 10u8];
    assert(r@ =~= store_d());
    r
}

/// Ends a number and loads it into `D`.
pub open spec fn end_load_const() -> Seq<u8> {
    seq![10u8, 68u8, 61u8, 65u8, 10u8]
}

pub(crate) fn end_load_const_bytes() -> (r: &'static [u8])
    ensures
        r@ == end_load_const(),
{
    let r: &'static [u8] = &[10u8, 68u8, 61u8, 65u8, 10u8];
    assert(r@ =~= end_load_const());
    r
}

/// Ends a symbol and loads its cell into `D`.
pub open spec fn end_load() -> Seq<u8> {
    seq![10u8, 68u8, 61u8, 77u8, 10u8]
}

pub(crate) fn end_load_bytes() -> (r: &'static [u8])
    ensures
        r@ == end_load(),
{
    let r: &'static [u8] = &[10u8, 68u8, 61u8, 77u8, 10u8];
    assert(r@ =~= end_load());
    r
}

/// Ends a symbol and stores `D` into its cell.
pub open spec fn end_store() -> Seq<u8> {
    seq![10u8, 77u8, 61u8, 68u8, 10u8]
}

pub(crate) fn end_store_bytes() -> (r: &'static [u8])
    ensures
        r@ == end_store(),
{
    let r: &'static [u8] = &[10u8, 77u8, 61u8, 68u8, 10u8];
    assert(r@ =~= end_store());
    r
}

/// Loads `THIS` into `D`.
pub open spec fn this_load() -> Seq<u8> {
    seq![64u8, 84u8, 72u8, 73u8, 83u8, 10u8, 68u8, 61u8, 77u8, 10u8]
}

pub(crate) fn this_load_bytes() -> (r: &'static [u8])
    ensures
        r@ == this_load(),
{
    let r: &'static [u8] = &[64u8, 84u8, 72u8, 73u8, 83u8, 10u8, 68u8, 61u8, 77u8, 10u8];
    assert(r@ =~= this_load());
    r
}

/// Loads `THAT` into `D`.
pub open spec fn that_load() -> Seq<u8> {
    seq![64u8, 84u8, 72u8, 65u8, 84u8, 10u8, 68u8, 61u8, 77u8, 10u8]
}

pub(crate) fn that_load_bytes() -> (r: &'static [u8])
    ensures
        r@ == that_load(),
{
    let r: &'static [u8] = &[64u8, 84u8, 72u8, 65u8, 84u8, 10u8, 68u8, 61u8, 77u8, 10u8];
    assert(r@ =~= that_load());
    r
}

/// Stores `D` into `THIS`.
pub open spec fn this_store() -> Seq<u8> {
    seq![64u8, 84u8, 72u8, 73u8, 83u8, 10u8, 77u8, 61u8, 68u8, 10u8]
}

pub(crate) fn this_store_bytes() -> (r: &'static [u8])
    ensures
        r@ == this_store(),
{
    let r: &'static [u8] = &[64u8, 84u8, 72u8, 73u8, 83u8, 10u8, 77u8, 61u8, 68u8, 10u8];
    assert(r@ =~= this_store());
    r
}

/// Stores `D` into `THAT`.
pub open spec fn that_store() -> Seq<u8> {
    seq![64u8, 84u8, 72u8, 65u8, 84u8, 10u8, 77u8, 61u8, 68u8, 10u8]
}

pub(crate) fn that_store_bytes() -> (r: &'static [u8])
    ensures
        r@ == that_store(),
{
    let r: &'static [u8] = &[64u8, 84u8, 72u8, 65u8, 84u8, 10u8, 77u8, 61u8, 68u8, 10u8];
    assert(r@ =~= that_store());
    r
}

/// `ARG`
pub open spec fn label_arg() -> Seq<u8> {
    seq![65u8, 82u8, 71u8]
}

pub(crate) fn label_arg_bytes() -> (r: &'static [u8])
    ensures
        r@ == label_arg(),
{
    let r: &'static [u8] = &[65u8, 82u8, 71u8];
    assert(r@ =~= label_arg());
    r
}

/// `THIS`
pub open spec fn label_this() -> Seq<u8> {
    seq![84u8, 72u8, 73u8, 83u8]
}

pub(crate) fn label_this_bytes() -> (r: &'static [u8])
    ensures
        r@ == label_this(),
{
    let r: &'static [u8] = &[84u8, 72u8, 73u8, 83u8];
    assert(r@ =~= label_this());
    r
}

/// `THAT`
pub open spec fn label_that() -> Seq<u8> {
    seq![84u8, 72u8, 65u8, 84u8]
}

pub(crate) fn label_that_bytes() -> (r: &'static [u8])
    ensures
        r@ == label_that(),
{
    let r: &'static [u8] = &[84u8, 72u8, 65u8, 84u8];
    assert(r@ =~= label_that());
    r
}

/// `LCL`
pub open spec fn label_lcl() -> Seq<u8> {
    seq![76u8, 67u8, 76u8]
}

pub(crate) fn label_lcl_bytes() -> (r: &'static [u8])
    ensures
        r@ == label_lcl(),
{
    let r: &'static [u8] = &[76u8, 67u8, 76u8];
    assert(r@ =~= label_lcl());
    r
}

/// `Pop`
pub open spec fn debug_pop() -> Seq<u8> {
    seq![80u8, 111u8, 112u8]
}

pub(crate) fn debug_pop_bytes() -> (r: &'static [u8])
    ensures
        r@ == debug_pop(),
{
    let r: &'static [u8] = &[80u8, 111u8, 112u8];
    assert(r@ =~= debug_pop());
    r
}

/// `Push`
pub open spec fn debug_push() -> Seq<u8> {
    seq![80u8, 117u8, 115u8, 104u8]
}

pub(crate) fn debug_push_bytes() -> (r: &'static [u8])
    ensures
        r@ == debug_push(),
{
    let r: &'static [u8] = &[80u8, 117u8, 115u8, 104u8];
    assert(r@ =~= debug_push());
    r
}

/// `Arg`
pub open spec fn debug_arg() -> Seq<u8> {
    seq![65u8, 114u8, 103u8]
}

pub(crate) fn debug_arg_bytes() -> (r: &'static [u8])
    ensures
        r@ == debug_arg(),
{
    let r: &'static [u8] = &[65u8, 114u8, 103u8];
    assert(r@ =~= debug_arg());
    r
}

/// `Const`
pub open spec fn debug_const() -> Seq<u8> {
    seq![67u8, 111u8, 110u8, 115u8, 116u8]
}

pub(crate) fn debug_const_bytes() -> (r: &'static [u8])
    ensures
        r@ == debug_const(),
{
    let r: &'static [u8] = &[67u8, 111u8, 110u8, 115u8, 116u8];
    assert(r@ =~= debug_const());
    r
}

/// `Pointer`
pub open spec fn debug_pointer() -> Seq<u8> {
    seq![80u8, 111u8, 105u8, 110u8, 116u8, 101u8, 114u8]
}

pub(crate) fn debug_pointer_bytes() -> (r: &'static [u8])
    ensures
        r@ == debug_pointer(),
{
    let r: &'static [u8] = &[80u8, 111u8, 105u8, 110u8, 116u8, 101u8, 114u8];
    assert(r@ =~= debug_pointer());
    r
}

/// `Static`
pub open spec fn debug_static() -> Seq<u8> {
    seq![83u8, 116u8, 97u8, 116u8, 105u8, 99u8]
}

pub(crate) fn debug_static_bytes() -> (r: &'static [u8])
    ensures
        r@ == debug_static(),
{
    let r: &'static [u8] = &[83u8, 116u8, 97u8, 116u8, 105u8, 99u8];
    assert(r@ =~= debug_static());
    r
}

/// `Local`
pub open spec fn debug_local() -> Seq<u8> {
    seq![76u8, 111u8, 99u8, 97u8, 108u8]
}

pub(crate) fn debug_local_bytes() -> (r: &'static [u8])
    ensures
        r@ == debug_local(),
{
    let r: &'static [u8] = &[76u8, 111u8, 99u8, 97u8, 108u8];
    assert(r@ =~= debug_local());
    r
}

/// `Temp`
pub open spec fn debug_temp() -> Seq<u8> {
    seq![84u8, 101u8, 109u8, 112u8]
}

pub(crate) fn debug_temp_bytes() -> (r: &'static [u8])
    ensures
        r@ == debug_temp(),
{
    let r: &'static [u8] = &[84u8, 101u8, 109u8, 112u8];
    assert(r@ =~= debug_temp());
    r
}

/// `That`
pub open spec fn debug_that() -> Seq<u8> {
    seq![84u8, 104u8, 97u8, 116u8]
}

pub(crate) fn debug_that_bytes() -> (r: &'static [u8])
    ensures
        r@ == debug_that(),
{
    let r: &'static [u8] = &[84u8, 104u8, 97u8, 116u8];
    assert(r@ =~= debug_that());
    r
}

/// `This`
pub open spec fn debug_this() -> Seq<u8> {
    seq![84u8, 104u8, 105u8, 115u8]
}

pub(crate) fn debug_this_bytes() -> (r: &'static [u8])
    ensures
        r@ == debug_this(),
{
    let r: &'static [u8] = &[84u8, 104u8, 105u8, 115u8];
    assert(r@ =~= debug_this());
    r
}

/// Opens the update of the new top of the stack.
pub open spec fn update_in_place() -> Seq<u8> {
    seq![47u8, 47u8, 32u8, 85u8, 112u8, 100u8, 97u8, 116u8, 101u8, 32u8, 105u8, 110u8, 32u8, 112u8, 108u8, 97u8, 99u8, 101u8, 32u8, 115u8, 112u8, 10u8, 64u8, 83u8, 80u8, 10u8, 65u8, 61u8, 77u8, 45u8, 49u8, 10u8, 77u8, 61u8, 77u8]
}

pub(crate) fn update_in_place_bytes() -> (r: &'static [u8])
    ensures
        r@ == update_in_place(),
{
    let r: &'static [u8] = &[47u8, 47u8, 32u8, 85u8, 112u8, 100u8, 97u8, 116u8, 101u8, 32u8, 105u8, 110u8, 32u8, 112u8, 108u8, 97u8, 99u8, 101u8, 32u8, 115u8, 112u8, 10u8, 64u8, 83u8, 80u8, 10u8, 65u8, 61u8, 77u8, 45u8, 49u8, 10u8, 77u8, 61u8, 77u8];
    assert(r@ =~= update_in_place());
    r
}

/// Ends an update with `D`.
pub open spec fn d_line_end() -> Seq<u8> {
    seq![68u8, 10u8]
}

pub(crate) fn d_line_end_bytes() -> (r: &'static [u8])
    ensures
        r@ == d_line_end(),
{
    let r: &'static [u8] = &[68u8, 10u8];
    assert(r@ =~= d_line_end());
    r
}

/// Compares the two top values.
pub open spec fn write_comparison() -> Seq<u8> {
    seq![47u8, 47u8, 32u8, 87u8, 114u8, 105u8, 116u8, 101u8, 32u8, 99u8, 109u8, 112u8, 32u8, 114u8, 101u8, 115u8, 117u8, 108u8, 116u8, 32u8, 115u8, 112u8, 10u8, 64u8, 83u8, 80u8, 10u8, 65u8, 61u8, 77u8, 45u8, 49u8, 10u8, 68u8, 61u8, 77u8, 45u8, 68u8, 10u8]
}

pub(crate) fn write_comparison_bytes() -> (r: &'static [u8])
    ensures
        r@ == write_comparison(),
{
    let r: &'static [u8] = &[47u8, 47u8, 32u8, 87u8, 114u8, 105u8, 116u8, 101u8, 32u8, 99u8, 109u8, 112u8, 32u8, 114u8, 101u8, 115u8, 117u8, 108u8, 116u8, 32u8, 115u8, 112u8, 10u8, 64u8, 83u8, 80u8, 10u8, 65u8, 61u8, 77u8, 45u8, 49u8, 10u8, 68u8, 61u8, 77u8, 45u8, 68u8, 10u8];
    assert(r@ =~= write_comparison());
    r
}

/// `@TRUE`
pub open spec fn at_true() -> Seq<u8> {
    seq![64u8, 84u8, 82u8, 85u8, 69u8]
}

pub(crate) fn at_true_bytes() -> (r: &'static [u8])
    ensures
        r@ == at_true(),
{
    let r: &'static [u8] = &[64u8, 84u8, 82u8, 85u8, 69u8];
    assert(r@ =~= at_true());
    r
}

/// Ends a symbol and opens a jump on `D`.
pub open spec fn jump_d() -> Seq<u8> {
    seq![10u8, 68u8, 59u8]
}

pub(crate) fn jump_d_bytes() -> (r: &'static [u8])
    ensures
        r@ == jump_d(),
{
    let r: &'static [u8] = &[10u8, 68u8, 59u8];
    assert(r@ =~= jump_d());
    r
}

/// Writes false and opens the jump past the true branch.
pub open spec fn write_false() -> Seq<u8> {
    seq![10u8, 64u8, 83u8, 80u8, 10u8, 65u8, 61u8, 77u8, 45u8, 49u8, 10u8, 77u8, 61u8, 48u8, 10u8, 64u8, 70u8, 65u8, 76u8, 83u8, 69u8]
}

pub(crate) fn write_false_bytes() -> (r: &'static [u8])
    ensures
        r@ == write_false(),
{
    let r: &'static [u8] = &[10u8, 64u8, 83u8, 80u8, 10u8, 65u8, 61u8, 77u8, 45u8, 49u8, 10u8, 77u8, 61u8, 48u8, 10u8, 64u8, 70u8, 65u8, 76u8, 83u8, 69u8];
    assert(r@ =~= write_false());
    r
}

/// Jumps and opens the true label.
pub open spec fn jump_true_label() -> Seq<u8> {
    seq![10u8, 48u8, 59u8, 74u8, 77u8, 80u8, 10u8, 40u8, 84u8, 82u8, 85u8, 69u8]
}

pub(crate) fn jump_true_label_bytes() -> (r: &'static [u8])
    ensures
        r@ == jump_true_label(),
{
    let r: &'static [u8] = &[10u8, 48u8, 59u8, 74u8, 77u8, 80u8, 10u8, 40u8, 84u8, 82u8, 85u8, 69u8];
    assert(r@ =~= jump_true_label());
    r
}

/// Closes the true label, writes true and opens the false label.
pub open spec fn write_true() -> Seq<u8> {
    seq![41u8, 10u8, 64u8, 83u8, 80u8, 10u8, 65u8, 61u8, 77u8, 45u8, 49u8, 10u8, 77u8, 61u8, 45u8, 49u8, 10u8, 40u8, 70u8, 65u8, 76u8, 83u8, 69u8]
}

pub(crate) fn write_true_bytes() -> (r: &'static [u8])
    ensures
        r@ == write_true(),
{
    let r: &'static [u8] = &[41u8, 10u8, 64u8, 83u8, 80u8, 10u8, 65u8, 61u8, 77u8, 45u8, 49u8, 10u8, 77u8, 61u8, 45u8, 49u8, 10u8, 40u8, 70u8, 65u8, 76u8, 83u8, 69u8];
    assert(r@ =~= write_true());
    r
}

/// Closes a label.
pub open spec fn close_label() -> Seq<u8> {
    seq![41u8, 10u8]
}

pub(crate) fn close_label_bytes() -> (r: &'static [u8])
    ensures
        r@ == close_label(),
{
    let r: &'static [u8] = &[41u8, 10u8];
    assert(r@ =~= close_label());
    r
}

/// Negates the top of the stack.
pub open spec fn neg_text() -> Seq<u8> {
    seq![47u8, 47u8, 32u8, 110u8, 101u8, 103u8, 10u8, 47u8, 47u8, 32u8, 85u8, 112u8, 100u8, 97u8, 116u8, 101u8, 32u8, 105u8, 110u8, 32u8, 112u8, 108u8, 97u8, 99u8, 101u8, 32u8, 115u8, 112u8, 10u8, 64u8, 83u8, 80u8, 10u8, 65u8, 61u8, 77u8, 45u8, 49u8, 10u8, 77u8, 61u8, 45u8, 77u8, 10u8]
}

pub(crate) fn neg_text_bytes() -> (r: &'static [u8])
    ensures
        r@ == neg_text(),
{
    let r: &'static [u8] = &[47u8, 47u8, 32u8, 110u8, 101u8, 103u8, 10u8, 47u8, 47u8, 32u8, 85u8, 112u8, 100u8, 97u8, 116u8, 101u8, 32u8, 105u8, 110u8, 32u8, 112u8, 108u8, 97u8, 99u8, 101u8, 32u8, 115u8, 112u8, 10u8, 64u8, 83u8, 80u8, 10u8, 65u8, 61u8, 77u8, 45u8, 49u8, 10u8, 77u8, 61u8, 45u8, 77u8, 10u8];
    assert(r@ =~= neg_text());
    r
}

/// Inverts the top of the stack.
pub open spec fn not_text() -> Seq<u8> {
    seq![47u8, 47u8, 32u8, 110u8, 111u8, 116u8, 10u8, 47u8, 47u8, 32u8, 85u8, 112u8, 100u8, 97u8, 116u8, 101u8, 32u8, 105u8, 110u8, 32u8, 112u8, 108u8, 97u8, 99u8, 101u8, 32u8, 115u8, 112u8, 10u8, 64u8, 83u8, 80u8, 10u8, 65u8, 61u8, 77u8, 45u8, 49u8, 10u8, 77u8, 61u8, 33u8, 77u8, 10u8]
}

pub(crate) fn not_text_bytes() -> (r: &'static [u8])
    ensures
        r@ == not_text(),
{
    let r: &'static [u8] = &[47u8, 47u8, 32u8, 110u8, 111u8, 116u8, 10u8, 47u8, 47u8, 32u8, 85u8, 112u8, 100u8, 97u8, 116u8, 101u8, 32u8, 105u8, 110u8, 32u8, 112u8, 108u8, 97u8, 99u8, 101u8, 32u8, 115u8, 112u8, 10u8, 64u8, 83u8, 80u8, 10u8, 65u8, 61u8, 77u8, 45u8, 49u8, 10u8, 77u8, 61u8, 33u8, 77u8, 10u8];
    assert(r@ =~= not_text());
    r
}

/// Opens an unconditional jump.
pub open spec fn goto_open() -> Seq<u8> {
    seq![47u8, 47u8, 32u8, 103u8, 111u8, 116u8, 111u8, 10u8, 64u8]
}

pub(crate) fn goto_open_bytes() -> (r: &'static [u8])
    ensures
        r@ == goto_open(),
{
    let r: &'static [u8] = &[47u8, 47u8, 32u8, 103u8, 111u8, 116u8, 111u8, 10u8, 64u8];
    assert(r@ =~= goto_open());
    r
}

/// Ends an unconditional jump.
pub open spec fn goto_close() -> Seq<u8> {
    seq![10u8, 48u8, 59u8, 74u8, 77u8, 80u8, 10u8]
}

pub(crate) fn goto_close_bytes() -> (r: &'static [u8])
    ensures
        r@ == goto_close(),
{
    let r: &'static [u8] = &[10u8, 48u8, 59u8, 74u8, 77u8, 80u8, 10u8];
    assert(r@ =~= goto_close());
    r
}

/// Opens a conditional jump.
pub open spec fn if_goto_open() -> Seq<u8> {
    seq![47u8, 47u8, 32u8, 105u8, 102u8, 32u8, 103u8, 111u8, 116u8, 111u8, 10u8]
}

pub(crate) fn if_goto_open_bytes() -> (r: &'static [u8])
    ensures
        r@ == if_goto_open(),
{
    let r: &'static [u8] = &[47u8, 47u8, 32u8, 105u8, 102u8, 32u8, 103u8, 111u8, 116u8, 111u8, 10u8];
    assert(r@ =~= if_goto_open());
    r
}

/// Opens the jump target.
pub open spec fn if_goto_at() -> Seq<u8> {
    seq![10u8, 64u8]
}

pub(crate) fn if_goto_at_bytes() -> (r: &'static [u8])
    ensures
        r@ == if_goto_at(),
{
    let r: &'static [u8] = &[10u8, 64u8];
    assert(r@ =~= if_goto_at());
    r
}

/// Ends a conditional jump.
pub open spec fn if_goto_close() -> Seq<u8> {
    seq![10u8, 68u8, 59u8, 74u8, 78u8, 69u8, 10u8]
}

pub(crate) fn if_goto_close_bytes() -> (r: &'static [u8])
    ensures
        r@ == if_goto_close(),
{
    let r: &'static [u8] = &[10u8, 68u8, 59u8, 74u8, 78u8, 69u8, 10u8];
    assert(r@ =~= if_goto_close());
    r
}

/// `add`
pub open spec fn word_add() -> Seq<u8> {
    seq![97u8, 100u8, 100u8]
}

pub(crate) fn word_add_bytes() -> (r: &'static [u8])
    ensures
        r@ == word_add(),
{
    let r: &'static [u8] = &[97u8, 100u8, 100u8];
    assert(r@ =~= word_add());
    r
}

/// `sub`
pub open spec fn word_sub() -> Seq<u8> {
    seq![115u8, 117u8, 98u8]
}

pub(crate) fn word_sub_bytes() -> (r: &'static [u8])
    ensures
        r@ == word_sub(),
{
    let r: &'static [u8] = &[115u8, 117u8, 98u8];
    assert(r@ =~= word_sub());
    r
}

/// `neg`
pub open spec fn word_neg() -> Seq<u8> {
    seq![110u8, 101u8, 103u8]
}

pub(crate) fn word_neg_bytes() -> (r: &'static [u8])
    ensures
        r@ == word_neg(),
{
    let r: &'static [u8] = &[110u8, 101u8, 103u8];
    assert(r@ =~= word_neg());
    r
}

/// `eq`
pub open spec fn word_eq() -> Seq<u8> {
    seq![101u8, 113u8]
}

pub(crate) fn word_eq_bytes() -> (r: &'static [u8])
    ensures
        r@ == word_eq(),
{
    let r: &'static [u8] = &[101u8, 113u8];
    assert(r@ =~= word_eq());
    r
}

/// `gt`
pub open spec fn word_gt() -> Seq<u8> {
    seq![103u8, 116u8]
}

pub(crate) fn word_gt_bytes() -> (r: &'static [u8])
    ensures
        r@ == word_gt(),
{
    let r: &'static [u8] = &[103u8, 116u8];
    assert(r@ =~= word_gt());
    r
}

/// `lt`
pub open spec fn word_lt() -> Seq<u8> {
    seq![108u8, 116u8]
}

pub(crate) fn word_lt_bytes() -> (r: &'static [u8])
    ensures
        r@ == word_lt(),
{
    let r: &'static [u8] = &[108u8, 116u8];
    assert(r@ =~= word_lt());
    r
}

/// `and`
pub open spec fn word_and() -> Seq<u8> {
    seq![97u8, 110u8, 100u8]
}

pub(crate) fn word_and_bytes() -> (r: &'static [u8])
    ensures
        r@ == word_and(),
{
    let r: &'static [u8] = &[97u8, 110u8, 100u8];
    assert(r@ =~= word_and());
    r
}

/// `or`
pub open spec fn word_or() -> Seq<u8> {
    seq![111u8, 114u8]
}

pub(crate) fn word_or_bytes() -> (r: &'static [u8])
    ensures
        r@ == word_or(),
{
    let r: &'static [u8] = &[111u8, 114u8];
    assert(r@ =~= word_or());
    r
}

/// `not`
pub open spec fn word_not() -> Seq<u8> {
    seq![110u8, 111u8, 116u8]
}

pub(crate) fn word_not_bytes() -> (r: &'static [u8])
    ensures
        r@ == word_not(),
{
    let r: &'static [u8] = &[110u8, 111u8, 116u8];
    assert(r@ =~= word_not());
    r
}

/// `push`
pub open spec fn word_push() -> Seq<u8> {
    seq![112u8, 117u8, 115u8, 104u8]
}

pub(crate) fn word_push_bytes() -> (r: &'static [u8])
    ensures
        r@ == word_push(),
{
    let r: &'static [u8] = &[112u8, 117u8, 115u8, 104u8];
    assert(r@ =~= word_push());
    r
}

/// `pop`
pub open spec fn word_pop() -> Seq<u8> {
    seq![112u8, 111u8, 112u8]
}

pub(crate) fn word_pop_bytes() -> (r: &'static [u8])
    ensures
        r@ == word_pop(),
{
    let r: &'static [u8] = &[112u8, 111u8, 112u8];
    assert(r@ =~= word_pop());
    r
}

/// `label`
pub open spec fn word_label() -> Seq<u8> {
    seq![108u8, 97u8, 98u8, 101u8, 108u8]
}

pub(crate) fn word_label_bytes() -> (r: &'static [u8])
    ensures
        r@ == word_label(),
{
    let r: &'static [u8] = &[108u8, 97u8, 98u8, 101u8, 108u8];
    assert(r@ =~= word_label());
    r
}

/// `goto`
pub open spec fn word_goto() -> Seq<u8> {
    seq![103u8, 111u8, 116u8, 111u8]
}

pub(crate) fn word_goto_bytes() -> (r: &'static [u8])
    ensures
        r@ == word_goto(),
{
    let r: &'static [u8] = &[103u8, 111u8, 116u8, 111u8];
    assert(r@ =~= word_goto());
    r
}

/// `if-goto`
pub open spec fn word_if_goto() -> Seq<u8> {
    seq![105u8, 102u8, 45u8, 103u8, 111u8, 116u8, 111u8]
}

pub(crate) fn word_if_goto_bytes() -> (r: &'static [u8])
    ensures
        r@ == word_if_goto(),
{
    let r: &'static [u8] = &[105u8, 102u8, 45u8, 103u8, 111u8, 116u8, 111u8];
    assert(r@ =~= word_if_goto());
    r
}

/// `+`
pub open spec fn op_plus() -> Seq<u8> {
    seq![43u8]
}

pub(crate) fn op_plus_bytes() -> (r: &'static [u8])
    ensures
        r@ == op_plus(),
{
    let r: &'static [u8] = &[43u8];
    assert(r@ =~= op_plus());
    r
}

/// `-`
pub open spec fn op_minus() -> Seq<u8> {
    seq![45u8]
}

pub(crate) fn op_minus_bytes() -> (r: &'static [u8])
    ensures
        r@ == op_minus(),
{
    let r: &'static [u8] = &[45u8];
    assert(r@ =~= op_minus());
    r
}

/// `|`
pub open spec fn op_or() -> Seq<u8> {
    seq![124u8]
}

pub(crate) fn op_or_bytes() -> (r: &'static [u8])
    ensures
        r@ == op_or(),
{
    let r: &'static [u8] = &[124u8];
    assert(r@ =~= op_or());
    r
}

/// `&`
pub open spec fn op_and() -> Seq<u8> {
    seq![38u8]
}

pub(crate) fn op_and_bytes() -> (r: &'static [u8])
    ensures
        r@ == op_and(),
{
    let r: &'static [u8] = &[38u8];
    assert(r@ =~= op_and());
    r
}

/// `JEQ`
pub open spec fn jump_eq() -> Seq<u8> {
    seq![74u8, 69u8, 81u8]
}

pub(crate) fn jump_eq_bytes() -> (r: &'static [u8])
    ensures
        r@ == jump_eq(),
{
    let r: &'static [u8] = &[74u8, 69u8, 81u8];
    assert(r@ =~= jump_eq());
    r
}

/// `JGT`
pub open spec fn jump_gt() -> Seq<u8> {
    seq![74u8, 71u8, 84u8]
}

pub(crate) fn jump_gt_bytes() -> (r: &'static [u8])
    ensures
        r@ == jump_gt(),
{
    let r: &'static [u8] = &[74u8, 71u8, 84u8];
    assert(r@ =~= jump_gt());
    r
}

/// `JLT`
pub open spec fn jump_lt() -> Seq<u8> {
    seq![74u8, 76u8, 84u8]
}

pub(crate) fn jump_lt_bytes() -> (r: &'static [u8])
    ensures
        r@ == jump_lt(),
{
    let r: &'static [u8] = &[74u8, 76u8, 84u8];
    assert(r@ =~= jump_lt());
    r
}

} // verus!

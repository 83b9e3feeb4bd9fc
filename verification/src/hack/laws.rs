use vstd::prelude::*;

use crate::symbolic::written_at;
use crate::util::{int_text, nat_digits};

use super::instruction::{
    a_text, c_text, c_write, c_fits, instr_len, instr_text, instr_write, set_fits, set_len,
    set_write, spec_read_a, spec_read_c, AInstructionV, CInstruction, InstructionV,
};
use super::number::{all_digits, digits_value, spec_parse_i16};
use super::symbols::{
    aconst_text, dest_text, expression_text, jump_text, lemma_aconst_read_text,
    lemma_dest_read_text, lemma_jump_read_text, spec_read_aconst, spec_read_dest,
    spec_read_expression, spec_read_jump, AConst, CInstructionDest, CInstructionExpression,
    CInstructionJump,
};

verus! {

/// The decimal digits of a number read back as that number.
pub proof fn lemma_nat_digits_value(m: nat)
    ensures
        nat_digits(m).len() >= 1,
        all_digits(nat_digits(m)),
        digits_value(nat_digits(m)) == m,
    decreases m,
{
    if m >= 10 {
        lemma_nat_digits_value(m / 10);
        let s = nat_digits(m);
        assert(s.drop_last() =~= nat_digits(m / 10));
        assert(s.last() == (48 + m % 10) as u8);
        assert(m % 10 < 10 && (m / 10) * 10 + m % 10 == m) by (nonlinear_arith);
        assert(((48 + m % 10) as u8) as int == 48 + m % 10);
        assert(digits_value(s) == digits_value(s.drop_last()) * 10 + (s.last() - 48) as nat);
        assert forall|i: int| 0 <= i < s.len() implies 48 <= #[trigger] s[i] <= 57 by {
            if i < s.len() - 1 {
                assert(s[i] == nat_digits(m / 10)[i]);
            }
        }
    } else {
        let s = nat_digits(m);
        assert(s.drop_last() =~= Seq::<u8>::empty());
        assert(((48 + m) as u8) as int == 48 + m);
        assert(s.last() == (48 + m) as u8);
        assert(digits_value(s) == digits_value(s.drop_last()) * 10 + (s.last() - 48) as nat);
    }
}

/// The text of a 16-bit integer is read back as that integer.
pub proof fn lemma_parse_int_text(n: i16)
    ensures
        spec_parse_i16(int_text(n as int)) == Some(n),
{
    if n < 0 {
        let m = (-n) as nat;
        lemma_nat_digits_value(m);
        let t = int_text(n as int);
        assert(t.subrange(1, t.len() as int) =~= nat_digits(m));
    } else {
        let m = n as nat;
        lemma_nat_digits_value(m);
        let t = int_text(n as int);
        assert(48 <= t[0] <= 57);
        assert(t.subrange(0, t.len() as int) =~= t);
    }
}

/// A number's A-instruction is read back from its text.
pub proof fn lemma_read_number_text(n: i16)
    ensures
        spec_read_a(a_text(AInstructionV::Number(n))) == Some(
            (AInstructionV::Number(n), a_text(AInstructionV::Number(n)).len()),
        ),
{
    let b = a_text(AInstructionV::Number(n));
    let t = int_text(n as int);
    assert(b.subrange(1, b.len() as int) =~= t);
    lemma_parse_int_text(n);
    if n < 0 {
        assert(t[0] == 45u8);
    } else {
        lemma_nat_digits_value(n as nat);
        assert(48 <= t[0] <= 57);
    }
    assert(spec_read_aconst(t) is None);
}

/// A predefined symbol's A-instruction is read back from its text.
pub proof fn lemma_read_const_text(c: AConst)
    ensures
        spec_read_a(a_text(AInstructionV::Const(c))) == Some(
            (AInstructionV::Const(c), a_text(AInstructionV::Const(c)).len()),
        ),
{
    let b = a_text(AInstructionV::Const(c));
    assert(b.subrange(1, b.len() as int) =~= aconst_text(c));
    lemma_aconst_read_text(c);
}

/// No computation or jump text holds `=`.
proof fn lemma_no_equals(e: CInstructionExpression, j: CInstructionJump)
    ensures
        forall|i: int|
            0 <= i < (expression_text(e) + jump_text(j)).len() ==> #[trigger] (expression_text(e)
                + jump_text(j))[i] != 61u8,
{
    let b = expression_text(e) + jump_text(j);
    assert forall|i: int| 0 <= i < b.len() implies #[trigger] b[i] != 61u8 by {
        if i < expression_text(e).len() {
            assert(b[i] == expression_text(e)[i]);
        } else {
            assert(b[i] == jump_text(j)[i - expression_text(e).len()]);
        }
    }
}

/// A computation is read back from its text when a jump or nothing follows.
proof fn lemma_expression_then_jump(e: CInstructionExpression, j: CInstructionJump)
    ensures
        spec_read_expression(expression_text(e) + jump_text(j)) == Some(e),
{
    let b = expression_text(e) + jump_text(j);
    assert(forall|i: int| 0 <= i < expression_text(e).len() ==> b[i] == expression_text(e)[i]);
    if j != CInstructionJump::NOJMP {
        assert(b[expression_text(e).len() as int] == 59u8);
    } else {
        assert(b =~= expression_text(e));
    }
}

/// A C-instruction is read back from its text.
pub proof fn lemma_read_c_text(c: CInstruction)
    ensures
        spec_read_c(c_text(c)) == Some((c, c_text(c).len())),
{
    let b = c_text(c);
    let dt = dest_text(c.dest);
    let rest = expression_text(c.expression) + jump_text(c.jump);
    assert(b =~= dt + rest);
    if c.dest != CInstructionDest::NODEST {
        lemma_dest_read_text(c.dest, rest);
    } else {
        lemma_no_equals(c.expression, c.jump);
        assert(dt + rest =~= rest);
        assert(spec_read_dest(rest) == Some(CInstructionDest::NODEST));
    }
    assert(b.subrange(dt.len() as int, b.len() as int) =~= rest);
    lemma_expression_then_jump(c.expression, c.jump);
    let el = expression_text(c.expression).len();
    assert(b.subrange((dt.len() + el) as int, b.len() as int) =~= jump_text(c.jump));
    if c.jump != CInstructionJump::NOJMP {
        lemma_jump_read_text(c.jump, Seq::empty());
        assert(jump_text(c.jump) + Seq::<u8>::empty() =~= jump_text(c.jump));
    }
}

/// Writing a C-instruction leaves its text at the start of the buffer, and
/// reading the written bytes back gives the instruction and its length.
pub proof fn lemma_c_write_read_back(c: CInstruction, b: Seq<u8>)
    requires
        c_fits(c, b.len()),
    ensures
        c_write(c, b).subrange(0, c_text(c).len() as int) == c_text(c),
        spec_read_c(c_write(c, b).subrange(0, c_text(c).len() as int)) == Some((c, c_text(c).len())),
{
    assert(c_write(c, b).subrange(0, c_text(c).len() as int) =~= c_text(c));
    lemma_read_c_text(c);
}

/// The texts of instructions, each followed by a line feed.
pub open spec fn set_text(is: Seq<InstructionV>) -> Seq<u8>
    decreases is.len(),
{
    if is.len() == 0 {
        seq![]
    } else {
        set_text(is.drop_last()) + instr_text(is.last()) + seq![10u8]
    }
}

/// Writing instructions leaves their texts, each followed by a line feed,
/// before the rest of the buffer.
pub proof fn lemma_set_write_clean(is: Seq<InstructionV>, b: Seq<u8>)
    requires
        set_fits(is, b.len()),
    ensures
        set_text(is).len() == set_len(is),
        set_write(is, b) == set_text(is) + b.subrange(set_len(is) as int, b.len() as int),
    decreases is.len(),
{
    if is.len() == 0 {
        assert(b.subrange(0, b.len() as int) =~= b);
    } else {
        let p = is.drop_last();
        let x = is.last();
        lemma_set_write_clean(p, b);
        let c = set_len(p) as int;
        let b1 = set_write(p, b);
        assert(b1.subrange(0, c) =~= set_text(p));
        assert(b1.subrange(c, b1.len() as int) =~= b.subrange(c, b.len() as int));
        let tail = b.subrange(c, b.len() as int);
        let w = instr_write(x, tail);
        match x {
            InstructionV::A(a) => {
                assert(w =~= instr_text(x) + tail.subrange(
                    instr_len(x) as int,
                    tail.len() as int,
                ));
            },
            InstructionV::C(cc) => {
                assert(w =~= instr_text(x) + tail.subrange(
                    instr_len(x) as int,
                    tail.len() as int,
                ));
            },
        }
        assert(set_write(is, b) =~= set_text(is) + b.subrange(set_len(is) as int, b.len() as int));
    }
}

/// The predefined symbols are spelt as the Hack language names them.
pub proof fn lemma_aconst_names()
    ensures
        aconst_text(AConst::SP) == seq!['S' as u8, 'P' as u8],
        aconst_text(AConst::LCL) == seq!['L' as u8, 'C' as u8, 'L' as u8],
        aconst_text(AConst::ARG) == seq!['A' as u8, 'R' as u8, 'G' as u8],
        aconst_text(AConst::THIS) == seq!['T' as u8, 'H' as u8, 'I' as u8, 'S' as u8],
        aconst_text(AConst::THAT) == seq!['T' as u8, 'H' as u8, 'A' as u8, 'T' as u8],
        aconst_text(AConst::R0) == seq!['R' as u8, '0' as u8],
        aconst_text(AConst::R1) == seq!['R' as u8, '1' as u8],
        aconst_text(AConst::R2) == seq!['R' as u8, '2' as u8],
        aconst_text(AConst::R3) == seq!['R' as u8, '3' as u8],
        aconst_text(AConst::R4) == seq!['R' as u8, '4' as u8],
        aconst_text(AConst::R5) == seq!['R' as u8, '5' as u8],
        aconst_text(AConst::R6) == seq!['R' as u8, '6' as u8],
        aconst_text(AConst::R7) == seq!['R' as u8, '7' as u8],
        aconst_text(AConst::R8) == seq!['R' as u8, '8' as u8],
        aconst_text(AConst::R9) == seq!['R' as u8, '9' as u8],
        aconst_text(AConst::R10) == seq!['R' as u8, '1' as u8, '0' as u8],
        aconst_text(AConst::R11) == seq!['R' as u8, '1' as u8, '1' as u8],
        aconst_text(AConst::R12) == seq!['R' as u8, '1' as u8, '2' as u8],
        aconst_text(AConst::R13) == seq!['R' as u8, '1' as u8, '3' as u8],
        aconst_text(AConst::R14) == seq!['R' as u8, '1' as u8, '4' as u8],
        aconst_text(AConst::R15) == seq!['R' as u8, '1' as u8, '5' as u8],
        aconst_text(AConst::SCREEN) == seq!['S' as u8, 'C' as u8, 'R' as u8, 'E' as u8, 'E' as u8, 'N' as u8],
        aconst_text(AConst::KBD) == seq!['K' as u8, 'B' as u8, 'D' as u8],
{
}

/// Each computation is spelt with the Hack mnemonic of what it computes:
/// `D-A` is D minus A and `A-D` is A minus D, `!` negates bits, `&` and
/// `|` are bitwise, `+1` and `-1` step by one.
pub proof fn lemma_expression_mnemonics()
    ensures
        expression_text(CInstructionExpression::Zero) == seq!['0' as u8],
        expression_text(CInstructionExpression::One) == seq!['1' as u8],
        expression_text(CInstructionExpression::MinusOne) == seq!['-' as u8, '1' as u8],
        expression_text(CInstructionExpression::D) == seq!['D' as u8],
        expression_text(CInstructionExpression::A) == seq!['A' as u8],
        expression_text(CInstructionExpression::M) == seq!['M' as u8],
        expression_text(CInstructionExpression::NotD) == seq!['!' as u8, 'D' as u8],
        expression_text(CInstructionExpression::NotA) == seq!['!' as u8, 'A' as u8],
        expression_text(CInstructionExpression::NotM) == seq!['!' as u8, 'M' as u8],
        expression_text(CInstructionExpression::MinusD) == seq!['-' as u8, 'D' as u8],
        expression_text(CInstructionExpression::MinusA) == seq!['-' as u8, 'A' as u8],
        expression_text(CInstructionExpression::MinusM) == seq!['-' as u8, 'M' as u8],
        expression_text(CInstructionExpression::IncrementD) == seq!['D' as u8, '+' as u8, '1' as u8],
        expression_text(CInstructionExpression::IncrementA) == seq!['A' as u8, '+' as u8, '1' as u8],
        expression_text(CInstructionExpression::IncrementM) == seq!['M' as u8, '+' as u8, '1' as u8],
        expression_text(CInstructionExpression::DecrementA) == seq!['A' as u8, '-' as u8, '1' as u8],
        expression_text(CInstructionExpression::DecrementM) == seq!['M' as u8, '-' as u8, '1' as u8],
        expression_text(CInstructionExpression::DecrementD) == seq!['D' as u8, '-' as u8, '1' as u8],
        expression_text(CInstructionExpression::DPlusA) == seq!['D' as u8, '+' as u8, 'A' as u8],
        expression_text(CInstructionExpression::DPlusM) == seq!['D' as u8, '+' as u8, 'M' as u8],
        expression_text(CInstructionExpression::DMinusA) == seq!['D' as u8, '-' as u8, 'A' as u8],
        expression_text(CInstructionExpression::DMinusM) == seq!['D' as u8, '-' as u8, 'M' as u8],
        expression_text(CInstructionExpression::AMinusD) == seq!['A' as u8, '-' as u8, 'D' as u8],
        expression_text(CInstructionExpression::MMinusD) == seq!['M' as u8, '-' as u8, 'D' as u8],
        expression_text(CInstructionExpression::DAndA) == seq!['D' as u8, '&' as u8, 'A' as u8],
        expression_text(CInstructionExpression::DAndM) == seq!['D' as u8, '&' as u8, 'M' as u8],
        expression_text(CInstructionExpression::DOrA) == seq!['D' as u8, '|' as u8, 'A' as u8],
        expression_text(CInstructionExpression::DOrM) == seq!['D' as u8, '|' as u8, 'M' as u8],
{
}

/// Each destination is spelt with the registers it stores into, then `=`;
/// no destination is spelt with nothing.
pub proof fn lemma_dest_mnemonics()
    ensures
        dest_text(CInstructionDest::NODEST) == Seq::<u8>::empty(),
        dest_text(CInstructionDest::ADM) == seq!['A' as u8, 'D' as u8, 'M' as u8, '=' as u8],
        dest_text(CInstructionDest::AD) == seq!['A' as u8, 'D' as u8, '=' as u8],
        dest_text(CInstructionDest::AM) == seq!['A' as u8, 'M' as u8, '=' as u8],
        dest_text(CInstructionDest::A) == seq!['A' as u8, '=' as u8],
        dest_text(CInstructionDest::DM) == seq!['D' as u8, 'M' as u8, '=' as u8],
        dest_text(CInstructionDest::D) == seq!['D' as u8, '=' as u8],
        dest_text(CInstructionDest::M) == seq!['M' as u8, '=' as u8],
{
}

/// Each jump is spelt `;` and its Hack mnemonic; no jump is spelt with
/// nothing.
pub proof fn lemma_jump_mnemonics()
    ensures
        jump_text(CInstructionJump::NOJMP) == Seq::<u8>::empty(),
        jump_text(CInstructionJump::JGT) == seq![';' as u8, 'J' as u8, 'G' as u8, 'T' as u8],
        jump_text(CInstructionJump::JEQ) == seq![';' as u8, 'J' as u8, 'E' as u8, 'Q' as u8],
        jump_text(CInstructionJump::JGE) == seq![';' as u8, 'J' as u8, 'G' as u8, 'E' as u8],
        jump_text(CInstructionJump::JLT) == seq![';' as u8, 'J' as u8, 'L' as u8, 'T' as u8],
        jump_text(CInstructionJump::JNE) == seq![';' as u8, 'J' as u8, 'N' as u8, 'E' as u8],
        jump_text(CInstructionJump::JLE) == seq![';' as u8, 'J' as u8, 'L' as u8, 'E' as u8],
        jump_text(CInstructionJump::JMP) == seq![';' as u8, 'J' as u8, 'M' as u8, 'P' as u8],
{
}

} // verus!

use vstd::prelude::*;
use vstd::slice::slice_subrange;

use crate::symbolic::{write_bytes_at, written_at, SymbolicElem};
use crate::util::{byte_pos, find_byte, int_text, int_to_text};

use super::number::{parse_i16, spec_parse_i16};
use super::symbols::{
    aconst_text, dest_text, expression_text, jump_text, spec_read_aconst, spec_read_dest,
    spec_read_expression, spec_read_jump, AConst, CInstructionDest, CInstructionExpression,
    CInstructionJump,
};

verus! {

/// An A-instruction: a number, a variable `prefix.n` (with the prefix's
/// length), or a predefined symbol.
pub enum AInstruction<'a> {
    Number(i16),
    Variable((&'a [u8], usize, i16)),
    Const(AConst),
}

/// An A-instruction with its prefix taken as a sequence.
pub enum AInstructionV {
    Number(i16),
    Variable(Seq<u8>, nat, i16),
    Const(AConst),
}

impl<'a> View for AInstruction<'a> {
    type V = AInstructionV;

    open spec fn view(&self) -> AInstructionV {
        match self {
            AInstruction::Number(n) => AInstructionV::Number(*n),
            AInstruction::Variable((p, l, n)) => AInstructionV::Variable(p@, *l as nat, *n),
            AInstruction::Const(c) => AInstructionV::Const(*c),
        }
    }
}

/// A variable's recorded length is its prefix's.
pub open spec fn a_wf(a: AInstructionV) -> bool {
    a matches AInstructionV::Variable(p, l, _) ==> p.len() == l
}

/// The text of an A-instruction.
pub open spec fn a_text(a: AInstructionV) -> Seq<u8> {
    seq![64u8] + match a {
        AInstructionV::Number(n) => int_text(n as int),
        AInstructionV::Variable(p, _, n) => p + seq![46u8] + int_text(n as int),
        AInstructionV::Const(c) => aconst_text(c),
    }
}

/// What reading an A-instruction from `b` gives: a predefined symbol that
/// starts the text after `@`, else the whole text as a number, else
/// `prefix.n` split at its only dot.
pub open spec fn spec_read_a(b: Seq<u8>) -> Option<(AInstructionV, nat)> {
    if b.len() == 0 || b[0] != 64u8 {
        None
    } else {
        let t = b.subrange(1, b.len() as int);
        match spec_read_aconst(t) {
            Some(c) => Some((AInstructionV::Const(c), aconst_text(c).len() + 1)),
            None => match spec_parse_i16(t) {
                Some(v) => Some((AInstructionV::Number(v), b.len())),
                None => {
                    let k = byte_pos(t, 46u8, 0);
                    if byte_pos(t, 46u8, k + 1) < t.len() {
                        None
                    } else {
                        match spec_parse_i16(t.subrange(k + 1, t.len() as int)) {
                            Some(n) => Some(
                                (AInstructionV::Variable(t.subrange(0, k), k as nat, n), b.len()),
                            ),
                            None => None,
                        }
                    }
                },
            },
        }
    }
}

/// The inputs an A-instruction can be read from: not empty, and where the
/// text after `@` names no predefined symbol, valid UTF-8, holding a dot
/// unless it is a number.
pub open spec fn a_read_ok(b: Seq<u8>) -> bool {
    &&& b.len() >= 1
    &&& b[0] == 64u8 && spec_read_aconst(b.subrange(1, b.len() as int)) is None ==> {
        let t = b.subrange(1, b.len() as int);
        &&& vstd::utf8::valid_utf8(t)
        &&& spec_parse_i16(t) is None ==> byte_pos(t, 46u8, 0) < t.len()
    }
}

/// Writes the decimal text of `n` at the start of `buff`.
pub fn write_i16_to_buff(n: i16, buff: &mut [u8]) -> (r: usize)
    requires
        int_text(n as int).len() <= old(buff)@.len(),
    ensures
        r == int_text(n as int).len(),
        final(buff)@ == written_at(old(buff)@, 0, int_text(n as int)),
{
    let t = int_to_text(n as i64);
    write_bytes_at(buff, 0, t.as_slice());
    t.len()
}

impl<'a> AInstruction<'a> {
    /// Writes `@` and the instruction's text at the start of `buff`.
    pub fn write_symbols(&self, buff: &mut [u8]) -> (r: usize)
        requires
            a_wf(self@),
            a_text(self@).len() <= old(buff)@.len(),
        ensures
            r == a_text(self@).len(),
            final(buff)@ == written_at(old(buff)@, 0, a_text(self@)),
    {
        buff[0] = 64;
        match self {
            Self::Const(const_instruction) => {
                let t = const_instruction.text();
                write_bytes_at(buff, 1, t);
                assert(final(buff)@ =~= written_at(old(buff)@, 0, a_text(self@)));
                t.len() + 1
            },
            Self::Variable((prefix, l, n)) => {
                let l = *l;
                write_bytes_at(buff, 1, prefix);
                buff[l + 1] = 46;
                let t = int_to_text(*n as i64);
                write_bytes_at(buff, l + 2, t.as_slice());
                assert(final(buff)@ =~= written_at(old(buff)@, 0, a_text(self@)));
                t.len() + l + 2
            },
            Self::Number(n) => {
                let t = int_to_text(*n as i64);
                write_bytes_at(buff, 1, t.as_slice());
                assert(final(buff)@ =~= written_at(old(buff)@, 0, a_text(self@)));
                t.len() + 1
            },
        }
    }

    /// Reads an A-instruction at the start of `buff`, and its length.
    pub fn read_symbols(buff: &'a [u8]) -> (r: Option<(AInstruction<'a>, usize)>)
        requires
            a_read_ok(buff@),
        ensures
            match r {
                Some((a, n)) => spec_read_a(buff@) == Some((a@, n as nat)),
                None => spec_read_a(buff@) is None,
            },
    {
        if buff[0] != 64 {
            return None;
        }
        let t = slice_subrange(buff, 1, buff.len());
        match AConst::read_symbols(t) {
            Some((constant, constant_size)) => {
                return Some((AInstruction::Const(constant), constant_size + 1));
            },
            None => {},
        }
        match parse_i16(t) {
            Some(v) => {
                return Some((AInstruction::Number(v), buff.len()));
            },
            None => {},
        }
        let k = find_byte(t, 46, 0);
        let second = find_byte(t, 46, k + 1);
        let n = parse_i16(slice_subrange(t, k + 1, t.len()));
        if second < t.len() {
            return None;
        }
        match n {
            Some(n) => Some((AInstruction::Variable((slice_subrange(t, 0, k), k, n)), buff.len())),
            None => None,
        }
    }
}

/// A C-instruction: a destination, a computation and a jump.
#[derive(Debug, Clone, Copy, PartialEq, Eq, Structural)]
pub struct CInstruction {
    pub dest: CInstructionDest,
    pub expression: CInstructionExpression,
    pub jump: CInstructionJump,
}

/// The text of a C-instruction: `dest=comp;jump`.
pub open spec fn c_text(c: CInstruction) -> Seq<u8> {
    dest_text(c.dest) + expression_text(c.expression) + jump_text(c.jump)
}

/// What a C-instruction's write leaves in `b`: its text, the destination,
/// the computation and the jump one after the other, at the start.
pub open spec fn c_write(c: CInstruction, b: Seq<u8>) -> Seq<u8> {
    written_at(b, 0, c_text(c))
}

/// Writing `x` just after `a` at the start of `b` is writing `a + x` there.
proof fn lemma_written_after(b: Seq<u8>, a: Seq<u8>, x: Seq<u8>)
    requires
        a.len() + x.len() <= b.len(),
    ensures
        written_at(written_at(b, 0, a), a.len() as int, x) == written_at(b, 0, a + x),
{
    assert(written_at(written_at(b, 0, a), a.len() as int, x) =~= written_at(b, 0, a + x));
}

/// A C-instruction's write fits in a buffer of `n` bytes.
pub open spec fn c_fits(c: CInstruction, n: nat) -> bool {
    c_text(c).len() <= n
}

/// What reading a C-instruction from `b` gives: a destination (or none),
/// a computation, which must be there, and a jump (or none).
pub open spec fn spec_read_c(b: Seq<u8>) -> Option<(CInstruction, nat)> {
    let d = match spec_read_dest(b) {
        Some(d) => d,
        None => CInstructionDest::NODEST,
    };
    let dl = dest_text(d).len();
    match spec_read_expression(b.subrange(dl as int, b.len() as int)) {
        None => None,
        Some(e) => {
            let el = expression_text(e).len();
            let j = match spec_read_jump(b.subrange((dl + el) as int, b.len() as int)) {
                Some(j) => j,
                None => CInstructionJump::NOJMP,
            };
            Some((CInstruction { dest: d, expression: e, jump: j }, dl + el + jump_text(j).len()))
        },
    }
}

impl CInstruction {
    /// Writes the destination, the computation and the jump one after the
    /// other at the start of `buff`; returns the length of the three.
    pub fn write_symbols(&self, buff: &mut [u8]) -> (r: usize)
        requires
            c_fits(*self, old(buff)@.len()),
        ensures
            r == c_text(*self).len(),
            final(buff)@ == c_write(*self, old(buff)@),
    {
        let ghost b0 = buff@;
        let ghost dt = dest_text(self.dest);
        let ghost et = expression_text(self.expression);
        let ghost jt = jump_text(self.jump);
        let mut result = self.dest.write_symbols(buff);
        assert(buff@ =~= written_at(b0, 0, dt));
        let ghost b1 = buff@;
        {
            let (head, tail) = buff.split_at_mut(result);
            let n = self.expression.write_symbols(tail);
            result = result + n;
        }
        assert(buff@ =~= written_at(b1, dt.len() as int, et));
        let ghost b2 = buff@;
        {
            let (head, tail) = buff.split_at_mut(result);
            let n = self.jump.write_symbols(tail);
            result = result + n;
        }
        assert(buff@ =~= written_at(b2, (dt.len() + et.len()) as int, jt));
        proof {
            lemma_written_after(b0, dt, et);
            lemma_written_after(b0, dt + et, jt);
        }
        result
    }

    /// Reads a C-instruction at the start of `buff`, and its length.
    pub fn read_symbols(buff: &[u8]) -> (r: Option<(Self, usize)>)
        ensures
            match r {
                Some((c, n)) => spec_read_c(buff@) == Some((c, n as nat)),
                None => spec_read_c(buff@) is None,
            },
    {
        let (dest, mut cursor) = match CInstructionDest::read_symbols(buff) {
            Some(x) => x,
            None => (CInstructionDest::NODEST, 0),
        };
        let (expression, expr_size) = match CInstructionExpression::read_symbols(
            slice_subrange(buff, cursor, buff.len()),
        ) {
            Some(x) => x,
            None => {
                return None;
            },
        };
        cursor = cursor + expr_size;
        let (jump, jump_size) = match CInstructionJump::read_symbols(
            slice_subrange(buff, cursor, buff.len()),
        ) {
            Some(x) => x,
            None => (CInstructionJump::NOJMP, 0),
        };
        Some((CInstruction { dest, expression, jump }, cursor + jump_size))
    }
}

/// A Hack instruction.
pub enum Instruction<'a> {
    A(AInstruction<'a>),
    C(CInstruction),
}

/// An instruction by its view.
pub enum InstructionV {
    A(AInstructionV),
    C(CInstruction),
}

impl<'a> View for Instruction<'a> {
    type V = InstructionV;

    open spec fn view(&self) -> InstructionV {
        match self {
            Instruction::A(a) => InstructionV::A(a@),
            Instruction::C(c) => InstructionV::C(*c),
        }
    }
}

/// The length that an instruction's write reports.
pub open spec fn instr_len(i: InstructionV) -> nat {
    match i {
        InstructionV::A(a) => a_text(a).len(),
        InstructionV::C(c) => c_text(c).len(),
    }
}

/// An instruction's write fits in a buffer of `n` bytes.
pub open spec fn instr_fits(i: InstructionV, n: nat) -> bool {
    match i {
        InstructionV::A(a) => a_wf(a) && a_text(a).len() <= n,
        InstructionV::C(c) => c_fits(c, n),
    }
}

/// What an instruction's write leaves in `b`.
pub open spec fn instr_write(i: InstructionV, b: Seq<u8>) -> Seq<u8> {
    match i {
        InstructionV::A(a) => written_at(b, 0, a_text(a)),
        InstructionV::C(c) => c_write(c, b),
    }
}

/// An instruction's text.
pub open spec fn instr_text(i: InstructionV) -> Seq<u8> {
    match i {
        InstructionV::A(a) => a_text(a),
        InstructionV::C(c) => c_text(c),
    }
}

/// What reading an instruction from `b` gives: an A-instruction after `@`,
/// a C-instruction otherwise.
pub open spec fn spec_read_instruction(b: Seq<u8>) -> Option<(InstructionV, nat)> {
    if b[0] == 64u8 {
        match spec_read_a(b) {
            Some((a, n)) => Some((InstructionV::A(a), n)),
            None => None,
        }
    } else {
        match spec_read_c(b) {
            Some((c, n)) => Some((InstructionV::C(c), n)),
            None => None,
        }
    }
}

impl<'a> Instruction<'a> {
    /// An A-instruction of a predefined symbol.
    pub fn new_const(c: AConst) -> (r: Self)
        ensures
            r@ == InstructionV::A(AInstructionV::Const(c)),
    {
        Instruction::A(AInstruction::Const(c))
    }

    /// An A-instruction of a number.
    pub fn new_number(n: i16) -> (r: Self)
        ensures
            r@ == InstructionV::A(AInstructionV::Number(n)),
    {
        Instruction::A(AInstruction::Number(n))
    }

    /// Reads an instruction at the start of `buff`, and its length.
    pub fn read_symbols(buff: &'a [u8]) -> (r: Option<(Instruction<'a>, usize)>)
        requires
            buff@.len() >= 1,
            buff@[0] == 64u8 ==> a_read_ok(buff@),
        ensures
            match r {
                Some((i, n)) => spec_read_instruction(buff@) == Some((i@, n as nat)),
                None => spec_read_instruction(buff@) is None,
            },
    {
        if buff[0] == 64 {
            match AInstruction::read_symbols(buff) {
                Some((a, n)) => Some((Self::A(a), n)),
                None => None,
            }
        } else {
            match CInstruction::read_symbols(buff) {
                Some((c, n)) => Some((Self::C(c), n)),
                None => None,
            }
        }
    }

    /// Writes the instruction at the start of `buff`.
    pub fn write_symbols(&self, buff: &mut [u8]) -> (r: usize)
        requires
            instr_fits(self@, old(buff)@.len()),
        ensures
            r == instr_len(self@),
            final(buff)@ == instr_write(self@, old(buff)@),
    {
        match self {
            Instruction::A(ainstruction) => ainstruction.write_symbols(buff),
            Instruction::C(cinstruction) => cinstruction.write_symbols(buff),
        }
    }
}

/// A maker of variables `prefix.0`, `prefix.1`, and so on.
pub struct VariableFactory<'a> {
    idx: i16,
    prefix: &'a [u8],
    l: usize,
}

impl<'a> VariableFactory<'a> {
    /// The prefix of the variables.
    pub closed spec fn prefix(&self) -> Seq<u8> {
        self.prefix@
    }

    /// The number of the next variable.
    pub closed spec fn next_index(&self) -> i16 {
        self.idx
    }

    pub closed spec fn wf(&self) -> bool {
        self.l == self.prefix@.len()
    }

    pub fn new(prefix: &'a [u8]) -> (r: Self)
        ensures
            r.wf(),
            r.prefix() == prefix@,
            r.next_index() == 0,
    {
        VariableFactory { prefix, idx: 0, l: prefix.len() }
    }

    /// The prefix of the variables.
    pub fn prefix_bytes(&self) -> (r: &'a [u8])
        ensures
            r@ == self.prefix(),
    {
        self.prefix
    }

    /// The next variable; each call numbers one more.
    pub fn new_variable(&mut self) -> (r: AInstruction<'a>)
        requires
            old(self).wf(),
            old(self).next_index() < i16::MAX,
        ensures
            final(self).wf(),
            final(self).prefix() == old(self).prefix(),
            final(self).next_index() == old(self).next_index() + 1,
            r@ == AInstructionV::Variable(
                old(self).prefix(),
                old(self).prefix().len(),
                old(self).next_index(),
            ),
            a_wf(r@),
    {
        let i = AInstruction::Variable((self.prefix, self.l, self.idx));
        self.idx = self.idx + 1;
        i
    }
}

/// The length that writing instructions reports: each instruction and its
/// line feed.
pub open spec fn set_len(is: Seq<InstructionV>) -> nat
    decreases is.len(),
{
    if is.len() == 0 {
        0
    } else {
        set_len(is.drop_last()) + instr_len(is.last()) + 1
    }
}

/// Instructions and their line feeds fit in a buffer of `n` bytes.
pub open spec fn set_fits(is: Seq<InstructionV>, n: nat) -> bool
    decreases is.len(),
{
    if is.len() == 0 {
        true
    } else {
        let c = set_len(is.drop_last());
        &&& set_fits(is.drop_last(), n)
        &&& c + instr_len(is.last()) < n
        &&& instr_fits(is.last(), (n - c) as nat)
    }
}

/// What writing instructions one after the other, each followed by a line
/// feed, leaves in `b`.
pub open spec fn set_write(is: Seq<InstructionV>, b: Seq<u8>) -> Seq<u8>
    decreases is.len(),
{
    if is.len() == 0 {
        b
    } else {
        let b1 = set_write(is.drop_last(), b);
        let c = set_len(is.drop_last()) as int;
        (b1.subrange(0, c) + instr_write(is.last(), b1.subrange(c, b1.len() as int))).update(
            c + instr_len(is.last()),
            10u8,
        )
    }
}

/// The views of instructions.
pub open spec fn instruction_views(s: Seq<Instruction>) -> Seq<InstructionV> {
    s.map_values(|i: Instruction| i@)
}

pub proof fn lemma_set_fits_prefix(is: Seq<InstructionV>, n: nat, k: int)
    requires
        0 <= k <= is.len(),
        set_fits(is, n),
    ensures
        set_fits(is.subrange(0, k), n),
        set_len(is.subrange(0, k)) <= set_len(is),
    decreases is.len(),
{
    if k < is.len() {
        assert(is.drop_last() =~= is.subrange(0, is.len() - 1));
        lemma_set_fits_prefix(is.drop_last(), n, k);
        assert(is.drop_last().subrange(0, k) =~= is.subrange(0, k));
    } else {
        assert(is.subrange(0, k) =~= is);
    }
}

/// Writes instructions one after the other, each followed by a line feed,
/// and returns the length written.
pub fn write_instruction_set(buff: &mut [u8], instructions: &[Instruction<'_>]) -> (r: usize)
    requires
        set_fits(instruction_views(instructions@), old(buff)@.len()),
    ensures
        r == set_len(instruction_views(instructions@)),
        final(buff)@ == set_write(instruction_views(instructions@), old(buff)@),
{
    let ghost is = instruction_views(instructions@);
    let n = buff.len();
    let mut cursor: usize = 0;
    let mut i: usize = 0;
    while i < instructions.len()
        invariant
            i <= instructions@.len(),
            is == instruction_views(instructions@),
            is.len() == instructions@.len(),
            n == old(buff)@.len(),
            buff@.len() == n,
            set_fits(is, n as nat),
            cursor == set_len(is.subrange(0, i as int)),
            buff@ == set_write(is.subrange(0, i as int), old(buff)@),
        decreases instructions@.len() - i,
    {
        proof {
            lemma_set_fits_prefix(is, n as nat, i + 1);
            let p = is.subrange(0, i + 1);
            assert(p.drop_last() =~= is.subrange(0, i as int));
            assert(p.last() == instructions@[i as int]@);
            assert(set_fits(p, n as nat));
            assert(set_len(p.drop_last()) + instr_len(p.last()) < n);
            assert(instr_fits(p.last(), (n - cursor) as nat));
        }
        let ghost b1 = buff@;
        let written = {
            let (head, tail) = buff.split_at_mut(cursor);
            instructions[i].write_symbols(tail)
        };
        proof {
            let p = is.subrange(0, i + 1);
            assert(buff@ =~= b1.subrange(0, cursor as int) + instr_write(
                p.last(),
                b1.subrange(cursor as int, b1.len() as int),
            ));
        }
        assert(written == instr_len(is.subrange(0, i + 1).last()));
        assert(cursor + written < n);
        cursor = cursor + written;
        buff[cursor] = 10;
        cursor = cursor + 1;
        i = i + 1;
    }
    assert(is.subrange(0, i as int) =~= is);
    cursor
}

} // verus!

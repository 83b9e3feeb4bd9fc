use vstd::prelude::*;

use crate::symbolic::{write_bytes_at, SymbolicElem};
use crate::util::{bytes_equal, int_text, push_all, push_int};

verus! {

/// The name and argument count of a subroutine in a `function` or `call`
/// instruction.
#[derive(Debug)]
pub struct FunctionMetadata {
    pub name: Vec<u8>,
    pub args_count: i16,
}

/// `function`, `call` and `return`.
#[derive(Debug)]
pub enum AsmFunctionInstruction {
    Definition(FunctionMetadata),
    Call(FunctionMetadata),
    Return,
}

/// `label`, `goto` and `if-goto`.
#[derive(Debug, PartialEq, Eq, Structural, Clone, Copy)]
pub enum AsmBranchInstructionKind {
    Label,
    Goto,
    IfGoto,
}

/// A branching instruction and its label.
#[derive(Debug)]
pub struct AsmBranchInstruction {
    pub kind: AsmBranchInstructionKind,
    pub name: Vec<u8>,
}

/// The virtual memory segments.
#[derive(Hash, Debug, Clone, Copy, PartialEq, Eq, Structural)]
pub enum AsmMemoryInstructionSegment {
    Arg,
    Const,
    Pointer,
    Static,
    Local,
    Temp,
    That,
    This,
}

/// `push` and `pop`.
#[derive(Debug, PartialEq, Eq, Structural, Clone, Copy)]
pub enum AsmMemoryInstructionKind {
    Pop,
    Push,
}

/// A `push` or `pop` instruction.
#[derive(Debug)]
pub struct AsmMemoryInstruction {
    pub segment: AsmMemoryInstructionSegment,
    pub kind: AsmMemoryInstructionKind,
    pub val: i16,
}

/// The arithmetic and logical instructions.
#[derive(Debug, PartialEq, Eq, Structural, Clone, Copy)]
pub enum AsmArithmeticInstruction {
    Add,
    Sub,
    Neg,
    Eq,
    Gt,
    Lt,
    And,
    Or,
    Not,
}

/// A VM instruction.
#[derive(Debug)]
pub enum AsmInstructionPayload {
    Memory(AsmMemoryInstruction),
    Arithmetic(AsmArithmeticInstruction),
    Branch(AsmBranchInstruction),
    Function(AsmFunctionInstruction),
}

/// A VM instruction with its names taken as sequences.
pub enum AsmInstructionV {
    Memory(AsmMemoryInstructionSegment, AsmMemoryInstructionKind, i16),
    Arithmetic(AsmArithmeticInstruction),
    Branch(AsmBranchInstructionKind, Seq<u8>),
    Definition(Seq<u8>, i16),
    Call(Seq<u8>, i16),
    Return,
}

impl View for AsmInstructionPayload {
    type V = AsmInstructionV;

    open spec fn view(&self) -> AsmInstructionV {
        match self {
            AsmInstructionPayload::Memory(m) => AsmInstructionV::Memory(m.segment, m.kind, m.val),
            AsmInstructionPayload::Arithmetic(a) => AsmInstructionV::Arithmetic(*a),
            AsmInstructionPayload::Branch(b) => AsmInstructionV::Branch(b.kind, b.name@),
            AsmInstructionPayload::Function(AsmFunctionInstruction::Definition(m)) => {
                AsmInstructionV::Definition(m.name@, m.args_count)
            },
            AsmInstructionPayload::Function(AsmFunctionInstruction::Call(m)) => AsmInstructionV::Call(
                m.name@,
                m.args_count,
            ),
            AsmInstructionPayload::Function(AsmFunctionInstruction::Return) => AsmInstructionV::Return,
        }
    }
}

impl Default for AsmInstructionPayload {
    fn default() -> (r: Self)
        ensures
            r@ == AsmInstructionV::Arithmetic(AsmArithmeticInstruction::Add),
    {
        Self::Arithmetic(AsmArithmeticInstruction::Add)
    }
}

/// The name of a segment in VM text.
pub open spec fn segment_text(s: AsmMemoryInstructionSegment) -> Seq<u8> {
    match s {
        AsmMemoryInstructionSegment::Arg => seq![97u8, 114u8, 103u8, 117u8, 109u8, 101u8, 110u8, 116u8],
        AsmMemoryInstructionSegment::Const => seq![99u8, 111u8, 110u8, 115u8, 116u8, 97u8, 110u8, 116u8],
        AsmMemoryInstructionSegment::Pointer => seq![112u8, 111u8, 105u8, 110u8, 116u8, 101u8, 114u8],
        AsmMemoryInstructionSegment::Static => seq![115u8, 116u8, 97u8, 116u8, 105u8, 99u8],
        AsmMemoryInstructionSegment::Local => seq![108u8, 111u8, 99u8, 97u8, 108u8],
        AsmMemoryInstructionSegment::Temp => seq![116u8, 101u8, 109u8, 112u8],
        AsmMemoryInstructionSegment::That => seq![116u8, 104u8, 97u8, 116u8],
        AsmMemoryInstructionSegment::This => seq![116u8, 104u8, 105u8, 115u8],
    }
}

/// The segment named by a word of VM text.
pub open spec fn spec_segment_from_name(w: Seq<u8>) -> Option<AsmMemoryInstructionSegment> {
    if w == segment_text(AsmMemoryInstructionSegment::Arg) {
        Some(AsmMemoryInstructionSegment::Arg)
    } else if w == segment_text(AsmMemoryInstructionSegment::Const) {
        Some(AsmMemoryInstructionSegment::Const)
    } else if w == segment_text(AsmMemoryInstructionSegment::Pointer) {
        Some(AsmMemoryInstructionSegment::Pointer)
    } else if w == segment_text(AsmMemoryInstructionSegment::Static) {
        Some(AsmMemoryInstructionSegment::Static)
    } else if w == segment_text(AsmMemoryInstructionSegment::Local) {
        Some(AsmMemoryInstructionSegment::Local)
    } else if w == segment_text(AsmMemoryInstructionSegment::Temp) {
        Some(AsmMemoryInstructionSegment::Temp)
    } else if w == segment_text(AsmMemoryInstructionSegment::That) {
        Some(AsmMemoryInstructionSegment::That)
    } else if w == segment_text(AsmMemoryInstructionSegment::This) {
        Some(AsmMemoryInstructionSegment::This)
    } else {
        None
    }
}

/// Looks up a segment by its name in VM text.
pub fn segment_from_name(w: &[u8]) -> (r: Option<AsmMemoryInstructionSegment>)
    ensures
        r == spec_segment_from_name(w@),
{
    let name: &[u8] = &[97u8, 114u8, 103u8, 117u8, 109u8, 101u8, 110u8, 116u8];
    assert(name@ =~= segment_text(AsmMemoryInstructionSegment::Arg));
    if bytes_equal(w, name) {
        return Some(AsmMemoryInstructionSegment::Arg);
    }
    let name: &[u8] = &[99u8, 111u8, 110u8, 115u8, 116u8, 97u8, 110u8, 116u8];
    assert(name@ =~= segment_text(AsmMemoryInstructionSegment::Const));
    if bytes_equal(w, name) {
        return Some(AsmMemoryInstructionSegment::Const);
    }
    let name: &[u8] = &[112u8, 111u8, 105u8, 110u8, 116u8, 101u8, 114u8];
    assert(name@ =~= segment_text(AsmMemoryInstructionSegment::Pointer));
    if bytes_equal(w, name) {
        return Some(AsmMemoryInstructionSegment::Pointer);
    }
    let name: &[u8] = &[115u8, 116u8, 97u8, 116u8, 105u8, 99u8];
    assert(name@ =~= segment_text(AsmMemoryInstructionSegment::Static));
    if bytes_equal(w, name) {
        return Some(AsmMemoryInstructionSegment::Static);
    }
    let name: &[u8] = &[108u8, 111u8, 99u8, 97u8, 108u8];
    assert(name@ =~= segment_text(AsmMemoryInstructionSegment::Local));
    if bytes_equal(w, name) {
        return Some(AsmMemoryInstructionSegment::Local);
    }
    let name: &[u8] = &[116u8, 101u8, 109u8, 112u8];
    assert(name@ =~= segment_text(AsmMemoryInstructionSegment::Temp));
    if bytes_equal(w, name) {
        return Some(AsmMemoryInstructionSegment::Temp);
    }
    let name: &[u8] = &[116u8, 104u8, 97u8, 116u8];
    assert(name@ =~= segment_text(AsmMemoryInstructionSegment::That));
    if bytes_equal(w, name) {
        return Some(AsmMemoryInstructionSegment::That);
    }
    let name: &[u8] = &[116u8, 104u8, 105u8, 115u8];
    assert(name@ =~= segment_text(AsmMemoryInstructionSegment::This));
    if bytes_equal(w, name) {
        return Some(AsmMemoryInstructionSegment::This);
    }
    None
}

/// The name of an arithmetic instruction in VM text.
pub open spec fn arithmetic_text(a: AsmArithmeticInstruction) -> Seq<u8> {
    match a {
        AsmArithmeticInstruction::Add => seq![97u8, 100u8, 100u8],
        AsmArithmeticInstruction::Sub => seq![115u8, 117u8, 98u8],
        AsmArithmeticInstruction::Neg => seq![110u8, 101u8, 103u8],
        AsmArithmeticInstruction::Eq => seq![101u8, 113u8],
        AsmArithmeticInstruction::Gt => seq![103u8, 116u8],
        AsmArithmeticInstruction::Lt => seq![108u8, 116u8],
        AsmArithmeticInstruction::And => seq![97u8, 110u8, 100u8],
        AsmArithmeticInstruction::Or => seq![111u8, 114u8],
        AsmArithmeticInstruction::Not => seq![110u8, 111u8, 116u8],
    }
}

/// The VM text of a memory instruction's kind.
pub open spec fn memory_kind_text(k: AsmMemoryInstructionKind) -> Seq<u8> {
    match k {
        AsmMemoryInstructionKind::Pop => seq![112u8, 111u8, 112u8],
        AsmMemoryInstructionKind::Push => seq![112u8, 117u8, 115u8, 104u8],
    }
}

/// The VM text of a branching instruction's kind.
pub open spec fn branch_kind_text(k: AsmBranchInstructionKind) -> Seq<u8> {
    match k {
        AsmBranchInstructionKind::Label => seq![108u8, 97u8, 98u8, 101u8, 108u8],
        AsmBranchInstructionKind::Goto => seq![103u8, 111u8, 116u8, 111u8],
        AsmBranchInstructionKind::IfGoto => seq![105u8, 102u8, 45u8, 103u8, 111u8, 116u8, 111u8],
    }
}

/// `name args` of a `function` or `call` instruction.
pub open spec fn metadata_text(name: Seq<u8>, args: i16) -> Seq<u8> {
    name + seq![32u8] + int_text(args as int)
}

/// An instruction in VM text, one line without its line feed.
pub open spec fn instruction_text(p: AsmInstructionV) -> Seq<u8> {
    match p {
        AsmInstructionV::Memory(s, k, v) => memory_kind_text(k) + seq![32u8] + segment_text(s)
            + seq![32u8] + int_text(v as int),
        AsmInstructionV::Arithmetic(a) => arithmetic_text(a),
        AsmInstructionV::Branch(k, n) => branch_kind_text(k) + seq![32u8] + n,
        AsmInstructionV::Definition(n, a) => seq![102u8, 117u8, 110u8, 99u8, 116u8, 105u8, 111u8, 110u8, 32u8]
            + metadata_text(n, a),
        AsmInstructionV::Call(n, a) => seq![99u8, 97u8, 108u8, 108u8, 32u8] + metadata_text(n, a),
        AsmInstructionV::Return => seq![114u8, 101u8, 116u8, 117u8, 114u8, 110u8],
    }
}

impl FunctionMetadata {
    /// Appends `name args`.
    pub fn push_text(&self, out: &mut Vec<u8>)
        ensures
            final(out)@ == old(out)@ + metadata_text(self.name@, self.args_count),
    {
        push_all(out, self.name.as_slice());
        out.push(32);
        push_int(out, self.args_count as i64);
        assert(final(out)@ =~= old(out)@ + metadata_text(self.name@, self.args_count));
    }
}

impl AsmMemoryInstructionSegment {
    /// Appends the segment's name.
    pub fn push_text(&self, out: &mut Vec<u8>)
        ensures
            final(out)@ == old(out)@ + segment_text(*self),
    {
        let t: &[u8] = match self {
            Self::Arg => &[97u8, 114u8, 103u8, 117u8, 109u8, 101u8, 110u8, 116u8],
            Self::Const => &[99u8, 111u8, 110u8, 115u8, 116u8, 97u8, 110u8, 116u8],
            Self::Pointer => &[112u8, 111u8, 105u8, 110u8, 116u8, 101u8, 114u8],
            Self::Static => &[115u8, 116u8, 97u8, 116u8, 105u8, 99u8],
            Self::Local => &[108u8, 111u8, 99u8, 97u8, 108u8],
            Self::Temp => &[116u8, 101u8, 109u8, 112u8],
            Self::That => &[116u8, 104u8, 97u8, 116u8],
            Self::This => &[116u8, 104u8, 105u8, 115u8],
        };
        proof {
            match self {
                Self::Arg => assert(t@ =~= segment_text(*self)),
                Self::Const => assert(t@ =~= segment_text(*self)),
                Self::Pointer => assert(t@ =~= segment_text(*self)),
                Self::Static => assert(t@ =~= segment_text(*self)),
                Self::Local => assert(t@ =~= segment_text(*self)),
                Self::Temp => assert(t@ =~= segment_text(*self)),
                Self::That => assert(t@ =~= segment_text(*self)),
                Self::This => assert(t@ =~= segment_text(*self)),
            }
        }
        push_all(out, t);
    }
}

impl AsmArithmeticInstruction {
    /// Appends the instruction's name.
    pub fn push_text(&self, out: &mut Vec<u8>)
        ensures
            final(out)@ == old(out)@ + arithmetic_text(*self),
    {
        let t: &[u8] = match self {
            Self::Add => &[97u8, 100u8, 100u8],
            Self::Sub => &[115u8, 117u8, 98u8],
            Self::Neg => &[110u8, 101u8, 103u8],
            Self::Eq => &[101u8, 113u8],
            Self::Gt => &[103u8, 116u8],
            Self::Lt => &[108u8, 116u8],
            Self::And => &[97u8, 110u8, 100u8],
            Self::Or => &[111u8, 114u8],
            Self::Not => &[110u8, 111u8, 116u8],
        };
        proof {
            match self {
                Self::Add => assert(t@ =~= arithmetic_text(*self)),
                Self::Sub => assert(t@ =~= arithmetic_text(*self)),
                Self::Neg => assert(t@ =~= arithmetic_text(*self)),
                Self::Eq => assert(t@ =~= arithmetic_text(*self)),
                Self::Gt => assert(t@ =~= arithmetic_text(*self)),
                Self::Lt => assert(t@ =~= arithmetic_text(*self)),
                Self::And => assert(t@ =~= arithmetic_text(*self)),
                Self::Or => assert(t@ =~= arithmetic_text(*self)),
                Self::Not => assert(t@ =~= arithmetic_text(*self)),
            }
        }
        push_all(out, t);
    }
}

impl SymbolicElem for AsmMemoryInstructionSegment {
    open spec fn spec_symbols(&self) -> Seq<u8> {
        segment_text(*self)
    }

    fn write_symbols(&self, buff: &mut [u8]) -> (r: usize) {
        let mut t: Vec<u8> = Vec::new();
        self.push_text(&mut t);
        assert(t@ =~= segment_text(*self));
        write_bytes_at(buff, 0, t.as_slice());
        t.len()
    }
}

impl SymbolicElem for AsmArithmeticInstruction {
    open spec fn spec_symbols(&self) -> Seq<u8> {
        arithmetic_text(*self)
    }

    fn write_symbols(&self, buff: &mut [u8]) -> (r: usize) {
        let mut t: Vec<u8> = Vec::new();
        self.push_text(&mut t);
        assert(t@ =~= arithmetic_text(*self));
        write_bytes_at(buff, 0, t.as_slice());
        t.len()
    }
}

impl AsmInstructionPayload {
    /// The instruction in VM text, without a line feed.
    pub fn to_text(&self) -> (r: Vec<u8>)
        ensures
            r@ == instruction_text(self@),
    {
        let mut out: Vec<u8> = Vec::new();
        match self {
            AsmInstructionPayload::Function(AsmFunctionInstruction::Call(meta)) => {
                push_all(&mut out, &[99u8, 97u8, 108u8, 108u8, 32u8]);
                meta.push_text(&mut out);
            },
            AsmInstructionPayload::Function(AsmFunctionInstruction::Definition(meta)) => {
                push_all(&mut out, &[102u8, 117u8, 110u8, 99u8, 116u8, 105u8, 111u8, 110u8, 32u8]);
                meta.push_text(&mut out);
            },
            AsmInstructionPayload::Function(AsmFunctionInstruction::Return) => {
                push_all(&mut out, &[114u8, 101u8, 116u8, 117u8, 114u8, 110u8]);
            },
            AsmInstructionPayload::Branch(b) => {
                match b.kind {
                    AsmBranchInstructionKind::Label => push_all(
                        &mut out,
                        &[108u8, 97u8, 98u8, 101u8, 108u8],
                    ),
                    AsmBranchInstructionKind::Goto => push_all(&mut out, &[103u8, 111u8, 116u8, 111u8]),
                    AsmBranchInstructionKind::IfGoto => push_all(
                        &mut out,
                        &[105u8, 102u8, 45u8, 103u8, 111u8, 116u8, 111u8],
                    ),
                }
                out.push(32);
                push_all(&mut out, b.name.as_slice());
            },
            AsmInstructionPayload::Memory(m) => {
                match m.kind {
                    AsmMemoryInstructionKind::Pop => push_all(&mut out, &[112u8, 111u8, 112u8]),
                    AsmMemoryInstructionKind::Push => push_all(&mut out, &[112u8, 117u8, 115u8, 104u8]),
                }
                out.push(32);
                m.segment.push_text(&mut out);
                out.push(32);
                push_int(&mut out, m.val as i64);
            },
            AsmInstructionPayload::Arithmetic(a) => {
                a.push_text(&mut out);
            },
        }
        assert(out@ =~= instruction_text(self@));
        out
    }
}

/// Every segment is found again by its name.
pub proof fn lemma_segment_name_roundtrip(s: AsmMemoryInstructionSegment)
    ensures
        spec_segment_from_name(segment_text(s)) == Some(s),
{
    assert(segment_text(s) =~= segment_text(s));
}

/// Each segment is spelt with its VM name.
pub proof fn lemma_segment_spellings()
    ensures
        segment_text(AsmMemoryInstructionSegment::Arg) == seq!['a' as u8, 'r' as u8, 'g' as u8, 'u' as u8, 'm' as u8, 'e' as u8, 'n' as u8, 't' as u8],
        segment_text(AsmMemoryInstructionSegment::Const) == seq!['c' as u8, 'o' as u8, 'n' as u8, 's' as u8, 't' as u8, 'a' as u8, 'n' as u8, 't' as u8],
        segment_text(AsmMemoryInstructionSegment::Pointer) == seq!['p' as u8, 'o' as u8, 'i' as u8, 'n' as u8, 't' as u8, 'e' as u8, 'r' as u8],
        segment_text(AsmMemoryInstructionSegment::Static) == seq!['s' as u8, 't' as u8, 'a' as u8, 't' as u8, 'i' as u8, 'c' as u8],
        segment_text(AsmMemoryInstructionSegment::Local) == seq!['l' as u8, 'o' as u8, 'c' as u8, 'a' as u8, 'l' as u8],
        segment_text(AsmMemoryInstructionSegment::Temp) == seq!['t' as u8, 'e' as u8, 'm' as u8, 'p' as u8],
        segment_text(AsmMemoryInstructionSegment::That) == seq!['t' as u8, 'h' as u8, 'a' as u8, 't' as u8],
        segment_text(AsmMemoryInstructionSegment::This) == seq!['t' as u8, 'h' as u8, 'i' as u8, 's' as u8],
{
}

/// Each arithmetic command, memory kind and branch kind is spelt with its
/// VM name.
pub proof fn lemma_command_spellings()
    ensures
        arithmetic_text(AsmArithmeticInstruction::Add) == seq!['a' as u8, 'd' as u8, 'd' as u8],
        arithmetic_text(AsmArithmeticInstruction::Sub) == seq!['s' as u8, 'u' as u8, 'b' as u8],
        arithmetic_text(AsmArithmeticInstruction::Neg) == seq!['n' as u8, 'e' as u8, 'g' as u8],
        arithmetic_text(AsmArithmeticInstruction::Eq) == seq!['e' as u8, 'q' as u8],
        arithmetic_text(AsmArithmeticInstruction::Gt) == seq!['g' as u8, 't' as u8],
        arithmetic_text(AsmArithmeticInstruction::Lt) == seq!['l' as u8, 't' as u8],
        arithmetic_text(AsmArithmeticInstruction::And) == seq!['a' as u8, 'n' as u8, 'd' as u8],
        arithmetic_text(AsmArithmeticInstruction::Or) == seq!['o' as u8, 'r' as u8],
        arithmetic_text(AsmArithmeticInstruction::Not) == seq!['n' as u8, 'o' as u8, 't' as u8],
        memory_kind_text(AsmMemoryInstructionKind::Pop) == seq!['p' as u8, 'o' as u8, 'p' as u8],
        memory_kind_text(AsmMemoryInstructionKind::Push) == seq!['p' as u8, 'u' as u8, 's' as u8, 'h' as u8],
        branch_kind_text(AsmBranchInstructionKind::Label) == seq!['l' as u8, 'a' as u8, 'b' as u8, 'e' as u8, 'l' as u8],
        branch_kind_text(AsmBranchInstructionKind::Goto) == seq!['g' as u8, 'o' as u8, 't' as u8, 'o' as u8],
        branch_kind_text(AsmBranchInstructionKind::IfGoto) == seq!['i' as u8, 'f' as u8, '-' as u8, 'g' as u8, 'o' as u8, 't' as u8, 'o' as u8],
{
}

} // verus!

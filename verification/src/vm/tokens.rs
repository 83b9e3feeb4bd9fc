use vstd::prelude::*;

use crate::symbolic::{write_bytes_at, SymbolicElem};
use crate::util::{int_text, push_all, push_int};

verus! {

/// The memory segments of the VM, as the translator names them.
#[derive(Hash, Debug, Clone, Copy, PartialEq, Eq, Structural)]
pub enum Segment {
    Arg,
    Const,
    Pointer,
    Static,
    Local,
    Temp,
    That,
    This,
}

/// A segment's name in VM text.
pub open spec fn vm_segment_text(s: Segment) -> Seq<u8> {
    match s {
        Segment::Arg => seq![97u8, 114u8, 103u8, 117u8, 109u8, 101u8, 110u8, 116u8],
        Segment::Const => seq![99u8, 111u8, 110u8, 115u8, 116u8, 97u8, 110u8, 116u8],
        Segment::Pointer => seq![112u8, 111u8, 105u8, 110u8, 116u8, 101u8, 114u8],
        Segment::Static => seq![115u8, 116u8, 97u8, 116u8, 105u8, 99u8],
        Segment::Local => seq![108u8, 111u8, 99u8, 97u8, 108u8],
        Segment::Temp => seq![116u8, 101u8, 109u8, 112u8],
        Segment::That => seq![116u8, 104u8, 97u8, 116u8],
        Segment::This => seq![116u8, 104u8, 105u8, 115u8],
    }
}

/// The segment that a word names.
pub open spec fn spec_segment_named(w: Seq<u8>) -> Option<Segment> {
    if w == vm_segment_text(Segment::Arg) {
        Some(Segment::Arg)
    } else if w == vm_segment_text(Segment::Const) {
        Some(Segment::Const)
    } else if w == vm_segment_text(Segment::Pointer) {
        Some(Segment::Pointer)
    } else if w == vm_segment_text(Segment::Static) {
        Some(Segment::Static)
    } else if w == vm_segment_text(Segment::Local) {
        Some(Segment::Local)
    } else if w == vm_segment_text(Segment::Temp) {
        Some(Segment::Temp)
    } else if w == vm_segment_text(Segment::That) {
        Some(Segment::That)
    } else if w == vm_segment_text(Segment::This) {
        Some(Segment::This)
    } else {
        None
    }
}

impl Segment {
    /// The segment's name.
    pub fn text(&self) -> (r: &'static [u8])
        ensures
            r@ == vm_segment_text(*self),
    {
        let r: &'static [u8] = match self {
            Segment::Arg => &[97u8, 114u8, 103u8, 117u8, 109u8, 101u8, 110u8, 116u8],
            Segment::Const => &[99u8, 111u8, 110u8, 115u8, 116u8, 97u8, 110u8, 116u8],
            Segment::Pointer => &[112u8, 111u8, 105u8, 110u8, 116u8, 101u8, 114u8],
            Segment::Static => &[115u8, 116u8, 97u8, 116u8, 105u8, 99u8],
            Segment::Local => &[108u8, 111u8, 99u8, 97u8, 108u8],
            Segment::Temp => &[116u8, 101u8, 109u8, 112u8],
            Segment::That => &[116u8, 104u8, 97u8, 116u8],
            Segment::This => &[116u8, 104u8, 105u8, 115u8],
        };
        proof {
            match self {
                Segment::Arg => assert(r@ =~= vm_segment_text(*self)),
                Segment::Const => assert(r@ =~= vm_segment_text(*self)),
                Segment::Pointer => assert(r@ =~= vm_segment_text(*self)),
                Segment::Static => assert(r@ =~= vm_segment_text(*self)),
                Segment::Local => assert(r@ =~= vm_segment_text(*self)),
                Segment::Temp => assert(r@ =~= vm_segment_text(*self)),
                Segment::That => assert(r@ =~= vm_segment_text(*self)),
                Segment::This => assert(r@ =~= vm_segment_text(*self)),
            }
        }
        r
    }

    /// The segment that a word names, if any.
    pub fn from_name(w: &[u8]) -> (r: Option<Segment>)
        ensures
            r == spec_segment_named(w@),
    {
        let order: [Segment; 8] = [
            Segment::Arg,
            Segment::Const,
            Segment::Pointer,
            Segment::Static,
            Segment::Local,
            Segment::Temp,
            Segment::That,
            Segment::This,
        ];
        let mut i: usize = 0;
        while i < 8
            invariant
                i <= 8,
                order@ == seq![
                    Segment::Arg,
                    Segment::Const,
                    Segment::Pointer,
                    Segment::Static,
                    Segment::Local,
                    Segment::Temp,
                    Segment::That,
                    Segment::This,
                ],
                forall|j: int| 0 <= j < i ==> w@ != #[trigger] vm_segment_text(order@[j]),
            decreases 8 - i,
        {
            if crate::util::bytes_equal(w, order[i].text()) {
                return Some(order[i]);
            }
            i = i + 1;
        }
        assert(w@ != vm_segment_text(order@[0]));
        assert(w@ != vm_segment_text(order@[1]));
        assert(w@ != vm_segment_text(order@[2]));
        assert(w@ != vm_segment_text(order@[3]));
        assert(w@ != vm_segment_text(order@[4]));
        assert(w@ != vm_segment_text(order@[5]));
        assert(w@ != vm_segment_text(order@[6]));
        assert(w@ != vm_segment_text(order@[7]));
        None
    }
}

impl SymbolicElem for Segment {
    open spec fn spec_symbols(&self) -> Seq<u8> {
        vm_segment_text(*self)
    }

    fn write_symbols(&self, buff: &mut [u8]) -> (r: usize) {
        let t = self.text();
        write_bytes_at(buff, 0, t);
        t.len()
    }
}

/// Every segment is found again by its name.
pub proof fn lemma_segment_named_text(s: Segment)
    ensures
        spec_segment_named(vm_segment_text(s)) == Some(s),
{
}

/// `pop` and `push`.
#[derive(Debug, PartialEq, Eq, Structural, Clone, Copy)]
pub enum MemoryTokenKind {
    Pop,
    Push,
}

/// The VM text of a memory command's kind.
pub open spec fn memory_token_kind_text(k: MemoryTokenKind) -> Seq<u8> {
    match k {
        MemoryTokenKind::Pop => seq![112u8, 111u8, 112u8],
        MemoryTokenKind::Push => seq![112u8, 117u8, 115u8, 104u8],
    }
}

/// A `push` or `pop` command.
#[derive(Debug)]
pub struct MemoryToken {
    pub segment: Segment,
    pub kind: MemoryTokenKind,
    pub val: i16,
}

/// The VM text of a memory command: `kind segment value`.
pub open spec fn memory_token_text(t: MemoryToken) -> Seq<u8> {
    memory_token_kind_text(t.kind) + seq![32u8] + vm_segment_text(t.segment) + seq![32u8]
        + int_text(t.val as int)
}

impl MemoryToken {
    pub fn new(kind: MemoryTokenKind, segment: Segment, val: i16) -> (r: Self)
        ensures
            r == (MemoryToken { segment, kind, val }),
    {
        Self { segment, val, kind }
    }

    /// The command in VM text.
    pub fn text(&self) -> (r: Vec<u8>)
        ensures
            r@ == memory_token_text(*self),
    {
        let mut out: Vec<u8> = Vec::new();
        match self.kind {
            MemoryTokenKind::Pop => push_all(&mut out, &[112u8, 111u8, 112u8]),
            MemoryTokenKind::Push => push_all(&mut out, &[112u8, 117u8, 115u8, 104u8]),
        }
        out.push(32);
        push_all(&mut out, self.segment.text());
        out.push(32);
        push_int(&mut out, self.val as i64);
        assert(out@ =~= memory_token_text(*self));
        out
    }
}

/// The arithmetic and logical commands.
#[derive(Debug, PartialEq, Eq, Structural, Clone, Copy)]
pub enum ArithmeticToken {
    Add,
    Sub,
    Neg,
    Eq,
    Gt,
    Lt,
    And,
    Or,
    Not,
}

/// The VM text of an arithmetic command.
pub open spec fn arithmetic_token_text(a: ArithmeticToken) -> Seq<u8> {
    match a {
        ArithmeticToken::Add => seq![97u8, 100u8, 100u8],
        ArithmeticToken::Sub => seq![115u8, 117u8, 98u8],
        ArithmeticToken::Neg => seq![110u8, 101u8, 103u8],
        ArithmeticToken::Eq => seq![101u8, 113u8],
        ArithmeticToken::Gt => seq![103u8, 116u8],
        ArithmeticToken::Lt => seq![108u8, 116u8],
        ArithmeticToken::And => seq![97u8, 110u8, 100u8],
        ArithmeticToken::Or => seq![111u8, 114u8],
        ArithmeticToken::Not => seq![110u8, 111u8, 116u8],
    }
}

impl ArithmeticToken {
    /// The command's name.
    pub fn text(&self) -> (r: &'static [u8])
        ensures
            r@ == arithmetic_token_text(*self),
    {
        let r: &'static [u8] = match self {
            ArithmeticToken::Add => &[97u8, 100u8, 100u8],
            ArithmeticToken::Sub => &[115u8, 117u8, 98u8],
            ArithmeticToken::Neg => &[110u8, 101u8, 103u8],
            ArithmeticToken::Eq => &[101u8, 113u8],
            ArithmeticToken::Gt => &[103u8, 116u8],
            ArithmeticToken::Lt => &[108u8, 116u8],
            ArithmeticToken::And => &[97u8, 110u8, 100u8],
            ArithmeticToken::Or => &[111u8, 114u8],
            ArithmeticToken::Not => &[110u8, 111u8, 116u8],
        };
        proof {
            match self {
                ArithmeticToken::Add => assert(r@ =~= arithmetic_token_text(*self)),
                ArithmeticToken::Sub => assert(r@ =~= arithmetic_token_text(*self)),
                ArithmeticToken::Neg => assert(r@ =~= arithmetic_token_text(*self)),
                ArithmeticToken::Eq => assert(r@ =~= arithmetic_token_text(*self)),
                ArithmeticToken::Gt => assert(r@ =~= arithmetic_token_text(*self)),
                ArithmeticToken::Lt => assert(r@ =~= arithmetic_token_text(*self)),
                ArithmeticToken::And => assert(r@ =~= arithmetic_token_text(*self)),
                ArithmeticToken::Or => assert(r@ =~= arithmetic_token_text(*self)),
                ArithmeticToken::Not => assert(r@ =~= arithmetic_token_text(*self)),
            }
        }
        r
    }
}

impl SymbolicElem for ArithmeticToken {
    open spec fn spec_symbols(&self) -> Seq<u8> {
        arithmetic_token_text(*self)
    }

    fn write_symbols(&self, buff: &mut [u8]) -> (r: usize) {
        let t = self.text();
        write_bytes_at(buff, 0, t);
        t.len()
    }
}

/// A memory or arithmetic command.
#[derive(Debug)]
pub enum TokenPayload {
    Memory(MemoryToken),
    Arithmetic(ArithmeticToken),
}

/// A command with the number of the instruction it starts and its line in
/// the source.
#[derive(Debug)]
pub struct Token {
    pub payload: TokenPayload,
    pub instruction: usize,
    pub src: usize,
}

/// The VM text of a command.
pub open spec fn token_text(t: TokenPayload) -> Seq<u8> {
    match t {
        TokenPayload::Memory(m) => memory_token_text(m),
        TokenPayload::Arithmetic(a) => arithmetic_token_text(a),
    }
}

impl Token {
    /// The command in VM text.
    pub fn text(&self) -> (r: Vec<u8>)
        ensures
            r@ == token_text(self.payload),
    {
        match &self.payload {
            TokenPayload::Memory(memory_token) => memory_token.text(),
            TokenPayload::Arithmetic(arithmetic_token) => {
                let mut out: Vec<u8> = Vec::new();
                push_all(&mut out, arithmetic_token.text());
                assert(out@ =~= arithmetic_token_text(*arithmetic_token));
                out
            },
        }
    }
}

/// Each segment of a memory command is spelt with its VM name.
pub proof fn lemma_vm_segment_spellings()
    ensures
        vm_segment_text(Segment::Arg) == seq!['a' as u8, 'r' as u8, 'g' as u8, 'u' as u8, 'm' as u8, 'e' as u8, 'n' as u8, 't' as u8],
        vm_segment_text(Segment::Const) == seq!['c' as u8, 'o' as u8, 'n' as u8, 's' as u8, 't' as u8, 'a' as u8, 'n' as u8, 't' as u8],
        vm_segment_text(Segment::Pointer) == seq!['p' as u8, 'o' as u8, 'i' as u8, 'n' as u8, 't' as u8, 'e' as u8, 'r' as u8],
        vm_segment_text(Segment::Static) == seq!['s' as u8, 't' as u8, 'a' as u8, 't' as u8, 'i' as u8, 'c' as u8],
        vm_segment_text(Segment::Local) == seq!['l' as u8, 'o' as u8, 'c' as u8, 'a' as u8, 'l' as u8],
        vm_segment_text(Segment::Temp) == seq!['t' as u8, 'e' as u8, 'm' as u8, 'p' as u8],
        vm_segment_text(Segment::That) == seq!['t' as u8, 'h' as u8, 'a' as u8, 't' as u8],
        vm_segment_text(Segment::This) == seq!['t' as u8, 'h' as u8, 'i' as u8, 's' as u8],
{
}

/// Each arithmetic command and memory kind is spelt with its VM name.
pub proof fn lemma_token_spellings()
    ensures
        arithmetic_token_text(ArithmeticToken::Add) == seq!['a' as u8, 'd' as u8, 'd' as u8],
        arithmetic_token_text(ArithmeticToken::Sub) == seq!['s' as u8, 'u' as u8, 'b' as u8],
        arithmetic_token_text(ArithmeticToken::Neg) == seq!['n' as u8, 'e' as u8, 'g' as u8],
        arithmetic_token_text(ArithmeticToken::Eq) == seq!['e' as u8, 'q' as u8],
        arithmetic_token_text(ArithmeticToken::Gt) == seq!['g' as u8, 't' as u8],
        arithmetic_token_text(ArithmeticToken::Lt) == seq!['l' as u8, 't' as u8],
        arithmetic_token_text(ArithmeticToken::And) == seq!['a' as u8, 'n' as u8, 'd' as u8],
        arithmetic_token_text(ArithmeticToken::Or) == seq!['o' as u8, 'r' as u8],
        arithmetic_token_text(ArithmeticToken::Not) == seq!['n' as u8, 'o' as u8, 't' as u8],
        memory_token_kind_text(MemoryTokenKind::Pop) == seq!['p' as u8, 'o' as u8, 'p' as u8],
        memory_token_kind_text(MemoryTokenKind::Push) == seq!['p' as u8, 'u' as u8, 's' as u8, 'h' as u8],
{
}

} // verus!

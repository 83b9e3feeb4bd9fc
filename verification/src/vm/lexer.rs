use vstd::prelude::*;
use vstd::slice::slice_subrange;

use crate::tokens::{has_prefix, starts_with};
use crate::util::push_all;

use super::assemble::{word_value, word_value_checked, word_value_ok};
use super::instructions::{
    AsmArithmeticInstruction, AsmBranchInstruction, AsmBranchInstructionKind,
    AsmFunctionInstruction, AsmInstructionPayload, AsmInstructionV, AsmMemoryInstruction,
    AsmMemoryInstructionKind, AsmMemoryInstructionSegment, FunctionMetadata,
};
use super::tokens::{
    spec_segment_named, ArithmeticToken, MemoryToken, MemoryTokenKind, Segment, Token,
    TokenPayload,
};

verus! {

/// Why a VM text cannot be read as commands.
#[derive(Debug, PartialEq, Eq, Structural, Clone, Copy)]
pub enum LexError {
    /// A `/` that does not open a `//` comment.
    BadComment,
    /// A memory command without its segment or value.
    MissingOperand,
    /// A memory command whose segment has no such name.
    UnknownSegment,
    /// A memory command whose value leaves the 16-bit range.
    ValueOutOfRange,
    /// A word that starts no known command.
    UnexpectedInstruction,
    /// More lines or commands than the counters hold.
    CounterOverflow,
    /// A function command whose argument count is not one or two digits.
    BadArgumentCount,
}

/// Blanks between words.
pub open spec fn is_blank(x: u8) -> bool {
    x == 32u8 || x == 9u8 || x == 13u8
}

/// The scan for the next word from position `e`: `c` is where the word
/// would start, `comment` whether a `//` comment is being skipped, `word`
/// whether a word has begun, `line` the line count. Gives the word's bounds
/// (none at the end of the text), the position reached and the line count.
pub open spec fn word_scan(
    b: Seq<u8>,
    c: int,
    e: int,
    comment: bool,
    word: bool,
    line: nat,
) -> Result<(Option<(int, int)>, int, nat), LexError>
    decreases b.len() - e, if word {
        0int
    } else {
        1int
    },
{
    if e < 0 || e >= b.len() {
        Ok((if word {
            Some((c, e))
        } else {
            None
        }, e, line))
    } else if comment {
        if b[e] == 10u8 {
            if line >= usize::MAX {
                Err(LexError::CounterOverflow)
            } else {
                word_scan(b, c + 1, e + 1, false, word, line + 1)
            }
        } else {
            word_scan(b, c + 1, e + 1, true, word, line)
        }
    } else if b[e] == 47u8 {
        if e + 1 < b.len() && b[e + 1] == 47u8 {
            word_scan(b, c + 2, e + 2, true, word, line)
        } else {
            Err(LexError::BadComment)
        }
    } else if !word {
        if is_blank(b[e]) {
            word_scan(b, c + 1, e + 1, false, false, line)
        } else if b[e] == 10u8 {
            if line >= usize::MAX {
                Err(LexError::CounterOverflow)
            } else {
                word_scan(b, c + 1, e + 1, false, false, line + 1)
            }
        } else {
            word_scan(b, c, e, false, true, line)
        }
    } else if is_blank(b[e]) || b[e] == 10u8 {
        if b[e] == 10u8 {
            if line >= usize::MAX {
                Err(LexError::CounterOverflow)
            } else {
                Ok((Some((c, e)), e, line + 1))
            }
        } else {
            Ok((Some((c, e)), e, line))
        }
    } else {
        word_scan(b, c, e + 1, false, true, line)
    }
}

/// The next word from position `e`.
pub open spec fn next_word_spec(b: Seq<u8>, e: int, line: nat) -> Result<
    (Option<(int, int)>, int, nat),
    LexError,
> {
    word_scan(b, e, e, false, false, line)
}

/// A word's bounds lie within the text, and the scan only moves forward.
pub proof fn lemma_word_scan_bounds(
    b: Seq<u8>,
    c: int,
    e: int,
    comment: bool,
    word: bool,
    line: nat,
)
    requires
        0 <= c <= e <= b.len(),
    ensures
        match word_scan(b, c, e, comment, word, line) {
            Ok((w, e2, _)) => e <= e2 <= b.len() && match w {
                Some((s, t)) => 0 <= s <= t && t == e2,
                None => true,
            },
            Err(_) => true,
        },
    decreases b.len() - e, if word {
        0int
    } else {
        1int
    },
{
    if e < b.len() {
        if comment {
            if b[e] == 10u8 {
                if line < usize::MAX {
                    lemma_word_scan_bounds(b, c + 1, e + 1, false, word, line + 1);
                }
            } else {
                lemma_word_scan_bounds(b, c + 1, e + 1, true, word, line);
            }
        } else if b[e] == 47u8 {
            if e + 1 < b.len() && b[e + 1] == 47u8 {
                lemma_word_scan_bounds(b, c + 2, e + 2, true, word, line);
            }
        } else if !word {
            if is_blank(b[e]) {
                lemma_word_scan_bounds(b, c + 1, e + 1, false, false, line);
            } else if b[e] == 10u8 {
                if line < usize::MAX {
                    lemma_word_scan_bounds(b, c + 1, e + 1, false, false, line + 1);
                }
            } else {
                lemma_word_scan_bounds(b, c, e, false, true, line);
            }
        } else if !(is_blank(b[e]) || b[e] == 10u8) {
            lemma_word_scan_bounds(b, c, e + 1, false, true, line);
        }
    }
}

/// The arithmetic command that a word starts, if any.
pub open spec fn arithmetic_prefix(w: Seq<u8>) -> Option<ArithmeticToken> {
    if has_prefix(w, seq![97u8, 100u8, 100u8]) {
        Some(ArithmeticToken::Add)
    } else if has_prefix(w, seq![115u8, 117u8, 98u8]) {
        Some(ArithmeticToken::Sub)
    } else if has_prefix(w, seq![110u8, 101u8, 103u8]) {
        Some(ArithmeticToken::Neg)
    } else if has_prefix(w, seq![101u8, 113u8]) {
        Some(ArithmeticToken::Eq)
    } else if has_prefix(w, seq![103u8, 116u8]) {
        Some(ArithmeticToken::Gt)
    } else if has_prefix(w, seq![108u8, 116u8]) {
        Some(ArithmeticToken::Lt)
    } else if has_prefix(w, seq![97u8, 110u8, 100u8]) {
        Some(ArithmeticToken::And)
    } else if has_prefix(w, seq![111u8, 114u8]) {
        Some(ArithmeticToken::Or)
    } else if has_prefix(w, seq![110u8, 111u8, 116u8]) {
        Some(ArithmeticToken::Not)
    } else {
        None
    }
}

/// The operands of a memory command read from position `e`: its segment's
/// word and its value's word. Gives the command, the position reached and
/// the line count.
pub open spec fn memory_token_spec(b: Seq<u8>, kind: MemoryTokenKind, e: int, line: nat) -> Result<
    (MemoryToken, int, nat),
    LexError,
> {
    match next_word_spec(b, e, line) {
        Err(x) => Err(x),
        Ok((None, _, _)) => Err(LexError::MissingOperand),
        Ok((Some((s1, t1)), e1, l1)) => match spec_segment_named(b.subrange(s1, t1)) {
            None => Err(LexError::UnknownSegment),
            Some(segment) => match next_word_spec(b, e1, l1) {
                Err(x) => Err(x),
                Ok((None, _, _)) => Err(LexError::MissingOperand),
                Ok((Some((s2, t2)), e2, l2)) => {
                    let w = b.subrange(s2, t2);
                    if word_value_ok(w) {
                        Ok((MemoryToken { segment, kind, val: word_value(w) as i16 }, e2, l2))
                    } else {
                        Err(LexError::ValueOutOfRange)
                    }
                },
            },
        },
    }
}

/// The next command from position `e`: its payload, the position reached
/// and the line count, or none at the end of the text.
pub open spec fn payload_spec(b: Seq<u8>, e: int, line: nat) -> Result<
    Option<(TokenPayload, int, nat)>,
    LexError,
> {
    match next_word_spec(b, e, line) {
        Err(x) => Err(x),
        Ok((None, _, _)) => Ok(None),
        Ok((Some((s, t)), e1, l1)) => {
            let w = b.subrange(s, t);
            if has_prefix(w, seq![112u8, 117u8, 115u8, 104u8]) || has_prefix(
                w,
                seq![112u8, 111u8, 112u8],
            ) {
                let kind = if has_prefix(w, seq![112u8, 117u8, 115u8, 104u8]) {
                    MemoryTokenKind::Push
                } else {
                    MemoryTokenKind::Pop
                };
                match memory_token_spec(b, kind, e1, l1) {
                    Ok((m, e2, l2)) => Ok(Some((TokenPayload::Memory(m), e2, l2))),
                    Err(x) => Err(x),
                }
            } else {
                match arithmetic_prefix(w) {
                    Some(a) => Ok(Some((TokenPayload::Arithmetic(a), e1, l1))),
                    None => Err(LexError::UnexpectedInstruction),
                }
            }
        },
    }
}

/// A parsed memory command in the form of the instruction set.
pub open spec fn asm_memory_of(m: MemoryToken) -> AsmMemoryInstruction {
    AsmMemoryInstruction {
        segment: match m.segment {
            Segment::Arg => AsmMemoryInstructionSegment::Arg,
            Segment::Const => AsmMemoryInstructionSegment::Const,
            Segment::Pointer => AsmMemoryInstructionSegment::Pointer,
            Segment::Static => AsmMemoryInstructionSegment::Static,
            Segment::Local => AsmMemoryInstructionSegment::Local,
            Segment::Temp => AsmMemoryInstructionSegment::Temp,
            Segment::That => AsmMemoryInstructionSegment::That,
            Segment::This => AsmMemoryInstructionSegment::This,
        },
        kind: match m.kind {
            MemoryTokenKind::Pop => AsmMemoryInstructionKind::Pop,
            MemoryTokenKind::Push => AsmMemoryInstructionKind::Push,
        },
        val: m.val,
    }
}

/// An arithmetic command in the form of the instruction set.
pub open spec fn asm_arithmetic_of(a: ArithmeticToken) -> AsmArithmeticInstruction {
    match a {
        ArithmeticToken::Add => AsmArithmeticInstruction::Add,
        ArithmeticToken::Sub => AsmArithmeticInstruction::Sub,
        ArithmeticToken::Neg => AsmArithmeticInstruction::Neg,
        ArithmeticToken::Eq => AsmArithmeticInstruction::Eq,
        ArithmeticToken::Gt => AsmArithmeticInstruction::Gt,
        ArithmeticToken::Lt => AsmArithmeticInstruction::Lt,
        ArithmeticToken::And => AsmArithmeticInstruction::And,
        ArithmeticToken::Or => AsmArithmeticInstruction::Or,
        ArithmeticToken::Not => AsmArithmeticInstruction::Not,
    }
}

/// An ASCII decimal digit.
pub open spec fn is_digit(x: u8) -> bool {
    48u8 <= x <= 57u8
}

/// The argument count of a function command: a word of one or two digits.
pub open spec fn args_count_spec(w: Seq<u8>) -> Option<i16> {
    if w.len() == 1 && is_digit(w[0]) {
        Some((w[0] - 48) as i16)
    } else if w.len() == 2 && is_digit(w[0]) && is_digit(w[1]) {
        Some(((w[0] - 48) * 10 + (w[1] - 48)) as i16)
    } else {
        None
    }
}

/// The label word of a branch command read from position `e`.
pub open spec fn branch_operand_spec(
    b: Seq<u8>,
    kind: AsmBranchInstructionKind,
    e: int,
    line: nat,
) -> Result<(AsmInstructionV, int, nat), LexError> {
    match next_word_spec(b, e, line) {
        Err(x) => Err(x),
        Ok((None, _, _)) => Err(LexError::MissingOperand),
        Ok((Some((s, t)), e1, l1)) => Ok((AsmInstructionV::Branch(kind, b.subrange(s, t)), e1, l1)),
    }
}

/// The name and argument count words of a function definition or call
/// read from position `e`.
pub open spec fn function_operands_spec(
    b: Seq<u8>,
    is_definition: bool,
    e: int,
    line: nat,
) -> Result<(AsmInstructionV, int, nat), LexError> {
    match next_word_spec(b, e, line) {
        Err(x) => Err(x),
        Ok((None, _, _)) => Err(LexError::MissingOperand),
        Ok((Some((s1, t1)), e1, l1)) => match next_word_spec(b, e1, l1) {
            Err(x) => Err(x),
            Ok((None, _, _)) => Err(LexError::MissingOperand),
            Ok((Some((s2, t2)), e2, l2)) => match args_count_spec(b.subrange(s2, t2)) {
                None => Err(LexError::BadArgumentCount),
                Some(n) => Ok((
                    if is_definition {
                        AsmInstructionV::Definition(b.subrange(s1, t1), n)
                    } else {
                        AsmInstructionV::Call(b.subrange(s1, t1), n)
                    },
                    e2,
                    l2,
                )),
            },
        },
    }
}

/// The command that a word starts, other than a memory or an arithmetic
/// one, read on from position `e`.
pub open spec fn control_spec(b: Seq<u8>, w: Seq<u8>, e: int, line: nat) -> Result<
    (AsmInstructionV, int, nat),
    LexError,
> {
    if has_prefix(w, seq![114u8, 101u8, 116u8, 117u8, 114u8, 110u8]) {
        Ok((AsmInstructionV::Return, e, line))
    } else if has_prefix(w, seq![102u8, 117u8, 110u8, 99u8, 116u8, 105u8, 111u8, 110u8]) {
        function_operands_spec(b, true, e, line)
    } else if has_prefix(w, seq![99u8, 97u8, 108u8, 108u8]) {
        function_operands_spec(b, false, e, line)
    } else if has_prefix(w, seq![108u8, 97u8, 98u8, 101u8, 108u8]) {
        branch_operand_spec(b, AsmBranchInstructionKind::Label, e, line)
    } else if has_prefix(w, seq![103u8, 111u8, 116u8, 111u8]) {
        branch_operand_spec(b, AsmBranchInstructionKind::Goto, e, line)
    } else if has_prefix(w, seq![105u8, 102u8, 45u8, 103u8, 111u8, 116u8, 111u8]) {
        branch_operand_spec(b, AsmBranchInstructionKind::IfGoto, e, line)
    } else {
        Err(LexError::UnexpectedInstruction)
    }
}

/// The next instruction of the full command set from position `e`: its
/// view, the position reached and the line count, or none at the end of
/// the text.
pub open spec fn instruction_spec(b: Seq<u8>, e: int, line: nat) -> Result<
    Option<(AsmInstructionV, int, nat)>,
    LexError,
> {
    match next_word_spec(b, e, line) {
        Err(x) => Err(x),
        Ok((None, _, _)) => Ok(None),
        Ok((Some((s, t)), e1, l1)) => {
            let w = b.subrange(s, t);
            if has_prefix(w, seq![112u8, 117u8, 115u8, 104u8]) || has_prefix(
                w,
                seq![112u8, 111u8, 112u8],
            ) {
                let kind = if has_prefix(w, seq![112u8, 117u8, 115u8, 104u8]) {
                    MemoryTokenKind::Push
                } else {
                    MemoryTokenKind::Pop
                };
                match memory_token_spec(b, kind, e1, l1) {
                    Ok((m, e2, l2)) => {
                        let a = asm_memory_of(m);
                        Ok(Some((AsmInstructionV::Memory(a.segment, a.kind, a.val), e2, l2)))
                    },
                    Err(x) => Err(x),
                }
            } else {
                match arithmetic_prefix(w) {
                    Some(a) => Ok(Some((AsmInstructionV::Arithmetic(asm_arithmetic_of(a)), e1, l1))),
                    None => match control_spec(b, w, e1, l1) {
                        Ok((v, e2, l2)) => Ok(Some((v, e2, l2))),
                        Err(x) => Err(x),
                    },
                }
            }
        },
    }
}

/// An instruction read from VM text, with its number and source line.
pub struct AsmToken {
    pub payload: AsmInstructionPayload,
    pub instruction: usize,
    pub src: usize,
}

/// A reader of VM commands from a text held in memory.
pub struct VMLexer {
    buffer: Vec<u8>,
    cursor: usize,
    end_word_cursor: usize,
    src_line: usize,
    instruction_number: usize,
    is_in_progress: bool,
}

impl VMLexer {
    /// The text being read.
    pub closed spec fn text(&self) -> Seq<u8> {
        self.buffer@
    }

    /// Where the next word's scan starts.
    pub closed spec fn position(&self) -> int {
        self.end_word_cursor as int
    }

    /// The line count.
    pub closed spec fn line(&self) -> nat {
        self.src_line as nat
    }

    /// The number of commands asked for so far.
    pub closed spec fn instruction_count(&self) -> nat {
        self.instruction_number as nat
    }

    pub closed spec fn wf(&self) -> bool {
        self.end_word_cursor <= self.buffer@.len()
    }

    /// A reader at the start of `content`, on line 1.
    pub fn new(content: Vec<u8>) -> (r: Self)
        ensures
            r.wf(),
            r.text() == content@,
            r.position() == 0,
            r.line() == 1,
            r.instruction_count() == 0,
    {
        Self {
            buffer: content,
            cursor: 0,
            end_word_cursor: 0,
            is_in_progress: false,
            instruction_number: 0,
            src_line: 1,
        }
    }

    /// The bounds of the next word, skipping blanks, line feeds and `//`
    /// comments.
    fn next_word(&mut self) -> (r: Result<Option<(usize, usize)>, LexError>)
        requires
            old(self).wf(),
        ensures
            final(self).wf(),
            final(self).text() == old(self).text(),
            final(self).instruction_count() == old(self).instruction_count(),
            match next_word_spec(old(self).text(), old(self).position(), old(self).line()) {
                Ok((w, e, l)) => r matches Ok(w2) && final(self).position() == e && final(self).line() == l && match w {
                    Some((s, t)) => w2 == Some((s as usize, t as usize)),
                    None => w2 is None,
                },
                Err(x) => r == Err::<Option<(usize, usize)>, LexError>(x),
            },
    {
        let ghost b = self.buffer@;
        let ghost goal = next_word_spec(b, self.end_word_cursor as int, self.src_line as nat);
        let mut is_comment = false;
        let mut is_word = false;
        self.cursor = self.end_word_cursor;
        let n = self.buffer.len();
        loop
            invariant
                n == b.len(),
                b == self.buffer@,
                b == old(self).buffer@,
                goal == next_word_spec(old(self).text(), old(self).position(), old(self).line()),
                self.instruction_number == old(self).instruction_number,
                self.cursor <= self.end_word_cursor <= n,
                goal == word_scan(
                    b,
                    self.cursor as int,
                    self.end_word_cursor as int,
                    is_comment,
                    is_word,
                    self.src_line as nat,
                ),
            decreases n - self.end_word_cursor, if is_word {
                0int
            } else {
                1int
            },
        {
            let e = self.end_word_cursor;
            if e >= n {
                return if is_word {
                    Ok(Some((self.cursor, e)))
                } else {
                    Ok(None)
                };
            }
            let x = self.buffer[e];
            if is_comment {
                if x == 10 {
                    if self.src_line == usize::MAX {
                        return Err(LexError::CounterOverflow);
                    }
                    self.src_line = self.src_line + 1;
                    is_comment = false;
                }
                self.cursor = self.cursor + 1;
                self.end_word_cursor = e + 1;
            } else if x == 47 {
                if !(e + 1 < n && self.buffer[e + 1] == 47) {
                    return Err(LexError::BadComment);
                }
                self.cursor = self.cursor + 2;
                self.end_word_cursor = e + 2;
                is_comment = true;
            } else if !is_word {
                if x == 32 || x == 9 || x == 13 {
                    self.cursor = self.cursor + 1;
                    self.end_word_cursor = e + 1;
                } else if x == 10 {
                    if self.src_line == usize::MAX {
                        return Err(LexError::CounterOverflow);
                    }
                    self.src_line = self.src_line + 1;
                    self.cursor = self.cursor + 1;
                    self.end_word_cursor = e + 1;
                } else {
                    is_word = true;
                }
            } else if x == 32 || x == 9 || x == 13 || x == 10 {
                if x == 10 {
                    if self.src_line == usize::MAX {
                        return Err(LexError::CounterOverflow);
                    }
                    self.src_line = self.src_line + 1;
                }
                return Ok(Some((self.cursor, e)));
            } else {
                self.end_word_cursor = e + 1;
            }
        }
    }

    /// The next command, or none at the end of the text; an error where the
    /// text holds no well-formed command.
    pub fn try_next_token(&mut self) -> (r: Result<Option<Token>, LexError>)
        requires
            old(self).wf(),
        ensures
            final(self).text() == old(self).text(),
            old(self).instruction_count() >= usize::MAX ==> r == Err::<Option<Token>, LexError>(
                LexError::CounterOverflow,
            ),
            old(self).instruction_count() < usize::MAX ==> match payload_spec(
                old(self).text(),
                old(self).position(),
                old(self).line(),
            ) {
                Ok(None) => r matches Ok(None) && final(self).wf(),
                Ok(Some((p, e, l))) => r matches Ok(Some(t)) && t.payload == p && t.instruction
                    == old(self).instruction_count() + 1 && t.src == l && final(self).wf()
                    && final(self).position() == e && final(self).line() == l
                    && final(self).instruction_count() == old(self).instruction_count() + 1,
                Err(x) => r == Err::<Option<Token>, LexError>(x),
            },
    {
        if self.instruction_number == usize::MAX {
            return Err(LexError::CounterOverflow);
        }
        self.is_in_progress = true;
        self.instruction_number = self.instruction_number + 1;
        let ghost b = self.buffer@;
        let ghost e0 = self.end_word_cursor as int;
        let ghost l0 = self.src_line as nat;
        proof {
            lemma_word_scan_bounds(b, e0, e0, false, false, l0);
        }
        let (s, t) = match self.next_word() {
            Err(x) => {
                return Err(x);
            },
            Ok(None) => {
                return Ok(None);
            },
            Ok(Some(w)) => w,
        };
        let word = slice_subrange(self.buffer.as_slice(), s, t);
        let is_push = starts_with(word, &[112u8, 117u8, 115u8, 104u8]);
        let is_pop = starts_with(word, &[112u8, 111u8, 112u8]);
        proof {
            assert(seq![112u8, 117u8, 115u8, 104u8] =~= [112u8, 117u8, 115u8, 104u8]@);
            assert(seq![112u8, 111u8, 112u8] =~= [112u8, 111u8, 112u8]@);
        }
        let payload = if is_push || is_pop {
            let kind = if is_push {
                MemoryTokenKind::Push
            } else {
                MemoryTokenKind::Pop
            };
            match self.build_memory_token(kind) {
                Ok(m) => TokenPayload::Memory(m),
                Err(x) => {
                    return Err(x);
                },
            }
        } else {
            match Self::arithmetic_of(word) {
                Some(a) => TokenPayload::Arithmetic(a),
                None => {
                    return Err(LexError::UnexpectedInstruction);
                },
            }
        };
        Ok(Some(Token { payload, instruction: self.instruction_number, src: self.src_line }))
    }

    /// The next command, or none at the end of the text.
    pub fn next_token(&mut self) -> (r: Option<Token>)
        requires
            old(self).wf(),
            old(self).instruction_count() < usize::MAX,
            payload_spec(old(self).text(), old(self).position(), old(self).line()) is Ok,
        ensures
            final(self).text() == old(self).text(),
            final(self).wf(),
            match payload_spec(old(self).text(), old(self).position(), old(self).line()) {
                Ok(None) => r is None,
                Ok(Some((p, e, l))) => r matches Some(t) && t.payload == p && t.instruction
                    == old(self).instruction_count() + 1 && t.src == l && final(self).position()
                    == e && final(self).line() == l && final(self).instruction_count() == old(self).instruction_count() + 1,
                Err(_) => false,
            },
    {
        match self.try_next_token() {
            Ok(t) => t,
            Err(_) => None,
        }
    }

    fn arithmetic_of(word: &[u8]) -> (r: Option<ArithmeticToken>)
        ensures
            r == arithmetic_prefix(word@),
    {
        proof {
            assert(seq![97u8, 100u8, 100u8] =~= [97u8, 100u8, 100u8]@);
            assert(seq![115u8, 117u8, 98u8] =~= [115u8, 117u8, 98u8]@);
            assert(seq![110u8, 101u8, 103u8] =~= [110u8, 101u8, 103u8]@);
            assert(seq![101u8, 113u8] =~= [101u8, 113u8]@);
            assert(seq![103u8, 116u8] =~= [103u8, 116u8]@);
            assert(seq![108u8, 116u8] =~= [108u8, 116u8]@);
            assert(seq![97u8, 110u8, 100u8] =~= [97u8, 110u8, 100u8]@);
            assert(seq![111u8, 114u8] =~= [111u8, 114u8]@);
            assert(seq![110u8, 111u8, 116u8] =~= [110u8, 111u8, 116u8]@);
        }
        if starts_with(word, &[97u8, 100u8, 100u8]) {
            Some(ArithmeticToken::Add)
        } else if starts_with(word, &[115u8, 117u8, 98u8]) {
            Some(ArithmeticToken::Sub)
        } else if starts_with(word, &[110u8, 101u8, 103u8]) {
            Some(ArithmeticToken::Neg)
        } else if starts_with(word, &[101u8, 113u8]) {
            Some(ArithmeticToken::Eq)
        } else if starts_with(word, &[103u8, 116u8]) {
            Some(ArithmeticToken::Gt)
        } else if starts_with(word, &[108u8, 116u8]) {
            Some(ArithmeticToken::Lt)
        } else if starts_with(word, &[97u8, 110u8, 100u8]) {
            Some(ArithmeticToken::And)
        } else if starts_with(word, &[111u8, 114u8]) {
            Some(ArithmeticToken::Or)
        } else if starts_with(word, &[110u8, 111u8, 116u8]) {
            Some(ArithmeticToken::Not)
        } else {
            None
        }
    }

    /// The segment and value words of a memory command.
    fn build_memory_token(&mut self, kind: MemoryTokenKind) -> (r: Result<MemoryToken, LexError>)
        requires
            old(self).wf(),
        ensures
            final(self).wf(),
            final(self).text() == old(self).text(),
            final(self).instruction_count() == old(self).instruction_count(),
            match memory_token_spec(old(self).text(), kind, old(self).position(), old(self).line()) {
                Ok((m, e, l)) => r == Ok::<MemoryToken, LexError>(m) && final(self).position() == e
                    && final(self).line() == l,
                Err(x) => r == Err::<MemoryToken, LexError>(x),
            },
    {
        let ghost b = self.buffer@;
        proof {
            lemma_word_scan_bounds(b, self.end_word_cursor as int, self.end_word_cursor as int, false, false, self.src_line as nat);
        }
        let (s1, t1) = match self.next_word() {
            Err(x) => {
                return Err(x);
            },
            Ok(None) => {
                return Err(LexError::MissingOperand);
            },
            Ok(Some(w)) => w,
        };
        let segment = match Segment::from_name(slice_subrange(self.buffer.as_slice(), s1, t1)) {
            Some(s) => s,
            None => {
                return Err(LexError::UnknownSegment);
            },
        };
        proof {
            lemma_word_scan_bounds(b, self.end_word_cursor as int, self.end_word_cursor as int, false, false, self.src_line as nat);
        }
        let (s2, t2) = match self.next_word() {
            Err(x) => {
                return Err(x);
            },
            Ok(None) => {
                return Err(LexError::MissingOperand);
            },
            Ok(Some(w)) => w,
        };
        match word_value_checked(slice_subrange(self.buffer.as_slice(), s2, t2)) {
            Some(val) => Ok(MemoryToken { kind, segment, val }),
            None => Err(LexError::ValueOutOfRange),
        }
    }

    /// The next instruction of the full command set, or none at the end of
    /// the text; an error where the text holds no well-formed command.
    pub fn try_next_instruction(&mut self) -> (r: Result<Option<AsmToken>, LexError>)
        requires
            old(self).wf(),
        ensures
            final(self).text() == old(self).text(),
            old(self).instruction_count() >= usize::MAX ==> r == Err::<Option<AsmToken>, LexError>(
                LexError::CounterOverflow,
            ),
            old(self).instruction_count() < usize::MAX ==> match instruction_spec(
                old(self).text(),
                old(self).position(),
                old(self).line(),
            ) {
                Ok(None) => r matches Ok(None) && final(self).wf(),
                Ok(Some((p, e, l))) => r matches Ok(Some(t)) && t.payload@ == p && t.instruction
                    == old(self).instruction_count() + 1 && t.src == l && final(self).wf()
                    && final(self).position() == e && final(self).line() == l
                    && final(self).instruction_count() == old(self).instruction_count() + 1,
                Err(x) => r == Err::<Option<AsmToken>, LexError>(x),
            },
    {
        if self.instruction_number == usize::MAX {
            return Err(LexError::CounterOverflow);
        }
        self.is_in_progress = true;
        self.instruction_number = self.instruction_number + 1;
        let ghost b = self.buffer@;
        let ghost e0 = self.end_word_cursor as int;
        let ghost l0 = self.src_line as nat;
        proof {
            lemma_word_scan_bounds(b, e0, e0, false, false, l0);
        }
        let (s, t) = match self.next_word() {
            Err(x) => {
                return Err(x);
            },
            Ok(None) => {
                return Ok(None);
            },
            Ok(Some(w)) => w,
        };
        let word = slice_subrange(self.buffer.as_slice(), s, t);
        let is_push = starts_with(word, &[112u8, 117u8, 115u8, 104u8]);
        let is_pop = starts_with(word, &[112u8, 111u8, 112u8]);
        proof {
            assert(seq![112u8, 117u8, 115u8, 104u8] =~= [112u8, 117u8, 115u8, 104u8]@);
            assert(seq![112u8, 111u8, 112u8] =~= [112u8, 111u8, 112u8]@);
        }
        let payload = if is_push || is_pop {
            let kind = if is_push {
                MemoryTokenKind::Push
            } else {
                MemoryTokenKind::Pop
            };
            match self.build_memory_token(kind) {
                Ok(m) => AsmInstructionPayload::Memory(Self::asm_memory(&m)),
                Err(x) => {
                    return Err(x);
                },
            }
        } else {
            match Self::arithmetic_of(word) {
                Some(a) => AsmInstructionPayload::Arithmetic(Self::asm_arithmetic(a)),
                None => {
                    let mut w: Vec<u8> = Vec::new();
                    push_all(&mut w, word);
                    match self.build_control(w.as_slice()) {
                        Ok(p) => p,
                        Err(x) => {
                            return Err(x);
                        },
                    }
                },
            }
        };
        Ok(Some(AsmToken { payload, instruction: self.instruction_number, src: self.src_line }))
    }

    fn asm_memory(m: &MemoryToken) -> (r: AsmMemoryInstruction)
        ensures
            r == asm_memory_of(*m),
    {
        let segment = match m.segment {
            Segment::Arg => AsmMemoryInstructionSegment::Arg,
            Segment::Const => AsmMemoryInstructionSegment::Const,
            Segment::Pointer => AsmMemoryInstructionSegment::Pointer,
            Segment::Static => AsmMemoryInstructionSegment::Static,
            Segment::Local => AsmMemoryInstructionSegment::Local,
            Segment::Temp => AsmMemoryInstructionSegment::Temp,
            Segment::That => AsmMemoryInstructionSegment::That,
            Segment::This => AsmMemoryInstructionSegment::This,
        };
        let kind = match m.kind {
            MemoryTokenKind::Pop => AsmMemoryInstructionKind::Pop,
            MemoryTokenKind::Push => AsmMemoryInstructionKind::Push,
        };
        AsmMemoryInstruction { segment, kind, val: m.val }
    }

    fn asm_arithmetic(a: ArithmeticToken) -> (r: AsmArithmeticInstruction)
        ensures
            r == asm_arithmetic_of(a),
    {
        match a {
            ArithmeticToken::Add => AsmArithmeticInstruction::Add,
            ArithmeticToken::Sub => AsmArithmeticInstruction::Sub,
            ArithmeticToken::Neg => AsmArithmeticInstruction::Neg,
            ArithmeticToken::Eq => AsmArithmeticInstruction::Eq,
            ArithmeticToken::Gt => AsmArithmeticInstruction::Gt,
            ArithmeticToken::Lt => AsmArithmeticInstruction::Lt,
            ArithmeticToken::And => AsmArithmeticInstruction::And,
            ArithmeticToken::Or => AsmArithmeticInstruction::Or,
            ArithmeticToken::Not => AsmArithmeticInstruction::Not,
        }
    }

    fn args_count_of(w: &[u8]) -> (r: Option<i16>)
        ensures
            r == args_count_spec(w@),
    {
        if w.len() == 1 && 48 <= w[0] && w[0] <= 57 {
            Some((w[0] - 48) as i16)
        } else if w.len() == 2 && 48 <= w[0] && w[0] <= 57 && 48 <= w[1] && w[1] <= 57 {
            Some(((w[0] - 48) as i16) * 10 + ((w[1] - 48) as i16))
        } else {
            None
        }
    }

    fn build_branch(&mut self, kind: AsmBranchInstructionKind) -> (r: Result<AsmInstructionPayload, LexError>)
        requires
            old(self).wf(),
        ensures
            final(self).wf(),
            final(self).text() == old(self).text(),
            final(self).instruction_count() == old(self).instruction_count(),
            match branch_operand_spec(old(self).text(), kind, old(self).position(), old(self).line()) {
                Ok((v, e, l)) => r matches Ok(p) && p@ == v && final(self).position() == e
                    && final(self).line() == l,
                Err(x) => r == Err::<AsmInstructionPayload, LexError>(x),
            },
    {
        let ghost b = self.buffer@;
        proof {
            lemma_word_scan_bounds(b, self.end_word_cursor as int, self.end_word_cursor as int, false, false, self.src_line as nat);
        }
        let (s, t) = match self.next_word() {
            Err(x) => {
                return Err(x);
            },
            Ok(None) => {
                return Err(LexError::MissingOperand);
            },
            Ok(Some(w)) => w,
        };
        let mut name: Vec<u8> = Vec::new();
        push_all(&mut name, slice_subrange(self.buffer.as_slice(), s, t));
        Ok(AsmInstructionPayload::Branch(AsmBranchInstruction { kind, name }))
    }

    fn build_function(&mut self, is_definition: bool) -> (r: Result<AsmInstructionPayload, LexError>)
        requires
            old(self).wf(),
        ensures
            final(self).wf(),
            final(self).text() == old(self).text(),
            final(self).instruction_count() == old(self).instruction_count(),
            match function_operands_spec(old(self).text(), is_definition, old(self).position(), old(self).line()) {
                Ok((v, e, l)) => r matches Ok(p) && p@ == v && final(self).position() == e
                    && final(self).line() == l,
                Err(x) => r == Err::<AsmInstructionPayload, LexError>(x),
            },
    {
        let ghost b = self.buffer@;
        proof {
            lemma_word_scan_bounds(b, self.end_word_cursor as int, self.end_word_cursor as int, false, false, self.src_line as nat);
        }
        let (s1, t1) = match self.next_word() {
            Err(x) => {
                return Err(x);
            },
            Ok(None) => {
                return Err(LexError::MissingOperand);
            },
            Ok(Some(w)) => w,
        };
        let mut name: Vec<u8> = Vec::new();
        push_all(&mut name, slice_subrange(self.buffer.as_slice(), s1, t1));
        proof {
            lemma_word_scan_bounds(b, self.end_word_cursor as int, self.end_word_cursor as int, false, false, self.src_line as nat);
        }
        let (s2, t2) = match self.next_word() {
            Err(x) => {
                return Err(x);
            },
            Ok(None) => {
                return Err(LexError::MissingOperand);
            },
            Ok(Some(w)) => w,
        };
        let args_count = match Self::args_count_of(slice_subrange(self.buffer.as_slice(), s2, t2)) {
            Some(n) => n,
            None => {
                return Err(LexError::BadArgumentCount);
            },
        };
        let meta = FunctionMetadata { name, args_count };
        if is_definition {
            Ok(AsmInstructionPayload::Function(AsmFunctionInstruction::Definition(meta)))
        } else {
            Ok(AsmInstructionPayload::Function(AsmFunctionInstruction::Call(meta)))
        }
    }

    fn build_control(&mut self, w: &[u8]) -> (r: Result<AsmInstructionPayload, LexError>)
        requires
            old(self).wf(),
        ensures
            final(self).wf(),
            final(self).text() == old(self).text(),
            final(self).instruction_count() == old(self).instruction_count(),
            match control_spec(old(self).text(), w@, old(self).position(), old(self).line()) {
                Ok((v, e, l)) => r matches Ok(p) && p@ == v && final(self).position() == e
                    && final(self).line() == l,
                Err(x) => r == Err::<AsmInstructionPayload, LexError>(x),
            },
    {
        proof {
            assert(seq![114u8, 101u8, 116u8, 117u8, 114u8, 110u8] =~= [114u8, 101u8, 116u8, 117u8, 114u8, 110u8]@);
            assert(seq![102u8, 117u8, 110u8, 99u8, 116u8, 105u8, 111u8, 110u8] =~= [102u8, 117u8, 110u8, 99u8, 116u8, 105u8, 111u8, 110u8]@);
            assert(seq![99u8, 97u8, 108u8, 108u8] =~= [99u8, 97u8, 108u8, 108u8]@);
            assert(seq![108u8, 97u8, 98u8, 101u8, 108u8] =~= [108u8, 97u8, 98u8, 101u8, 108u8]@);
            assert(seq![103u8, 111u8, 116u8, 111u8] =~= [103u8, 111u8, 116u8, 111u8]@);
            assert(seq![105u8, 102u8, 45u8, 103u8, 111u8, 116u8, 111u8] =~= [105u8, 102u8, 45u8, 103u8, 111u8, 116u8, 111u8]@);
        }
        if starts_with(w, &[114u8, 101u8, 116u8, 117u8, 114u8, 110u8]) {
            Ok(AsmInstructionPayload::Function(AsmFunctionInstruction::Return))
        } else if starts_with(w, &[102u8, 117u8, 110u8, 99u8, 116u8, 105u8, 111u8, 110u8]) {
            self.build_function(true)
        } else if starts_with(w, &[99u8, 97u8, 108u8, 108u8]) {
            self.build_function(false)
        } else if starts_with(w, &[108u8, 97u8, 98u8, 101u8, 108u8]) {
            self.build_branch(AsmBranchInstructionKind::Label)
        } else if starts_with(w, &[103u8, 111u8, 116u8, 111u8]) {
            self.build_branch(AsmBranchInstructionKind::Goto)
        } else if starts_with(w, &[105u8, 102u8, 45u8, 103u8, 111u8, 116u8, 111u8]) {
            self.build_branch(AsmBranchInstructionKind::IfGoto)
        } else {
            Err(LexError::UnexpectedInstruction)
        }
    }
}

} // verus!

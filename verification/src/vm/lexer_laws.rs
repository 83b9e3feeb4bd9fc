use vstd::prelude::*;

use crate::hack::laws::lemma_nat_digits_value;
use crate::hack::number::{all_digits, digits_value};
use crate::tokens::has_prefix;
use crate::util::{int_text, nat_digits};

use super::assemble::{word_value, word_value_ok};
use super::instructions::{
    instruction_text, AsmArithmeticInstruction, AsmBranchInstructionKind, AsmInstructionV,
    AsmMemoryInstructionKind, AsmMemoryInstructionSegment,
};
use super::lexer::{
    args_count_spec, arithmetic_prefix, asm_arithmetic_of, asm_memory_of, branch_operand_spec,
    control_spec, function_operands_spec, instruction_spec, is_blank, memory_token_spec,
    next_word_spec, payload_spec, word_scan, LexError,
};
use super::tokens::{
    arithmetic_token_text, lemma_segment_named_text, memory_token_kind_text, memory_token_text,
    spec_segment_named, vm_segment_text, ArithmeticToken, MemoryToken, MemoryTokenKind, Segment,
    TokenPayload,
};

verus! {

/// A byte that differs, or runs past the end, rules a prefix out.
pub proof fn lemma_not_prefix(s: Seq<u8>, p: Seq<u8>, j: int)
    requires
        0 <= j < p.len(),
        j < s.len() ==> s[j] != p[j],
    ensures
        !has_prefix(s, p),
{
    if has_prefix(s, p) {
        assert(s.subrange(0, p.len() as int)[j] == p[j]);
    }
}

/// Bytes that a word runs over: no blank, line feed or `/`.
pub open spec fn is_word_byte(x: u8) -> bool {
    !is_blank(x) && x != 10u8 && x != 47u8
}

/// All bytes of `s` from `a` to `b` can run in a word.
pub open spec fn word_run(s: Seq<u8>, a: int, b: int) -> bool {
    forall|i: int| a <= i < b ==> #[trigger] is_word_byte(s[i])
}

/// A word that has begun runs to the next blank or line feed.
pub proof fn lemma_scan_run(b: Seq<u8>, c: int, e: int, t: int, line: nat)
    requires
        0 <= c <= e <= t <= b.len(),
        word_run(b, e, t),
        t == b.len() || is_blank(b[t]) || (b[t] == 10u8 && line < usize::MAX),
    ensures
        word_scan(b, c, e, false, true, line) == Ok::<(Option<(int, int)>, int, nat), super::lexer::LexError>(
            (
                Some((c, t)),
                t,
                if t < b.len() && b[t] == 10u8 {
                    line + 1
                } else {
                    line
                },
            ),
        ),
    decreases t - e,
{
    if e < t {
        assert(is_word_byte(b[e]));
        lemma_scan_run(b, c, e + 1, t, line);
    }
}

/// Blanks before a word are passed over.
pub proof fn lemma_scan_blanks(b: Seq<u8>, c: int, e: int, k: int, t: int, line: nat)
    requires
        0 <= c <= e <= k < t <= b.len(),
        forall|i: int| e <= i < k ==> #[trigger] is_blank(b[i]),
        word_run(b, k, t),
        t == b.len() || is_blank(b[t]) || (b[t] == 10u8 && line < usize::MAX),
    ensures
        word_scan(b, c, e, false, false, line) == Ok::<(Option<(int, int)>, int, nat), super::lexer::LexError>(
            (
                Some((c + (k - e), t)),
                t,
                if t < b.len() && b[t] == 10u8 {
                    line + 1
                } else {
                    line
                },
            ),
        ),
    decreases k - e,
{
    if e < k {
        assert(is_blank(b[e]));
        lemma_scan_blanks(b, c + 1, e + 1, k, t, line);
    } else {
        assert(is_word_byte(b[k]));
        lemma_scan_run(b, c, k, t, line);
    }
}

/// The names of segments, commands and kinds are lower-case letters and `-`.
pub open spec fn is_name_byte(x: u8) -> bool {
    (97 <= x <= 122)
}

pub proof fn lemma_segment_text_letters(s: Segment)
    ensures
        forall|i: int| 0 <= i < vm_segment_text(s).len() ==> #[trigger] is_name_byte(vm_segment_text(s)[i]),
        vm_segment_text(s).len() >= 1,
{
    let t = vm_segment_text(s);
    assert forall|i: int| 0 <= i < t.len() implies #[trigger] is_name_byte(t[i]) by {
        assert(0 <= i < 8);
        if i == 0 {
        } else if i == 1 {
        } else if i == 2 {
        } else if i == 3 {
        } else if i == 4 {
        } else if i == 5 {
        } else if i == 6 {
        } else {
        }
    }
}

pub proof fn lemma_kind_text_letters(k: MemoryTokenKind)
    ensures
        forall|i: int| 0 <= i < memory_token_kind_text(k).len() ==> #[trigger] is_name_byte(memory_token_kind_text(k)[i]),
        memory_token_kind_text(k).len() >= 1,
{
    let t = memory_token_kind_text(k);
    assert forall|i: int| 0 <= i < t.len() implies #[trigger] is_name_byte(t[i]) by {
        assert(0 <= i < 4);
        if i == 0 {
        } else if i == 1 {
        } else if i == 2 {
        } else {
        }
    }
}

pub proof fn lemma_arithmetic_text_letters(a: ArithmeticToken)
    ensures
        forall|i: int| 0 <= i < arithmetic_token_text(a).len() ==> #[trigger] is_name_byte(arithmetic_token_text(a)[i]),
        arithmetic_token_text(a).len() >= 1,
{
    let t = arithmetic_token_text(a);
    assert forall|i: int| 0 <= i < t.len() implies #[trigger] is_name_byte(t[i]) by {
        assert(0 <= i < 3);
        if i == 0 {
        } else if i == 1 {
        } else {
        }
    }
}

/// The value of digits read as a number word is their decimal value, and
/// each step stays in range while the value does.
pub proof fn lemma_word_value_digits(s: Seq<u8>)
    requires
        all_digits(s),
        digits_value(s) <= 32767,
    ensures
        word_value(s) == digits_value(s),
        word_value_ok(s),
    decreases s.len(),
{
    if s.len() > 0 {
        let p = s.drop_last();
        assert(all_digits(p)) by {
            assert forall|i: int| 0 <= i < p.len() implies 48 <= #[trigger] p[i] <= 57 by {
                assert(p[i] == s[i]);
            }
        }
        assert(48 <= s.last() <= 57) by {
            assert(s.last() == s[s.len() - 1]);
        }
        assert(digits_value(p) <= 3276);
        lemma_word_value_digits(p);
    }
}

/// A memory command printed as VM text, ended by a line feed, is read back
/// as that command, on the next line; its value must not be negative.
pub proof fn lemma_memory_text_read_back(m: MemoryToken, line: nat)
    requires
        m.val >= 0,
        line + 1 < usize::MAX,
    ensures
        payload_spec(memory_token_text(m) + seq![10u8], 0, line) == Ok::<
            Option<(TokenPayload, int, nat)>,
            super::lexer::LexError,
        >(Some((TokenPayload::Memory(m), memory_token_text(m).len() as int, line + 1))),
{
    let kt = memory_token_kind_text(m.kind);
    let st = vm_segment_text(m.segment);
    let dt = int_text(m.val as int);
    let b = memory_token_text(m) + seq![10u8];
    lemma_kind_text_letters(m.kind);
    lemma_segment_text_letters(m.segment);
    lemma_nat_digits_value(m.val as nat);
    assert(dt == nat_digits(m.val as nat));
    let k1 = kt.len() as int;
    let s1 = k1 + 1;
    let k2 = s1 + st.len();
    let s2 = k2 + 1;
    let k3 = s2 + dt.len();
    assert(b.len() == k3 + 1);
    assert forall|i: int| 0 <= i < k1 implies b[i] == kt[i] by {}
    assert forall|i: int| s1 <= i < k2 implies b[i] == st[i - s1] by {}
    assert forall|i: int| s2 <= i < k3 implies b[i] == dt[i - s2] by {}
    assert(b[k1] == 32u8);
    assert(b[k2] == 32u8);
    assert(b[k3] == 10u8);
    assert(word_run(b, 0, k1)) by {
        assert forall|i: int| 0 <= i < k1 implies #[trigger] is_word_byte(b[i]) by {
            assert(is_name_byte(kt[i]));
        }
    }
    assert(word_run(b, s1, k2)) by {
        assert forall|i: int| s1 <= i < k2 implies #[trigger] is_word_byte(b[i]) by {
            assert(is_name_byte(st[i - s1]));
        }
    }
    assert(word_run(b, s2, k3)) by {
        assert forall|i: int| s2 <= i < k3 implies #[trigger] is_word_byte(b[i]) by {
            assert(48 <= dt[i - s2] <= 57);
        }
    }
    lemma_scan_blanks(b, 0, 0, 0, k1, line);
    assert(next_word_spec(b, 0, line) == Ok::<(Option<(int, int)>, int, nat), super::lexer::LexError>(
        (Some((0, k1)), k1, line),
    ));
    assert(b.subrange(0, k1) =~= kt);
    lemma_scan_blanks(b, k1, k1, s1, k2, line);
    assert(b.subrange(s1, k2) =~= st);
    lemma_segment_named_text(m.segment);
    lemma_scan_blanks(b, k2, k2, s2, k3, line);
    assert(b.subrange(s2, k3) =~= dt);
    lemma_word_value_digits(dt);
    assert(word_value(dt) as i16 == m.val);
    assert(memory_token_spec(b, m.kind, k1, line) == Ok::<(MemoryToken, int, nat), super::lexer::LexError>(
        (m, k3, line + 1),
    ));
    match m.kind {
        MemoryTokenKind::Push => {
            assert(kt.subrange(0, 4) =~= seq![112u8, 117u8, 115u8, 104u8]);
        },
        MemoryTokenKind::Pop => {
            lemma_not_prefix(kt, seq![112u8, 117u8, 115u8, 104u8], 1);
            assert(kt.subrange(0, 3) =~= seq![112u8, 111u8, 112u8]);
        },
    }
}

/// An arithmetic command printed as VM text, ended by a line feed, is read
/// back as that command, on the next line.
pub proof fn lemma_arithmetic_text_read_back(a: ArithmeticToken, line: nat)
    requires
        line + 1 < usize::MAX,
    ensures
        payload_spec(arithmetic_token_text(a) + seq![10u8], 0, line) == Ok::<
            Option<(TokenPayload, int, nat)>,
            super::lexer::LexError,
        >(Some((TokenPayload::Arithmetic(a), arithmetic_token_text(a).len() as int, line + 1))),
{
    let t = arithmetic_token_text(a);
    let b = t + seq![10u8];
    let k = t.len() as int;
    lemma_arithmetic_text_letters(a);
    assert forall|i: int| 0 <= i < k implies b[i] == t[i] by {}
    assert(b[k] == 10u8);
    assert(word_run(b, 0, k)) by {
        assert forall|i: int| 0 <= i < k implies #[trigger] is_word_byte(b[i]) by {
            assert(is_name_byte(t[i]));
        }
    }
    lemma_scan_blanks(b, 0, 0, 0, k, line);
    assert(b.subrange(0, k) =~= t);
    assert(!has_prefix(t, seq![112u8, 117u8, 115u8, 104u8]));
    assert(!has_prefix(t, seq![112u8, 111u8, 112u8]));
    match a {
        ArithmeticToken::Add => {
            assert(t.subrange(0, 3) =~= seq![97u8, 100u8, 100u8]);
        },
        ArithmeticToken::Sub => {
            lemma_not_prefix(t, seq![97u8, 100u8, 100u8], 0);
            assert(t.subrange(0, 3) =~= seq![115u8, 117u8, 98u8]);
        },
        ArithmeticToken::Neg => {
            lemma_not_prefix(t, seq![97u8, 100u8, 100u8], 0);
            lemma_not_prefix(t, seq![115u8, 117u8, 98u8], 0);
            assert(t.subrange(0, 3) =~= seq![110u8, 101u8, 103u8]);
        },
        ArithmeticToken::Eq => {
            lemma_not_prefix(t, seq![97u8, 100u8, 100u8], 0);
            lemma_not_prefix(t, seq![115u8, 117u8, 98u8], 0);
            lemma_not_prefix(t, seq![110u8, 101u8, 103u8], 0);
            assert(t.subrange(0, 2) =~= seq![101u8, 113u8]);
        },
        ArithmeticToken::Gt => {
            lemma_not_prefix(t, seq![97u8, 100u8, 100u8], 0);
            lemma_not_prefix(t, seq![115u8, 117u8, 98u8], 0);
            lemma_not_prefix(t, seq![110u8, 101u8, 103u8], 0);
            lemma_not_prefix(t, seq![101u8, 113u8], 0);
            assert(t.subrange(0, 2) =~= seq![103u8, 116u8]);
        },
        ArithmeticToken::Lt => {
            lemma_not_prefix(t, seq![97u8, 100u8, 100u8], 0);
            lemma_not_prefix(t, seq![115u8, 117u8, 98u8], 0);
            lemma_not_prefix(t, seq![110u8, 101u8, 103u8], 0);
            lemma_not_prefix(t, seq![101u8, 113u8], 0);
            lemma_not_prefix(t, seq![103u8, 116u8], 0);
            assert(t.subrange(0, 2) =~= seq![108u8, 116u8]);
        },
        ArithmeticToken::And => {
            lemma_not_prefix(t, seq![97u8, 100u8, 100u8], 1);
            lemma_not_prefix(t, seq![115u8, 117u8, 98u8], 0);
            lemma_not_prefix(t, seq![110u8, 101u8, 103u8], 0);
            lemma_not_prefix(t, seq![101u8, 113u8], 0);
            lemma_not_prefix(t, seq![103u8, 116u8], 0);
            lemma_not_prefix(t, seq![108u8, 116u8], 0);
            assert(t.subrange(0, 3) =~= seq![97u8, 110u8, 100u8]);
        },
        ArithmeticToken::Or => {
            lemma_not_prefix(t, seq![97u8, 100u8, 100u8], 0);
            lemma_not_prefix(t, seq![115u8, 117u8, 98u8], 0);
            lemma_not_prefix(t, seq![110u8, 101u8, 103u8], 0);
            lemma_not_prefix(t, seq![101u8, 113u8], 0);
            lemma_not_prefix(t, seq![103u8, 116u8], 0);
            lemma_not_prefix(t, seq![108u8, 116u8], 0);
            lemma_not_prefix(t, seq![97u8, 110u8, 100u8], 0);
            assert(t.subrange(0, 2) =~= seq![111u8, 114u8]);
        },
        ArithmeticToken::Not => {
            lemma_not_prefix(t, seq![97u8, 100u8, 100u8], 0);
            lemma_not_prefix(t, seq![115u8, 117u8, 98u8], 0);
            lemma_not_prefix(t, seq![110u8, 101u8, 103u8], 1);
            lemma_not_prefix(t, seq![101u8, 113u8], 0);
            lemma_not_prefix(t, seq![103u8, 116u8], 0);
            lemma_not_prefix(t, seq![108u8, 116u8], 0);
            lemma_not_prefix(t, seq![97u8, 110u8, 100u8], 0);
            lemma_not_prefix(t, seq![111u8, 114u8], 0);
            assert(t.subrange(0, 3) =~= seq![110u8, 111u8, 116u8]);
        },
    }
    assert(arithmetic_prefix(t) == Some(a));
}


/// The command token of a memory instruction.
pub open spec fn memory_token_of_view(s: AsmMemoryInstructionSegment, k: AsmMemoryInstructionKind, v: i16) -> MemoryToken {
    MemoryToken {
        segment: match s {
            AsmMemoryInstructionSegment::Arg => Segment::Arg,
            AsmMemoryInstructionSegment::Const => Segment::Const,
            AsmMemoryInstructionSegment::Pointer => Segment::Pointer,
            AsmMemoryInstructionSegment::Static => Segment::Static,
            AsmMemoryInstructionSegment::Local => Segment::Local,
            AsmMemoryInstructionSegment::Temp => Segment::Temp,
            AsmMemoryInstructionSegment::That => Segment::That,
            AsmMemoryInstructionSegment::This => Segment::This,
        },
        kind: match k {
            AsmMemoryInstructionKind::Pop => MemoryTokenKind::Pop,
            AsmMemoryInstructionKind::Push => MemoryTokenKind::Push,
        },
        val: v,
    }
}

/// The command token of an arithmetic instruction.
pub open spec fn arithmetic_token_of(a: AsmArithmeticInstruction) -> ArithmeticToken {
    match a {
        AsmArithmeticInstruction::Add => ArithmeticToken::Add,
        AsmArithmeticInstruction::Sub => ArithmeticToken::Sub,
        AsmArithmeticInstruction::Neg => ArithmeticToken::Neg,
        AsmArithmeticInstruction::Eq => ArithmeticToken::Eq,
        AsmArithmeticInstruction::Gt => ArithmeticToken::Gt,
        AsmArithmeticInstruction::Lt => ArithmeticToken::Lt,
        AsmArithmeticInstruction::And => ArithmeticToken::And,
        AsmArithmeticInstruction::Or => ArithmeticToken::Or,
        AsmArithmeticInstruction::Not => ArithmeticToken::Not,
    }
}

proof fn lemma_memory_instruction_read_back(s: AsmMemoryInstructionSegment, k: AsmMemoryInstructionKind, v: i16, line: nat)
    requires
        v >= 0,
        line + 1 < usize::MAX,
    ensures
        instruction_spec(instruction_text(AsmInstructionV::Memory(s, k, v)) + seq![10u8], 0, line)
            == Ok::<Option<(AsmInstructionV, int, nat)>, LexError>(Some((
            AsmInstructionV::Memory(s, k, v),
            instruction_text(AsmInstructionV::Memory(s, k, v)).len() as int,
            line + 1,
        ))),
{
    let m = memory_token_of_view(s, k, v);
    let p = AsmInstructionV::Memory(s, k, v);
    assert(instruction_text(p) =~= memory_token_text(m));
    assert(asm_memory_of(m).segment == s && asm_memory_of(m).kind == k);
    lemma_memory_text_read_back(m, line);
    let b = memory_token_text(m) + seq![10u8];
    let kt = memory_token_kind_text(m.kind);
    lemma_kind_text_letters(m.kind);
    let k1 = kt.len() as int;
    assert forall|i: int| 0 <= i < k1 implies b[i] == kt[i] by {}
    assert(b[k1] == 32u8);
    assert(word_run(b, 0, k1)) by {
        assert forall|i: int| 0 <= i < k1 implies #[trigger] is_word_byte(b[i]) by {
            assert(is_name_byte(kt[i]));
        }
    }
    lemma_scan_blanks(b, 0, 0, 0, k1, line);
    assert(b.subrange(0, k1) =~= kt);
    match m.kind {
        MemoryTokenKind::Push => {
            assert(kt.subrange(0, 4) =~= seq![112u8, 117u8, 115u8, 104u8]);
        },
        MemoryTokenKind::Pop => {
            assert(kt.subrange(0, 3) =~= seq![112u8, 111u8, 112u8]);
        },
    }
}

proof fn lemma_arithmetic_instruction_read_back(a: AsmArithmeticInstruction, line: nat)
    requires
        line + 1 < usize::MAX,
    ensures
        instruction_spec(instruction_text(AsmInstructionV::Arithmetic(a)) + seq![10u8], 0, line)
            == Ok::<Option<(AsmInstructionV, int, nat)>, LexError>(Some((
            AsmInstructionV::Arithmetic(a),
            instruction_text(AsmInstructionV::Arithmetic(a)).len() as int,
            line + 1,
        ))),
{
    let t = arithmetic_token_of(a);
    assert(instruction_text(AsmInstructionV::Arithmetic(a)) =~= arithmetic_token_text(t));
    assert(asm_arithmetic_of(t) == a);
    lemma_arithmetic_text_read_back(t, line);
}


/// A name that reads as one word: not empty, with no blank, line feed or
/// `/`.
pub open spec fn is_word(n: Seq<u8>) -> bool {
    n.len() >= 1 && word_run(n, 0, n.len() as int)
}

/// A keyword of a branch or function command starts no memory or
/// arithmetic command.
proof fn lemma_keyword_word(w: Seq<u8>)
    requires
        w.len() >= 2,
        w[0] == 114u8 || w[0] == 102u8 || w[0] == 99u8 || w[0] == 108u8 || w[0] == 103u8 || w[0] == 105u8,
        w[1] != 116u8,
    ensures
        !has_prefix(w, seq![112u8, 117u8, 115u8, 104u8]),
        !has_prefix(w, seq![112u8, 111u8, 112u8]),
        arithmetic_prefix(w) is None,
{
    lemma_not_prefix(w, seq![112u8, 117u8, 115u8, 104u8], 0);
    lemma_not_prefix(w, seq![112u8, 111u8, 112u8], 0);
    lemma_not_prefix(w, seq![97u8, 100u8, 100u8], 0);
    lemma_not_prefix(w, seq![115u8, 117u8, 98u8], 0);
    lemma_not_prefix(w, seq![110u8, 101u8, 103u8], 0);
    lemma_not_prefix(w, seq![101u8, 113u8], 0);
    if w[0] == 103u8 {
        lemma_not_prefix(w, seq![103u8, 116u8], 1);
    } else {
        lemma_not_prefix(w, seq![103u8, 116u8], 0);
    }
    if w[0] == 108u8 {
        lemma_not_prefix(w, seq![108u8, 116u8], 1);
    } else {
        lemma_not_prefix(w, seq![108u8, 116u8], 0);
    }
    lemma_not_prefix(w, seq![97u8, 110u8, 100u8], 0);
    lemma_not_prefix(w, seq![111u8, 114u8], 0);
    lemma_not_prefix(w, seq![110u8, 111u8, 116u8], 0);
}

/// Which of the six control keywords a word starts, told by its first byte.
proof fn lemma_control_keyword(w: Seq<u8>)
    requires
        w.len() >= 1,
    ensures
        w[0] != 114u8 ==> !has_prefix(w, seq![114u8, 101u8, 116u8, 117u8, 114u8, 110u8]),
        w[0] != 102u8 ==> !has_prefix(w, seq![102u8, 117u8, 110u8, 99u8, 116u8, 105u8, 111u8, 110u8]),
        w[0] != 99u8 ==> !has_prefix(w, seq![99u8, 97u8, 108u8, 108u8]),
        w[0] != 108u8 ==> !has_prefix(w, seq![108u8, 97u8, 98u8, 101u8, 108u8]),
        w[0] != 103u8 ==> !has_prefix(w, seq![103u8, 111u8, 116u8, 111u8]),
{
    if w[0] != 114u8 {
        lemma_not_prefix(w, seq![114u8, 101u8, 116u8, 117u8, 114u8, 110u8], 0);
    }
    if w[0] != 102u8 {
        lemma_not_prefix(w, seq![102u8, 117u8, 110u8, 99u8, 116u8, 105u8, 111u8, 110u8], 0);
    }
    if w[0] != 99u8 {
        lemma_not_prefix(w, seq![99u8, 97u8, 108u8, 108u8], 0);
    }
    if w[0] != 108u8 {
        lemma_not_prefix(w, seq![108u8, 97u8, 98u8, 101u8, 108u8], 0);
    }
    if w[0] != 103u8 {
        lemma_not_prefix(w, seq![103u8, 111u8, 116u8, 111u8], 0);
    }
}

proof fn lemma_return_read_back(line: nat)
    requires
        line + 1 < usize::MAX,
    ensures
        instruction_spec(instruction_text(AsmInstructionV::Return) + seq![10u8], 0, line)
            == Ok::<Option<(AsmInstructionV, int, nat)>, LexError>(Some((
            AsmInstructionV::Return,
            instruction_text(AsmInstructionV::Return).len() as int,
            line + 1,
        ))),
{
    let t = instruction_text(AsmInstructionV::Return);
    let b = t + seq![10u8];
    assert(t.len() == 6);
    assert forall|i: int| 0 <= i < 6 implies b[i] == t[i] by {}
    assert(b[6] == 10u8);
    assert(word_run(b, 0, 6)) by {
        assert forall|i: int| 0 <= i < 6 implies #[trigger] is_word_byte(b[i]) by {
            assert(0 <= i < 6);
        }
    }
    lemma_scan_blanks(b, 0, 0, 0, 6, line);
    assert(b.subrange(0, 6) =~= t);
    lemma_keyword_word(t);
    assert(t.subrange(0, 6) =~= seq![114u8, 101u8, 116u8, 117u8, 114u8, 110u8]);
}


proof fn lemma_branch_read_back(k: AsmBranchInstructionKind, n: Seq<u8>, line: nat)
    requires
        is_word(n),
        line + 1 < usize::MAX,
    ensures
        instruction_spec(instruction_text(AsmInstructionV::Branch(k, n)) + seq![10u8], 0, line)
            == Ok::<Option<(AsmInstructionV, int, nat)>, LexError>(Some((
            AsmInstructionV::Branch(k, n),
            instruction_text(AsmInstructionV::Branch(k, n)).len() as int,
            line + 1,
        ))),
{
    let kt = super::instructions::branch_kind_text(k);
    let t = instruction_text(AsmInstructionV::Branch(k, n));
    let b = t + seq![10u8];
    let k1 = kt.len() as int;
    let s1 = k1 + 1;
    let k2 = s1 + n.len();
    assert(t =~= kt + seq![32u8] + n);
    assert(b.len() == k2 + 1);
    assert forall|i: int| 0 <= i < k1 implies b[i] == kt[i] by {}
    assert forall|i: int| s1 <= i < k2 implies b[i] == n[i - s1] by {}
    assert(b[k1] == 32u8);
    assert(b[k2] == 10u8);
    assert(word_run(b, 0, k1)) by {
        assert forall|i: int| 0 <= i < k1 implies #[trigger] is_word_byte(b[i]) by {
            assert(0 <= i < 7);
        }
    }
    assert(word_run(b, s1, k2)) by {
        assert forall|i: int| s1 <= i < k2 implies #[trigger] is_word_byte(b[i]) by {
            assert(is_word_byte(n[i - s1]));
        }
    }
    lemma_scan_blanks(b, 0, 0, 0, k1, line);
    assert(b.subrange(0, k1) =~= kt);
    lemma_keyword_word(kt);
    lemma_control_keyword(kt);
    lemma_scan_blanks(b, k1, k1, s1, k2, line);
    assert(b.subrange(s1, k2) =~= n);
    assert(branch_operand_spec(b, k, k1, line) == Ok::<(AsmInstructionV, int, nat), LexError>(
        (AsmInstructionV::Branch(k, n), k2, line + 1),
    ));
    match k {
        AsmBranchInstructionKind::Label => {
            assert(kt.subrange(0, 5) =~= seq![108u8, 97u8, 98u8, 101u8, 108u8]);
        },
        AsmBranchInstructionKind::Goto => {
            assert(kt.subrange(0, 4) =~= seq![103u8, 111u8, 116u8, 111u8]);
        },
        AsmBranchInstructionKind::IfGoto => {
            assert(kt.subrange(0, 7) =~= seq![105u8, 102u8, 45u8, 103u8, 111u8, 116u8, 111u8]);
        },
    }
}


/// A count of at most two digits is printed as one or two digits and read
/// back as itself.
proof fn lemma_args_count_text(a: i16)
    requires
        0 <= a <= 99,
    ensures
        args_count_spec(int_text(a as int)) == Some(a),
        1 <= int_text(a as int).len() <= 2,
        forall|i: int| 0 <= i < int_text(a as int).len() ==> 48 <= #[trigger] int_text(a as int)[i] <= 57,
{
    let d = int_text(a as int);
    assert(d == nat_digits(a as nat));
    if a < 10 {
        assert(d =~= seq![(48 + a) as u8]);
    } else {
        assert(nat_digits((a / 10) as nat) == seq![(48 + a / 10) as u8]);
        assert(d =~= seq![(48 + a / 10) as u8, (48 + a % 10) as u8]);
        assert((a / 10) * 10 + a % 10 == a);
    }
}

/// The operands of a function command: its name and its count, each
/// after one blank, the count ended by a line feed.
proof fn lemma_operands_read_back(b: Seq<u8>, is_definition: bool, k1: int, n: Seq<u8>, a: i16, line: nat)
    requires
        is_word(n),
        0 <= a <= 99,
        line + 1 < usize::MAX,
        0 <= k1,
        b.len() == k1 + n.len() + int_text(a as int).len() + 3,
        b[k1] == 32u8,
        forall|i: int| k1 + 1 <= i < k1 + 1 + n.len() ==> b[i] == n[i - k1 - 1],
        b[k1 + 1 + n.len()] == 32u8,
        forall|i: int| k1 + 2 + n.len() <= i < b.len() - 1 ==> b[i] == int_text(a as int)[i - k1 - 2 - n.len()],
        b[b.len() - 1] == 10u8,
    ensures
        function_operands_spec(b, is_definition, k1, line) == Ok::<(AsmInstructionV, int, nat), LexError>((
            if is_definition {
                AsmInstructionV::Definition(n, a)
            } else {
                AsmInstructionV::Call(n, a)
            },
            b.len() - 1,
            line + 1,
        )),
{
    let d = int_text(a as int);
    lemma_args_count_text(a);
    let s1 = k1 + 1;
    let k2 = s1 + n.len();
    let s2 = k2 + 1;
    let k3 = s2 + d.len();
    assert(word_run(b, s1, k2)) by {
        assert forall|i: int| s1 <= i < k2 implies #[trigger] is_word_byte(b[i]) by {
            assert(is_word_byte(n[i - s1]));
        }
    }
    assert(word_run(b, s2, k3)) by {
        assert forall|i: int| s2 <= i < k3 implies #[trigger] is_word_byte(b[i]) by {
            assert(48 <= d[i - s2] <= 57);
        }
    }
    lemma_scan_blanks(b, k1, k1, s1, k2, line);
    assert(b.subrange(s1, k2) =~= n);
    lemma_scan_blanks(b, k2, k2, s2, k3, line);
    assert(b.subrange(s2, k3) =~= d);
}

proof fn lemma_function_read_back(is_definition: bool, n: Seq<u8>, a: i16, line: nat)
    requires
        is_word(n),
        0 <= a <= 99,
        line + 1 < usize::MAX,
    ensures
        ({
            let p = if is_definition {
                AsmInstructionV::Definition(n, a)
            } else {
                AsmInstructionV::Call(n, a)
            };
            instruction_spec(instruction_text(p) + seq![10u8], 0, line)
                == Ok::<Option<(AsmInstructionV, int, nat)>, LexError>(Some((
                p,
                instruction_text(p).len() as int,
                line + 1,
            )))
        }),
{
    let p = if is_definition {
        AsmInstructionV::Definition(n, a)
    } else {
        AsmInstructionV::Call(n, a)
    };
    let kt = if is_definition {
        seq![102u8, 117u8, 110u8, 99u8, 116u8, 105u8, 111u8, 110u8]
    } else {
        seq![99u8, 97u8, 108u8, 108u8]
    };
    let d = int_text(a as int);
    let t = instruction_text(p);
    let b = t + seq![10u8];
    let k1 = kt.len() as int;
    assert(t =~= kt + seq![32u8] + n + seq![32u8] + d);
    assert forall|i: int| 0 <= i < k1 implies b[i] == kt[i] by {}
    assert forall|i: int| k1 + 1 <= i < k1 + 1 + n.len() implies b[i] == n[i - k1 - 1] by {}
    assert forall|i: int| k1 + 2 + n.len() <= i < b.len() - 1 implies b[i] == d[i - k1 - 2 - n.len()] by {}
    lemma_operands_read_back(b, is_definition, k1, n, a, line);
    assert(word_run(b, 0, k1)) by {
        assert forall|i: int| 0 <= i < k1 implies #[trigger] is_word_byte(b[i]) by {
            assert(0 <= i < 8);
        }
    }
    lemma_scan_blanks(b, 0, 0, 0, k1, line);
    assert(b.subrange(0, k1) =~= kt);
    lemma_keyword_word(kt);
    lemma_control_keyword(kt);
    if is_definition {
        assert(kt.subrange(0, 8) =~= seq![102u8, 117u8, 110u8, 99u8, 116u8, 105u8, 111u8, 110u8]);
    } else {
        assert(kt.subrange(0, 4) =~= seq![99u8, 97u8, 108u8, 108u8]);
    }
}

/// The instructions whose text is read back as themselves: names are
/// words, memory values are not negative, argument counts have at most two
/// digits.
pub open spec fn text_reads_back(p: AsmInstructionV) -> bool {
    match p {
        AsmInstructionV::Memory(_, _, v) => v >= 0,
        AsmInstructionV::Branch(_, n) => is_word(n),
        AsmInstructionV::Definition(n, a) => is_word(n) && 0 <= a <= 99,
        AsmInstructionV::Call(n, a) => is_word(n) && 0 <= a <= 99,
        _ => true,
    }
}

/// An instruction printed as VM text, ended by a line feed, is read back by
/// the lexer as that instruction, on the next line.
pub proof fn lemma_instruction_text_read_back(p: AsmInstructionV, line: nat)
    requires
        text_reads_back(p),
        line + 1 < usize::MAX,
    ensures
        instruction_spec(instruction_text(p) + seq![10u8], 0, line)
            == Ok::<Option<(AsmInstructionV, int, nat)>, LexError>(Some((
            p,
            instruction_text(p).len() as int,
            line + 1,
        ))),
{
    match p {
        AsmInstructionV::Memory(s, k, v) => lemma_memory_instruction_read_back(s, k, v, line),
        AsmInstructionV::Arithmetic(a) => lemma_arithmetic_instruction_read_back(a, line),
        AsmInstructionV::Branch(k, n) => lemma_branch_read_back(k, n, line),
        AsmInstructionV::Definition(n, a) => lemma_function_read_back(true, n, a, line),
        AsmInstructionV::Call(n, a) => lemma_function_read_back(false, n, a, line),
        AsmInstructionV::Return => lemma_return_read_back(line),
    }
}

/// A command read from VM text is handed on with its own segment, kind,
/// value and operation: the instruction names the same segment, kind and
/// arithmetic command in VM text as the token.
pub proof fn lemma_asm_names(m: MemoryToken, a: ArithmeticToken)
    ensures
        super::instructions::segment_text(asm_memory_of(m).segment) == vm_segment_text(m.segment),
        super::instructions::memory_kind_text(asm_memory_of(m).kind) == memory_token_kind_text(m.kind),
        asm_memory_of(m).val == m.val,
        super::instructions::arithmetic_text(asm_arithmetic_of(a)) == arithmetic_token_text(a),
{
}

} // verus!

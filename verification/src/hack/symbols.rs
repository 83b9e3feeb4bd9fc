use vstd::prelude::*;

use crate::symbolic::{write_bytes_at, SymbolicElem};

verus! {

/// The predefined symbols of the Hack assembly language.
#[derive(Debug, Clone, Copy, PartialEq, Eq, Structural)]
pub enum AConst {
    SP,
    LCL,
    ARG,
    THIS,
    THAT,
    R0,
    R1,
    R2,
    R3,
    R4,
    R5,
    R6,
    R7,
    R8,
    R9,
    R10,
    R11,
    R12,
    R13,
    R14,
    R15,
    SCREEN,
    KBD,
}

/// The computations of a C-instruction.
#[derive(Debug, Clone, Copy, PartialEq, Eq, Structural)]
pub enum CInstructionExpression {
    Zero,
    One,
    MinusOne,
    D,
    A,
    M,
    NotD,
    NotA,
    NotM,
    MinusD,
    MinusA,
    MinusM,
    IncrementD,
    IncrementA,
    IncrementM,
    DecrementA,
    DecrementM,
    DecrementD,
    DPlusA,
    DPlusM,
    DMinusA,
    DMinusM,
    AMinusD,
    MMinusD,
    DAndA,
    DAndM,
    DOrA,
    DOrM,
}

/// The destinations of a C-instruction, written with their `=`.
#[derive(Debug, Clone, Copy, PartialEq, Eq, Structural)]
pub enum CInstructionDest {
    ADM,
    AD,
    AM,
    A,
    DM,
    D,
    M,
    NODEST,
}

/// The jumps of a C-instruction, written with their `;`.
#[derive(Debug, Clone, Copy, PartialEq, Eq, Structural)]
pub enum CInstructionJump {
    JGT,
    JEQ,
    JGE,
    JLT,
    JNE,
    JLE,
    JMP,
    NOJMP,
}

/// The text of AConst.
pub open spec fn aconst_text(c: AConst) -> Seq<u8> {
    match c {
        AConst::SP => seq![83u8, 80u8],
        AConst::LCL => seq![76u8, 67u8, 76u8],
        AConst::ARG => seq![65u8, 82u8, 71u8],
        AConst::THIS => seq![84u8, 72u8, 73u8, 83u8],
        AConst::THAT => seq![84u8, 72u8, 65u8, 84u8],
        AConst::R0 => seq![82u8, 48u8],
        AConst::R1 => seq![82u8, 49u8],
        AConst::R2 => seq![82u8, 50u8],
        AConst::R3 => seq![82u8, 51u8],
        AConst::R4 => seq![82u8, 52u8],
        AConst::R5 => seq![82u8, 53u8],
        AConst::R6 => seq![82u8, 54u8],
        AConst::R7 => seq![82u8, 55u8],
        AConst::R8 => seq![82u8, 56u8],
        AConst::R9 => seq![82u8, 57u8],
        AConst::R10 => seq![82u8, 49u8, 48u8],
        AConst::R11 => seq![82u8, 49u8, 49u8],
        AConst::R12 => seq![82u8, 49u8, 50u8],
        AConst::R13 => seq![82u8, 49u8, 51u8],
        AConst::R14 => seq![82u8, 49u8, 52u8],
        AConst::R15 => seq![82u8, 49u8, 53u8],
        AConst::SCREEN => seq![83u8, 67u8, 82u8, 69u8, 69u8, 78u8],
        AConst::KBD => seq![75u8, 66u8, 68u8],
    }
}

/// The predefined symbol that starts `b`, longer names tried before the names that begin them.
pub open spec fn spec_read_aconst(b: Seq<u8>) -> Option<AConst> {
    if b.len() >= 6 && b[0] == 83u8 && b[1] == 67u8 && b[2] == 82u8 && b[3] == 69u8 && b[4] == 69u8 && b[5] == 78u8 {
        Some(AConst::SCREEN)
    } else if b.len() >= 4 && b[0] == 84u8 && b[1] == 72u8 && b[2] == 73u8 && b[3] == 83u8 {
        Some(AConst::THIS)
    } else if b.len() >= 4 && b[0] == 84u8 && b[1] == 72u8 && b[2] == 65u8 && b[3] == 84u8 {
        Some(AConst::THAT)
    } else if b.len() >= 3 && b[0] == 76u8 && b[1] == 67u8 && b[2] == 76u8 {
        Some(AConst::LCL)
    } else if b.len() >= 3 && b[0] == 65u8 && b[1] == 82u8 && b[2] == 71u8 {
        Some(AConst::ARG)
    } else if b.len() >= 3 && b[0] == 82u8 && b[1] == 49u8 && b[2] == 48u8 {
        Some(AConst::R10)
    } else if b.len() >= 3 && b[0] == 82u8 && b[1] == 49u8 && b[2] == 49u8 {
        Some(AConst::R11)
    } else if b.len() >= 3 && b[0] == 82u8 && b[1] == 49u8 && b[2] == 50u8 {
        Some(AConst::R12)
    } else if b.len() >= 3 && b[0] == 82u8 && b[1] == 49u8 && b[2] == 51u8 {
        Some(AConst::R13)
    } else if b.len() >= 3 && b[0] == 82u8 && b[1] == 49u8 && b[2] == 52u8 {
        Some(AConst::R14)
    } else if b.len() >= 3 && b[0] == 82u8 && b[1] == 49u8 && b[2] == 53u8 {
        Some(AConst::R15)
    } else if b.len() >= 3 && b[0] == 75u8 && b[1] == 66u8 && b[2] == 68u8 {
        Some(AConst::KBD)
    } else if b.len() >= 2 && b[0] == 83u8 && b[1] == 80u8 {
        Some(AConst::SP)
    } else if b.len() >= 2 && b[0] == 82u8 && b[1] == 48u8 {
        Some(AConst::R0)
    } else if b.len() >= 2 && b[0] == 82u8 && b[1] == 49u8 {
        Some(AConst::R1)
    } else if b.len() >= 2 && b[0] == 82u8 && b[1] == 50u8 {
        Some(AConst::R2)
    } else if b.len() >= 2 && b[0] == 82u8 && b[1] == 51u8 {
        Some(AConst::R3)
    } else if b.len() >= 2 && b[0] == 82u8 && b[1] == 52u8 {
        Some(AConst::R4)
    } else if b.len() >= 2 && b[0] == 82u8 && b[1] == 53u8 {
        Some(AConst::R5)
    } else if b.len() >= 2 && b[0] == 82u8 && b[1] == 54u8 {
        Some(AConst::R6)
    } else if b.len() >= 2 && b[0] == 82u8 && b[1] == 55u8 {
        Some(AConst::R7)
    } else if b.len() >= 2 && b[0] == 82u8 && b[1] == 56u8 {
        Some(AConst::R8)
    } else if b.len() >= 2 && b[0] == 82u8 && b[1] == 57u8 {
        Some(AConst::R9)
    } else {
        None
    }
}

impl AConst {
    /// The text.
    pub fn text(&self) -> (r: &'static [u8])
        ensures
            r@ == aconst_text(*self),
    {
        let r: &'static [u8] = match self {
            AConst::SP => &[83u8, 80u8],
            AConst::LCL => &[76u8, 67u8, 76u8],
            AConst::ARG => &[65u8, 82u8, 71u8],
            AConst::THIS => &[84u8, 72u8, 73u8, 83u8],
            AConst::THAT => &[84u8, 72u8, 65u8, 84u8],
            AConst::R0 => &[82u8, 48u8],
            AConst::R1 => &[82u8, 49u8],
            AConst::R2 => &[82u8, 50u8],
            AConst::R3 => &[82u8, 51u8],
            AConst::R4 => &[82u8, 52u8],
            AConst::R5 => &[82u8, 53u8],
            AConst::R6 => &[82u8, 54u8],
            AConst::R7 => &[82u8, 55u8],
            AConst::R8 => &[82u8, 56u8],
            AConst::R9 => &[82u8, 57u8],
            AConst::R10 => &[82u8, 49u8, 48u8],
            AConst::R11 => &[82u8, 49u8, 49u8],
            AConst::R12 => &[82u8, 49u8, 50u8],
            AConst::R13 => &[82u8, 49u8, 51u8],
            AConst::R14 => &[82u8, 49u8, 52u8],
            AConst::R15 => &[82u8, 49u8, 53u8],
            AConst::SCREEN => &[83u8, 67u8, 82u8, 69u8, 69u8, 78u8],
            AConst::KBD => &[75u8, 66u8, 68u8],
        };
        proof {
            match self {
                AConst::SP => assert(r@ =~= aconst_text(*self)),
                AConst::LCL => assert(r@ =~= aconst_text(*self)),
                AConst::ARG => assert(r@ =~= aconst_text(*self)),
                AConst::THIS => assert(r@ =~= aconst_text(*self)),
                AConst::THAT => assert(r@ =~= aconst_text(*self)),
                AConst::R0 => assert(r@ =~= aconst_text(*self)),
                AConst::R1 => assert(r@ =~= aconst_text(*self)),
                AConst::R2 => assert(r@ =~= aconst_text(*self)),
                AConst::R3 => assert(r@ =~= aconst_text(*self)),
                AConst::R4 => assert(r@ =~= aconst_text(*self)),
                AConst::R5 => assert(r@ =~= aconst_text(*self)),
                AConst::R6 => assert(r@ =~= aconst_text(*self)),
                AConst::R7 => assert(r@ =~= aconst_text(*self)),
                AConst::R8 => assert(r@ =~= aconst_text(*self)),
                AConst::R9 => assert(r@ =~= aconst_text(*self)),
                AConst::R10 => assert(r@ =~= aconst_text(*self)),
                AConst::R11 => assert(r@ =~= aconst_text(*self)),
                AConst::R12 => assert(r@ =~= aconst_text(*self)),
                AConst::R13 => assert(r@ =~= aconst_text(*self)),
                AConst::R14 => assert(r@ =~= aconst_text(*self)),
                AConst::R15 => assert(r@ =~= aconst_text(*self)),
                AConst::SCREEN => assert(r@ =~= aconst_text(*self)),
                AConst::KBD => assert(r@ =~= aconst_text(*self)),
            }
        }
        r
    }

    /// Reads what starts `buff`, and its length.
    pub fn read_symbols(buff: &[u8]) -> (r: Option<(Self, usize)>)
        ensures
            match r {
                Some((c, n)) => spec_read_aconst(buff@) == Some(c) && n == aconst_text(c).len(),
                None => spec_read_aconst(buff@) is None,
            },
    {
        let n = buff.len();
        if n >= 6 && buff[0] == 83u8 && buff[1] == 67u8 && buff[2] == 82u8 && buff[3] == 69u8 && buff[4] == 69u8 && buff[5] == 78u8 {
            return Some((AConst::SCREEN, 6));
        }
        if n >= 4 && buff[0] == 84u8 && buff[1] == 72u8 && buff[2] == 73u8 && buff[3] == 83u8 {
            return Some((AConst::THIS, 4));
        }
        if n >= 4 && buff[0] == 84u8 && buff[1] == 72u8 && buff[2] == 65u8 && buff[3] == 84u8 {
            return Some((AConst::THAT, 4));
        }
        if n >= 3 && buff[0] == 76u8 && buff[1] == 67u8 && buff[2] == 76u8 {
            return Some((AConst::LCL, 3));
        }
        if n >= 3 && buff[0] == 65u8 && buff[1] == 82u8 && buff[2] == 71u8 {
            return Some((AConst::ARG, 3));
        }
        if n >= 3 && buff[0] == 82u8 && buff[1] == 49u8 && buff[2] == 48u8 {
            return Some((AConst::R10, 3));
        }
        if n >= 3 && buff[0] == 82u8 && buff[1] == 49u8 && buff[2] == 49u8 {
            return Some((AConst::R11, 3));
        }
        if n >= 3 && buff[0] == 82u8 && buff[1] == 49u8 && buff[2] == 50u8 {
            return Some((AConst::R12, 3));
        }
        if n >= 3 && buff[0] == 82u8 && buff[1] == 49u8 && buff[2] == 51u8 {
            return Some((AConst::R13, 3));
        }
        if n >= 3 && buff[0] == 82u8 && buff[1] == 49u8 && buff[2] == 52u8 {
            return Some((AConst::R14, 3));
        }
        if n >= 3 && buff[0] == 82u8 && buff[1] == 49u8 && buff[2] == 53u8 {
            return Some((AConst::R15, 3));
        }
        if n >= 3 && buff[0] == 75u8 && buff[1] == 66u8 && buff[2] == 68u8 {
            return Some((AConst::KBD, 3));
        }
        if n >= 2 && buff[0] == 83u8 && buff[1] == 80u8 {
            return Some((AConst::SP, 2));
        }
        if n >= 2 && buff[0] == 82u8 && buff[1] == 48u8 {
            return Some((AConst::R0, 2));
        }
        if n >= 2 && buff[0] == 82u8 && buff[1] == 49u8 {
            return Some((AConst::R1, 2));
        }
        if n >= 2 && buff[0] == 82u8 && buff[1] == 50u8 {
            return Some((AConst::R2, 2));
        }
        if n >= 2 && buff[0] == 82u8 && buff[1] == 51u8 {
            return Some((AConst::R3, 2));
        }
        if n >= 2 && buff[0] == 82u8 && buff[1] == 52u8 {
            return Some((AConst::R4, 2));
        }
        if n >= 2 && buff[0] == 82u8 && buff[1] == 53u8 {
            return Some((AConst::R5, 2));
        }
        if n >= 2 && buff[0] == 82u8 && buff[1] == 54u8 {
            return Some((AConst::R6, 2));
        }
        if n >= 2 && buff[0] == 82u8 && buff[1] == 55u8 {
            return Some((AConst::R7, 2));
        }
        if n >= 2 && buff[0] == 82u8 && buff[1] == 56u8 {
            return Some((AConst::R8, 2));
        }
        if n >= 2 && buff[0] == 82u8 && buff[1] == 57u8 {
            return Some((AConst::R9, 2));
        }
        None
    }
}

impl SymbolicElem for AConst {
    open spec fn spec_symbols(&self) -> Seq<u8> {
        aconst_text(*self)
    }

    fn write_symbols(&self, buff: &mut [u8]) -> (r: usize) {
        let t = self.text();
        write_bytes_at(buff, 0, t);
        t.len()
    }
}

/// The text of CInstructionExpression.
pub open spec fn expression_text(c: CInstructionExpression) -> Seq<u8> {
    match c {
        CInstructionExpression::Zero => seq![48u8],
        CInstructionExpression::One => seq![49u8],
        CInstructionExpression::MinusOne => seq![45u8, 49u8],
        CInstructionExpression::D => seq![68u8],
        CInstructionExpression::A => seq![65u8],
        CInstructionExpression::M => seq![77u8],
        CInstructionExpression::NotD => seq![33u8, 68u8],
        CInstructionExpression::NotA => seq![33u8, 65u8],
        CInstructionExpression::NotM => seq![33u8, 77u8],
        CInstructionExpression::MinusD => seq![45u8, 68u8],
        CInstructionExpression::MinusA => seq![45u8, 65u8],
        CInstructionExpression::MinusM => seq![45u8, 77u8],
        CInstructionExpression::IncrementD => seq![68u8, 43u8, 49u8],
        CInstructionExpression::IncrementA => seq![65u8, 43u8, 49u8],
        CInstructionExpression::IncrementM => seq![77u8, 43u8, 49u8],
        CInstructionExpression::DecrementA => seq![65u8, 45u8, 49u8],
        CInstructionExpression::DecrementM => seq![77u8, 45u8, 49u8],
        CInstructionExpression::DecrementD => seq![68u8, 45u8, 49u8],
        CInstructionExpression::DPlusA => seq![68u8, 43u8, 65u8],
        CInstructionExpression::DPlusM => seq![68u8, 43u8, 77u8],
        CInstructionExpression::DMinusA => seq![68u8, 45u8, 65u8],
        CInstructionExpression::DMinusM => seq![68u8, 45u8, 77u8],
        CInstructionExpression::AMinusD => seq![65u8, 45u8, 68u8],
        CInstructionExpression::MMinusD => seq![77u8, 45u8, 68u8],
        CInstructionExpression::DAndA => seq![68u8, 38u8, 65u8],
        CInstructionExpression::DAndM => seq![68u8, 38u8, 77u8],
        CInstructionExpression::DOrA => seq![68u8, 124u8, 65u8],
        CInstructionExpression::DOrM => seq![68u8, 124u8, 77u8],
    }
}

/// The computation that starts `b`, longer texts tried before the texts that begin them.
pub open spec fn spec_read_expression(b: Seq<u8>) -> Option<CInstructionExpression> {
    if b.len() >= 3 && b[0] == 68u8 && b[1] == 43u8 && b[2] == 49u8 {
        Some(CInstructionExpression::IncrementD)
    } else if b.len() >= 3 && b[0] == 65u8 && b[1] == 43u8 && b[2] == 49u8 {
        Some(CInstructionExpression::IncrementA)
    } else if b.len() >= 3 && b[0] == 77u8 && b[1] == 43u8 && b[2] == 49u8 {
        Some(CInstructionExpression::IncrementM)
    } else if b.len() >= 3 && b[0] == 65u8 && b[1] == 45u8 && b[2] == 49u8 {
        Some(CInstructionExpression::DecrementA)
    } else if b.len() >= 3 && b[0] == 77u8 && b[1] == 45u8 && b[2] == 49u8 {
        Some(CInstructionExpression::DecrementM)
    } else if b.len() >= 3 && b[0] == 68u8 && b[1] == 45u8 && b[2] == 49u8 {
        Some(CInstructionExpression::DecrementD)
    } else if b.len() >= 3 && b[0] == 68u8 && b[1] == 43u8 && b[2] == 65u8 {
        Some(CInstructionExpression::DPlusA)
    } else if b.len() >= 3 && b[0] == 68u8 && b[1] == 43u8 && b[2] == 77u8 {
        Some(CInstructionExpression::DPlusM)
    } else if b.len() >= 3 && b[0] == 68u8 && b[1] == 45u8 && b[2] == 65u8 {
        Some(CInstructionExpression::DMinusA)
    } else if b.len() >= 3 && b[0] == 68u8 && b[1] == 45u8 && b[2] == 77u8 {
        Some(CInstructionExpression::DMinusM)
    } else if b.len() >= 3 && b[0] == 65u8 && b[1] == 45u8 && b[2] == 68u8 {
        Some(CInstructionExpression::AMinusD)
    } else if b.len() >= 3 && b[0] == 77u8 && b[1] == 45u8 && b[2] == 68u8 {
        Some(CInstructionExpression::MMinusD)
    } else if b.len() >= 3 && b[0] == 68u8 && b[1] == 38u8 && b[2] == 65u8 {
        Some(CInstructionExpression::DAndA)
    } else if b.len() >= 3 && b[0] == 68u8 && b[1] == 38u8 && b[2] == 77u8 {
        Some(CInstructionExpression::DAndM)
    } else if b.len() >= 3 && b[0] == 68u8 && b[1] == 124u8 && b[2] == 65u8 {
        Some(CInstructionExpression::DOrA)
    } else if b.len() >= 3 && b[0] == 68u8 && b[1] == 124u8 && b[2] == 77u8 {
        Some(CInstructionExpression::DOrM)
    } else if b.len() >= 2 && b[0] == 45u8 && b[1] == 49u8 {
        Some(CInstructionExpression::MinusOne)
    } else if b.len() >= 2 && b[0] == 33u8 && b[1] == 68u8 {
        Some(CInstructionExpression::NotD)
    } else if b.len() >= 2 && b[0] == 33u8 && b[1] == 65u8 {
        Some(CInstructionExpression::NotA)
    } else if b.len() >= 2 && b[0] == 33u8 && b[1] == 77u8 {
        Some(CInstructionExpression::NotM)
    } else if b.len() >= 2 && b[0] == 45u8 && b[1] == 68u8 {
        Some(CInstructionExpression::MinusD)
    } else if b.len() >= 2 && b[0] == 45u8 && b[1] == 65u8 {
        Some(CInstructionExpression::MinusA)
    } else if b.len() >= 2 && b[0] == 45u8 && b[1] == 77u8 {
        Some(CInstructionExpression::MinusM)
    } else if b.len() >= 1 && b[0] == 48u8 {
        Some(CInstructionExpression::Zero)
    } else if b.len() >= 1 && b[0] == 49u8 {
        Some(CInstructionExpression::One)
    } else if b.len() >= 1 && b[0] == 68u8 {
        Some(CInstructionExpression::D)
    } else if b.len() >= 1 && b[0] == 65u8 {
        Some(CInstructionExpression::A)
    } else if b.len() >= 1 && b[0] == 77u8 {
        Some(CInstructionExpression::M)
    } else {
        None
    }
}

impl CInstructionExpression {
    /// The text.
    pub fn text(&self) -> (r: &'static [u8])
        ensures
            r@ == expression_text(*self),
    {
        let r: &'static [u8] = match self {
            CInstructionExpression::Zero => &[48u8],
            CInstructionExpression::One => &[49u8],
            CInstructionExpression::MinusOne => &[45u8, 49u8],
            CInstructionExpression::D => &[68u8],
            CInstructionExpression::A => &[65u8],
            CInstructionExpression::M => &[77u8],
            CInstructionExpression::NotD => &[33u8, 68u8],
            CInstructionExpression::NotA => &[33u8, 65u8],
            CInstructionExpression::NotM => &[33u8, 77u8],
            CInstructionExpression::MinusD => &[45u8, 68u8],
            CInstructionExpression::MinusA => &[45u8, 65u8],
            CInstructionExpression::MinusM => &[45u8, 77u8],
            CInstructionExpression::IncrementD => &[68u8, 43u8, 49u8],
            CInstructionExpression::IncrementA => &[65u8, 43u8, 49u8],
            CInstructionExpression::IncrementM => &[77u8, 43u8, 49u8],
            CInstructionExpression::DecrementA => &[65u8, 45u8, 49u8],
            CInstructionExpression::DecrementM => &[77u8, 45u8, 49u8],
            CInstructionExpression::DecrementD => &[68u8, 45u8, 49u8],
            CInstructionExpression::DPlusA => &[68u8, 43u8, 65u8],
            CInstructionExpression::DPlusM => &[68u8, 43u8, 77u8],
            CInstructionExpression::DMinusA => &[68u8, 45u8, 65u8],
            CInstructionExpression::DMinusM => &[68u8, 45u8, 77u8],
            CInstructionExpression::AMinusD => &[65u8, 45u8, 68u8],
            CInstructionExpression::MMinusD => &[77u8, 45u8, 68u8],
            CInstructionExpression::DAndA => &[68u8, 38u8, 65u8],
            CInstructionExpression::DAndM => &[68u8, 38u8, 77u8],
            CInstructionExpression::DOrA => &[68u8, 124u8, 65u8],
            CInstructionExpression::DOrM => &[68u8, 124u8, 77u8],
        };
        proof {
            match self {
                CInstructionExpression::Zero => assert(r@ =~= expression_text(*self)),
                CInstructionExpression::One => assert(r@ =~= expression_text(*self)),
                CInstructionExpression::MinusOne => assert(r@ =~= expression_text(*self)),
                CInstructionExpression::D => assert(r@ =~= expression_text(*self)),
                CInstructionExpression::A => assert(r@ =~= expression_text(*self)),
                CInstructionExpression::M => assert(r@ =~= expression_text(*self)),
                CInstructionExpression::NotD => assert(r@ =~= expression_text(*self)),
                CInstructionExpression::NotA => assert(r@ =~= expression_text(*self)),
                CInstructionExpression::NotM => assert(r@ =~= expression_text(*self)),
                CInstructionExpression::MinusD => assert(r@ =~= expression_text(*self)),
                CInstructionExpression::MinusA => assert(r@ =~= expression_text(*self)),
                CInstructionExpression::MinusM => assert(r@ =~= expression_text(*self)),
                CInstructionExpression::IncrementD => assert(r@ =~= expression_text(*self)),
                CInstructionExpression::IncrementA => assert(r@ =~= expression_text(*self)),
                CInstructionExpression::IncrementM => assert(r@ =~= expression_text(*self)),
                CInstructionExpression::DecrementA => assert(r@ =~= expression_text(*self)),
                CInstructionExpression::DecrementM => assert(r@ =~= expression_text(*self)),
                CInstructionExpression::DecrementD => assert(r@ =~= expression_text(*self)),
                CInstructionExpression::DPlusA => assert(r@ =~= expression_text(*self)),
                CInstructionExpression::DPlusM => assert(r@ =~= expression_text(*self)),
                CInstructionExpression::DMinusA => assert(r@ =~= expression_text(*self)),
                CInstructionExpression::DMinusM => assert(r@ =~= expression_text(*self)),
                CInstructionExpression::AMinusD => assert(r@ =~= expression_text(*self)),
                CInstructionExpression::MMinusD => assert(r@ =~= expression_text(*self)),
                CInstructionExpression::DAndA => assert(r@ =~= expression_text(*self)),
                CInstructionExpression::DAndM => assert(r@ =~= expression_text(*self)),
                CInstructionExpression::DOrA => assert(r@ =~= expression_text(*self)),
                CInstructionExpression::DOrM => assert(r@ =~= expression_text(*self)),
            }
        }
        r
    }

    /// Reads what starts `buff`, and its length.
    pub fn read_symbols(buff: &[u8]) -> (r: Option<(Self, usize)>)
        ensures
            match r {
                Some((c, n)) => spec_read_expression(buff@) == Some(c) && n == expression_text(c).len(),
                None => spec_read_expression(buff@) is None,
            },
    {
        let n = buff.len();
        if n >= 3 && buff[0] == 68u8 && buff[1] == 43u8 && buff[2] == 49u8 {
            return Some((CInstructionExpression::IncrementD, 3));
        }
        if n >= 3 && buff[0] == 65u8 && buff[1] == 43u8 && buff[2] == 49u8 {
            return Some((CInstructionExpression::IncrementA, 3));
        }
        if n >= 3 && buff[0] == 77u8 && buff[1] == 43u8 && buff[2] == 49u8 {
            return Some((CInstructionExpression::IncrementM, 3));
        }
        if n >= 3 && buff[0] == 65u8 && buff[1] == 45u8 && buff[2] == 49u8 {
            return Some((CInstructionExpression::DecrementA, 3));
        }
        if n >= 3 && buff[0] == 77u8 && buff[1] == 45u8 && buff[2] == 49u8 {
            return Some((CInstructionExpression::DecrementM, 3));
        }
        if n >= 3 && buff[0] == 68u8 && buff[1] == 45u8 && buff[2] == 49u8 {
            return Some((CInstructionExpression::DecrementD, 3));
        }
        if n >= 3 && buff[0] == 68u8 && buff[1] == 43u8 && buff[2] == 65u8 {
            return Some((CInstructionExpression::DPlusA, 3));
        }
        if n >= 3 && buff[0] == 68u8 && buff[1] == 43u8 && buff[2] == 77u8 {
            return Some((CInstructionExpression::DPlusM, 3));
        }
        if n >= 3 && buff[0] == 68u8 && buff[1] == 45u8 && buff[2] == 65u8 {
            return Some((CInstructionExpression::DMinusA, 3));
        }
        if n >= 3 && buff[0] == 68u8 && buff[1] == 45u8 && buff[2] == 77u8 {
            return Some((CInstructionExpression::DMinusM, 3));
        }
        if n >= 3 && buff[0] == 65u8 && buff[1] == 45u8 && buff[2] == 68u8 {
            return Some((CInstructionExpression::AMinusD, 3));
        }
        if n >= 3 && buff[0] == 77u8 && buff[1] == 45u8 && buff[2] == 68u8 {
            return Some((CInstructionExpression::MMinusD, 3));
        }
        if n >= 3 && buff[0] == 68u8 && buff[1] == 38u8 && buff[2] == 65u8 {
            return Some((CInstructionExpression::DAndA, 3));
        }
        if n >= 3 && buff[0] == 68u8 && buff[1] == 38u8 && buff[2] == 77u8 {
            return Some((CInstructionExpression::DAndM, 3));
        }
        if n >= 3 && buff[0] == 68u8 && buff[1] == 124u8 && buff[2] == 65u8 {
            return Some((CInstructionExpression::DOrA, 3));
        }
        if n >= 3 && buff[0] == 68u8 && buff[1] == 124u8 && buff[2] == 77u8 {
            return Some((CInstructionExpression::DOrM, 3));
        }
        if n >= 2 && buff[0] == 45u8 && buff[1] == 49u8 {
            return Some((CInstructionExpression::MinusOne, 2));
        }
        if n >= 2 && buff[0] == 33u8 && buff[1] == 68u8 {
            return Some((CInstructionExpression::NotD, 2));
        }
        if n >= 2 && buff[0] == 33u8 && buff[1] == 65u8 {
            return Some((CInstructionExpression::NotA, 2));
        }
        if n >= 2 && buff[0] == 33u8 && buff[1] == 77u8 {
            return Some((CInstructionExpression::NotM, 2));
        }
        if n >= 2 && buff[0] == 45u8 && buff[1] == 68u8 {
            return Some((CInstructionExpression::MinusD, 2));
        }
        if n >= 2 && buff[0] == 45u8 && buff[1] == 65u8 {
            return Some((CInstructionExpression::MinusA, 2));
        }
        if n >= 2 && buff[0] == 45u8 && buff[1] == 77u8 {
            return Some((CInstructionExpression::MinusM, 2));
        }
        if n >= 1 && buff[0] == 48u8 {
            return Some((CInstructionExpression::Zero, 1));
        }
        if n >= 1 && buff[0] == 49u8 {
            return Some((CInstructionExpression::One, 1));
        }
        if n >= 1 && buff[0] == 68u8 {
            return Some((CInstructionExpression::D, 1));
        }
        if n >= 1 && buff[0] == 65u8 {
            return Some((CInstructionExpression::A, 1));
        }
        if n >= 1 && buff[0] == 77u8 {
            return Some((CInstructionExpression::M, 1));
        }
        None
    }
}

impl SymbolicElem for CInstructionExpression {
    open spec fn spec_symbols(&self) -> Seq<u8> {
        expression_text(*self)
    }

    fn write_symbols(&self, buff: &mut [u8]) -> (r: usize) {
        let t = self.text();
        write_bytes_at(buff, 0, t);
        t.len()
    }
}

/// The text of CInstructionDest.
pub open spec fn dest_text(c: CInstructionDest) -> Seq<u8> {
    match c {
        CInstructionDest::ADM => seq![65u8, 68u8, 77u8, 61u8],
        CInstructionDest::AD => seq![65u8, 68u8, 61u8],
        CInstructionDest::AM => seq![65u8, 77u8, 61u8],
        CInstructionDest::A => seq![65u8, 61u8],
        CInstructionDest::DM => seq![68u8, 77u8, 61u8],
        CInstructionDest::D => seq![68u8, 61u8],
        CInstructionDest::M => seq![77u8, 61u8],
        CInstructionDest::NODEST => Seq::<u8>::empty(),
    }
}

/// The destination that starts `b`; none when no destination does.
pub open spec fn spec_read_dest(b: Seq<u8>) -> Option<CInstructionDest> {
    if b.len() >= 4 && b[0] == 65u8 && b[1] == 68u8 && b[2] == 77u8 && b[3] == 61u8 {
        Some(CInstructionDest::ADM)
    } else if b.len() >= 3 && b[0] == 65u8 && b[1] == 68u8 && b[2] == 61u8 {
        Some(CInstructionDest::AD)
    } else if b.len() >= 3 && b[0] == 65u8 && b[1] == 77u8 && b[2] == 61u8 {
        Some(CInstructionDest::AM)
    } else if b.len() >= 3 && b[0] == 68u8 && b[1] == 77u8 && b[2] == 61u8 {
        Some(CInstructionDest::DM)
    } else if b.len() >= 2 && b[0] == 65u8 && b[1] == 61u8 {
        Some(CInstructionDest::A)
    } else if b.len() >= 2 && b[0] == 68u8 && b[1] == 61u8 {
        Some(CInstructionDest::D)
    } else if b.len() >= 2 && b[0] == 77u8 && b[1] == 61u8 {
        Some(CInstructionDest::M)
    } else {
        Some(CInstructionDest::NODEST)
    }
}

impl CInstructionDest {
    /// The text.
    pub fn text(&self) -> (r: &'static [u8])
        ensures
            r@ == dest_text(*self),
    {
        let r: &'static [u8] = match self {
            CInstructionDest::ADM => &[65u8, 68u8, 77u8, 61u8],
            CInstructionDest::AD => &[65u8, 68u8, 61u8],
            CInstructionDest::AM => &[65u8, 77u8, 61u8],
            CInstructionDest::A => &[65u8, 61u8],
            CInstructionDest::DM => &[68u8, 77u8, 61u8],
            CInstructionDest::D => &[68u8, 61u8],
            CInstructionDest::M => &[77u8, 61u8],
            CInstructionDest::NODEST => &[],
        };
        proof {
            match self {
                CInstructionDest::ADM => assert(r@ =~= dest_text(*self)),
                CInstructionDest::AD => assert(r@ =~= dest_text(*self)),
                CInstructionDest::AM => assert(r@ =~= dest_text(*self)),
                CInstructionDest::A => assert(r@ =~= dest_text(*self)),
                CInstructionDest::DM => assert(r@ =~= dest_text(*self)),
                CInstructionDest::D => assert(r@ =~= dest_text(*self)),
                CInstructionDest::M => assert(r@ =~= dest_text(*self)),
                CInstructionDest::NODEST => assert(r@ =~= dest_text(*self)),
            }
        }
        r
    }

    /// Reads what starts `buff`, and its length.
    pub fn read_symbols(buff: &[u8]) -> (r: Option<(Self, usize)>)
        ensures
            match r {
                Some((c, n)) => spec_read_dest(buff@) == Some(c) && n == dest_text(c).len(),
                None => spec_read_dest(buff@) is None,
            },
    {
        let n = buff.len();
        if n >= 4 && buff[0] == 65u8 && buff[1] == 68u8 && buff[2] == 77u8 && buff[3] == 61u8 {
            return Some((CInstructionDest::ADM, 4));
        }
        if n >= 3 && buff[0] == 65u8 && buff[1] == 68u8 && buff[2] == 61u8 {
            return Some((CInstructionDest::AD, 3));
        }
        if n >= 3 && buff[0] == 65u8 && buff[1] == 77u8 && buff[2] == 61u8 {
            return Some((CInstructionDest::AM, 3));
        }
        if n >= 3 && buff[0] == 68u8 && buff[1] == 77u8 && buff[2] == 61u8 {
            return Some((CInstructionDest::DM, 3));
        }
        if n >= 2 && buff[0] == 65u8 && buff[1] == 61u8 {
            return Some((CInstructionDest::A, 2));
        }
        if n >= 2 && buff[0] == 68u8 && buff[1] == 61u8 {
            return Some((CInstructionDest::D, 2));
        }
        if n >= 2 && buff[0] == 77u8 && buff[1] == 61u8 {
            return Some((CInstructionDest::M, 2));
        }
        Some((CInstructionDest::NODEST, 0))
    }
}

impl SymbolicElem for CInstructionDest {
    open spec fn spec_symbols(&self) -> Seq<u8> {
        dest_text(*self)
    }

    fn write_symbols(&self, buff: &mut [u8]) -> (r: usize) {
        let t = self.text();
        write_bytes_at(buff, 0, t);
        t.len()
    }
}

/// The text of CInstructionJump.
pub open spec fn jump_text(c: CInstructionJump) -> Seq<u8> {
    match c {
        CInstructionJump::JGT => seq![59u8, 74u8, 71u8, 84u8],
        CInstructionJump::JEQ => seq![59u8, 74u8, 69u8, 81u8],
        CInstructionJump::JGE => seq![59u8, 74u8, 71u8, 69u8],
        CInstructionJump::JLT => seq![59u8, 74u8, 76u8, 84u8],
        CInstructionJump::JNE => seq![59u8, 74u8, 78u8, 69u8],
        CInstructionJump::JLE => seq![59u8, 74u8, 76u8, 69u8],
        CInstructionJump::JMP => seq![59u8, 74u8, 77u8, 80u8],
        CInstructionJump::NOJMP => Seq::<u8>::empty(),
    }
}

/// The jump that starts `b`; none when no jump does.
pub open spec fn spec_read_jump(b: Seq<u8>) -> Option<CInstructionJump> {
    if b.len() >= 4 && b[0] == 59u8 && b[1] == 74u8 && b[2] == 71u8 && b[3] == 84u8 {
        Some(CInstructionJump::JGT)
    } else if b.len() >= 4 && b[0] == 59u8 && b[1] == 74u8 && b[2] == 69u8 && b[3] == 81u8 {
        Some(CInstructionJump::JEQ)
    } else if b.len() >= 4 && b[0] == 59u8 && b[1] == 74u8 && b[2] == 71u8 && b[3] == 69u8 {
        Some(CInstructionJump::JGE)
    } else if b.len() >= 4 && b[0] == 59u8 && b[1] == 74u8 && b[2] == 76u8 && b[3] == 84u8 {
        Some(CInstructionJump::JLT)
    } else if b.len() >= 4 && b[0] == 59u8 && b[1] == 74u8 && b[2] == 78u8 && b[3] == 69u8 {
        Some(CInstructionJump::JNE)
    } else if b.len() >= 4 && b[0] == 59u8 && b[1] == 74u8 && b[2] == 76u8 && b[3] == 69u8 {
        Some(CInstructionJump::JLE)
    } else if b.len() >= 4 && b[0] == 59u8 && b[1] == 74u8 && b[2] == 77u8 && b[3] == 80u8 {
        Some(CInstructionJump::JMP)
    } else {
        Some(CInstructionJump::NOJMP)
    }
}

impl CInstructionJump {
    /// The text.
    pub fn text(&self) -> (r: &'static [u8])
        ensures
            r@ == jump_text(*self),
    {
        let r: &'static [u8] = match self {
            CInstructionJump::JGT => &[59u8, 74u8, 71u8, 84u8],
            CInstructionJump::JEQ => &[59u8, 74u8, 69u8, 81u8],
            CInstructionJump::JGE => &[59u8, 74u8, 71u8, 69u8],
            CInstructionJump::JLT => &[59u8, 74u8, 76u8, 84u8],
            CInstructionJump::JNE => &[59u8, 74u8, 78u8, 69u8],
            CInstructionJump::JLE => &[59u8, 74u8, 76u8, 69u8],
            CInstructionJump::JMP => &[59u8, 74u8, 77u8, 80u8],
            CInstructionJump::NOJMP => &[],
        };
        proof {
            match self {
                CInstructionJump::JGT => assert(r@ =~= jump_text(*self)),
                CInstructionJump::JEQ => assert(r@ =~= jump_text(*self)),
                CInstructionJump::JGE => assert(r@ =~= jump_text(*self)),
                CInstructionJump::JLT => assert(r@ =~= jump_text(*self)),
                CInstructionJump::JNE => assert(r@ =~= jump_text(*self)),
                CInstructionJump::JLE => assert(r@ =~= jump_text(*self)),
                CInstructionJump::JMP => assert(r@ =~= jump_text(*self)),
                CInstructionJump::NOJMP => assert(r@ =~= jump_text(*self)),
            }
        }
        r
    }

    /// Reads what starts `buff`, and its length.
    pub fn read_symbols(buff: &[u8]) -> (r: Option<(Self, usize)>)
        ensures
            match r {
                Some((c, n)) => spec_read_jump(buff@) == Some(c) && n == jump_text(c).len(),
                None => spec_read_jump(buff@) is None,
            },
    {
        let n = buff.len();
        if n >= 4 && buff[0] == 59u8 && buff[1] == 74u8 && buff[2] == 71u8 && buff[3] == 84u8 {
            return Some((CInstructionJump::JGT, 4));
        }
        if n >= 4 && buff[0] == 59u8 && buff[1] == 74u8 && buff[2] == 69u8 && buff[3] == 81u8 {
            return Some((CInstructionJump::JEQ, 4));
        }
        if n >= 4 && buff[0] == 59u8 && buff[1] == 74u8 && buff[2] == 71u8 && buff[3] == 69u8 {
            return Some((CInstructionJump::JGE, 4));
        }
        if n >= 4 && buff[0] == 59u8 && buff[1] == 74u8 && buff[2] == 76u8 && buff[3] == 84u8 {
            return Some((CInstructionJump::JLT, 4));
        }
        if n >= 4 && buff[0] == 59u8 && buff[1] == 74u8 && buff[2] == 78u8 && buff[3] == 69u8 {
            return Some((CInstructionJump::JNE, 4));
        }
        if n >= 4 && buff[0] == 59u8 && buff[1] == 74u8 && buff[2] == 76u8 && buff[3] == 69u8 {
            return Some((CInstructionJump::JLE, 4));
        }
        if n >= 4 && buff[0] == 59u8 && buff[1] == 74u8 && buff[2] == 77u8 && buff[3] == 80u8 {
            return Some((CInstructionJump::JMP, 4));
        }
        Some((CInstructionJump::NOJMP, 0))
    }
}

impl SymbolicElem for CInstructionJump {
    open spec fn spec_symbols(&self) -> Seq<u8> {
        jump_text(*self)
    }

    fn write_symbols(&self, buff: &mut [u8]) -> (r: usize) {
        let t = self.text();
        write_bytes_at(buff, 0, t);
        t.len()
    }
}

/// Every predefined symbol is read back from its name.
pub proof fn lemma_aconst_read_text(c: AConst)
    ensures
        spec_read_aconst(aconst_text(c)) == Some(c),
{
}

/// Every computation is read back from its text.
pub proof fn lemma_expression_read_text(c: CInstructionExpression)
    ensures
        spec_read_expression(expression_text(c)) == Some(c),
{
}

/// Every destination is read back from its text, whatever follows it.
pub proof fn lemma_dest_read_text(c: CInstructionDest, rest: Seq<u8>)
    requires
        c != CInstructionDest::NODEST,
    ensures
        spec_read_dest(dest_text(c) + rest) == Some(c),
{
    let b = dest_text(c) + rest;
    assert(forall|i: int| 0 <= i < dest_text(c).len() ==> b[i] == dest_text(c)[i]);
}

/// Every jump is read back from its text, whatever follows it.
pub proof fn lemma_jump_read_text(c: CInstructionJump, rest: Seq<u8>)
    requires
        c != CInstructionJump::NOJMP,
    ensures
        spec_read_jump(jump_text(c) + rest) == Some(c),
{
    let b = jump_text(c) + rest;
    assert(forall|i: int| 0 <= i < jump_text(c).len() ==> b[i] == jump_text(c)[i]);
}

} // verus!

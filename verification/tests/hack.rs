use nand2tetris::hack::instruction::{
    write_i16_to_buff, write_instruction_set, AInstruction, CInstruction, Instruction,
    VariableFactory,
};
use nand2tetris::hack::number::parse_i16;
use nand2tetris::hack::symbols::{AConst, CInstructionDest, CInstructionExpression, CInstructionJump};
use nand2tetris::symbolic::SymbolicElem;

#[test]
fn predefined_symbols_write_and_read() {
    let mut buff = [0u8; 8];
    assert_eq!(AConst::SCREEN.write_symbols(&mut buff), 6);
    assert_eq!(&buff[..6], b"SCREEN");
    assert_eq!(AConst::read_symbols(b"R15xyz"), Some((AConst::R15, 3)));
    assert_eq!(AConst::read_symbols(b"R1"), Some((AConst::R1, 2)));
    assert_eq!(AConst::read_symbols(b"R1."), Some((AConst::R1, 2)));
    assert_eq!(AConst::read_symbols(b"THAT"), Some((AConst::THAT, 4)));
    assert_eq!(AConst::read_symbols(b"foo"), None);
}

#[test]
fn c_parts_read() {
    assert_eq!(
        CInstructionExpression::read_symbols(b"D+1"),
        Some((CInstructionExpression::IncrementD, 3))
    );
    assert_eq!(CInstructionExpression::read_symbols(b"D"), Some((CInstructionExpression::D, 1)));
    assert_eq!(
        CInstructionExpression::read_symbols(b"-1"),
        Some((CInstructionExpression::MinusOne, 2))
    );
    assert_eq!(CInstructionExpression::read_symbols(b"X"), None);
    assert_eq!(CInstructionDest::read_symbols(b"AM=M+1"), Some((CInstructionDest::AM, 3)));
    assert_eq!(CInstructionDest::read_symbols(b"0;JMP"), Some((CInstructionDest::NODEST, 0)));
    assert_eq!(CInstructionJump::read_symbols(b";JGT"), Some((CInstructionJump::JGT, 4)));
    assert_eq!(CInstructionJump::read_symbols(b""), Some((CInstructionJump::NOJMP, 0)));
}

#[test]
fn instructions_read() {
    match Instruction::read_symbols(b"@SP") {
        Some((Instruction::A(AInstruction::Const(AConst::SP)), 3)) => {},
        _ => panic!("expected @SP"),
    }
    match Instruction::read_symbols(b"@123") {
        Some((Instruction::A(AInstruction::Number(123)), 4)) => {},
        _ => panic!("expected @123"),
    }
    match Instruction::read_symbols(b"@-7") {
        Some((Instruction::A(AInstruction::Number(-7)), 3)) => {},
        _ => panic!("expected @-7"),
    }
    match Instruction::read_symbols(b"@foo.7") {
        Some((Instruction::A(AInstruction::Variable((p, 3, 7))), 6)) => assert_eq!(p, b"foo"),
        _ => panic!("expected @foo.7"),
    }
    assert!(Instruction::read_symbols(b"@a.b.1").is_none());
    match Instruction::read_symbols(b"D=M;JMP") {
        Some((Instruction::C(c), 7)) => assert_eq!(
            c,
            CInstruction {
                dest: CInstructionDest::D,
                expression: CInstructionExpression::M,
                jump: CInstructionJump::JMP,
            }
        ),
        _ => panic!("expected D=M;JMP"),
    }
    assert!(Instruction::read_symbols(b"Q=1").is_none());
}

#[test]
fn instruction_set_is_written_line_by_line() {
    let mut buff = [0u8; 32];
    let set = [
        Instruction::new_number(5),
        Instruction::C(CInstruction {
            dest: CInstructionDest::D,
            expression: CInstructionExpression::A,
            jump: CInstructionJump::NOJMP,
        }),
        Instruction::new_const(AConst::SP),
    ];
    let n = write_instruction_set(&mut buff, &set);
    assert_eq!(&buff[..n], b"@5\nD=A\n@SP\n");
}

#[test]
fn jump_follows_the_computation() {
    let mut buff = [0u8; 8];
    let c = CInstruction {
        dest: CInstructionDest::NODEST,
        expression: CInstructionExpression::D,
        jump: CInstructionJump::JGT,
    };
    let n = c.write_symbols(&mut buff);
    assert_eq!(n, 5);
    assert_eq!(&buff[..5], b"D;JGT");
    assert_eq!(&buff[5..], &[0u8, 0, 0]);
    let (back, len) = CInstruction::read_symbols(&buff[..n]).unwrap();
    assert!(back == c);
    assert_eq!(len, 5);
    let mut buff = [b'x'; 8];
    let j = CInstruction {
        dest: CInstructionDest::NODEST,
        expression: CInstructionExpression::Zero,
        jump: CInstructionJump::JMP,
    };
    assert_eq!(j.write_symbols(&mut buff), 5);
    assert_eq!(&buff, b"0;JMPxxx");
}

#[test]
fn variables_are_numbered_in_turn() {
    let mut factory = VariableFactory::new(b"Foo");
    let mut buff = [0u8; 16];
    let v0 = factory.new_variable();
    let n = v0.write_symbols(&mut buff);
    assert_eq!(&buff[..n], b"@Foo.0");
    let v1 = factory.new_variable();
    let n = v1.write_symbols(&mut buff);
    assert_eq!(&buff[..n], b"@Foo.1");
}

#[test]
fn numbers_write_and_parse() {
    let mut buff = [0u8; 8];
    assert_eq!(write_i16_to_buff(-32768, &mut buff), 6);
    assert_eq!(&buff[..6], b"-32768");
    assert_eq!(parse_i16(b"-32768"), Some(-32768));
    assert_eq!(parse_i16(b"32767"), Some(32767));
    assert_eq!(parse_i16(b"32768"), None);
    assert_eq!(parse_i16(b"+5"), Some(5));
    assert_eq!(parse_i16(b"007"), Some(7));
    assert_eq!(parse_i16(b""), None);
    assert_eq!(parse_i16(b"-"), None);
    assert_eq!(parse_i16(b"1a"), None);
}


#[test]
fn instruction_set_with_jumps_is_written_line_by_line() {
    let mut buff = [0u8; 32];
    let set = [
        Instruction::new_number(7),
        Instruction::C(CInstruction {
            dest: CInstructionDest::NODEST,
            expression: CInstructionExpression::D,
            jump: CInstructionJump::JGT,
        }),
        Instruction::C(CInstruction {
            dest: CInstructionDest::NODEST,
            expression: CInstructionExpression::Zero,
            jump: CInstructionJump::JMP,
        }),
    ];
    let n = write_instruction_set(&mut buff, &set);
    assert_eq!(&buff[..n], b"@7\nD;JGT\n0;JMP\n");
}

use nand2tetris::symbolic::SymbolicElem;
use nand2tetris::vm::assemble::{assemble, try_assemble, ArithmeticTokens, BranchTokenKind};
use nand2tetris::vm::context::{TranslateOpts, WriteFileContext};
use nand2tetris::vm::instructions::{
    AsmArithmeticInstruction, AsmBranchInstruction, AsmBranchInstructionKind,
    AsmFunctionInstruction, AsmInstructionPayload, AsmMemoryInstruction, AsmMemoryInstructionKind,
    AsmMemoryInstructionSegment, FunctionMetadata,
};
use nand2tetris::vm::lexer::{LexError, VMLexer};
use nand2tetris::hack::instruction::VariableFactory;
use nand2tetris::vm::memory::translate_memory_token;
use nand2tetris::vm::translate::{
    translate_arithmetic_command, translate_arithmetic_token, translate_branch_token,
    translate_function_token, translate_payload,
};
use nand2tetris::vm::tokens::{
    ArithmeticToken, MemoryToken, MemoryTokenKind, Segment, TokenPayload,
};

const POP: &str = "// Decriment sp\n@SP\nM=M-1\n// Extract value from sp\n@SP\nA=M\nD=M\n";
const PUSH: &str = "// Write value to sp\n@SP\nA=M\nM=D\n// Incriment sp\n@SP\nM=M+1\n";

fn hack_of(line: &str, idx: usize) -> String {
    String::from_utf8(assemble(line.as_bytes(), b"Foo", idx)).unwrap()
}

#[test]
fn assembles_push_constant() {
    assert_eq!(hack_of("push constant 7", 0), format!("\n// Push Const 7\n@7\nD=A\n{}\n", PUSH));
}

#[test]
fn assembles_pop_local_with_offset() {
    assert_eq!(
        hack_of("  pop local 2", 0),
        format!("\n// Pop Local 2\n{}@LCL\nA=M\nA=A+1\nA=A+1\nM=D\n\n", POP)
    );
}

#[test]
fn assembles_static_and_temp() {
    assert_eq!(hack_of("push static 3", 0), format!("\n// Push Static 3\n@Foo.3\nD=M\n{}\n", PUSH));
    assert_eq!(hack_of("pop temp 2", 0), format!("\n// Pop Temp 2\n{}@7\nM=D\n\n", POP));
    assert_eq!(hack_of("push pointer 1", 0), format!("\n// Push Pointer 1\n@THAT\nD=M\n{}\n", PUSH));
}

#[test]
fn assembles_arithmetic() {
    assert_eq!(hack_of("add", 0), format!("// add\n{}// Update in place sp\n@SP\nA=M-1\nM=M+D\n", POP));
    assert_eq!(hack_of("neg", 0), "// neg\n// Update in place sp\n@SP\nA=M-1\nM=-M\n");
    assert_eq!(
        hack_of("eq", 3),
        format!(
            "// eq\n{}// Write cmp result sp\n@SP\nA=M-1\nD=M-D\n@TRUE3\nD;JEQ\n@SP\nA=M-1\nM=0\n@FALSE3\n0;JMP\n(TRUE3)\n@SP\nA=M-1\nM=-1\n(FALSE3)\n",
            POP
        )
    );
}

#[test]
fn assembles_branches() {
    assert_eq!(hack_of("label LOOP", 0), "(LOOP)");
    assert_eq!(hack_of("goto LOOP", 0), "// goto\n@LOOP\n0;JMP\n");
    assert_eq!(hack_of("if-goto END", 0), format!("// if goto\n{}\n@END\nD;JNE\n", POP));
}

#[test]
fn blank_and_comment_lines_give_nothing() {
    assert_eq!(hack_of("", 0), "");
    assert_eq!(hack_of(" \t ", 0), "");
    assert_eq!(hack_of("// push constant 1", 0), "");
}

#[test]
fn refuses_what_it_does_not_know() {
    assert!(try_assemble(b"pop constant 1", b"Foo", 0).is_none());
    assert!(try_assemble(b"push pointer 2", b"Foo", 0).is_none());
    assert!(try_assemble(b"push nowhere 2", b"Foo", 0).is_none());
    assert!(try_assemble(b"push local", b"Foo", 0).is_none());
    assert!(try_assemble(b"frobnicate", b"Foo", 0).is_none());
    assert!(try_assemble(b"/ x", b"Foo", 0).is_none());
    assert!(try_assemble(b"push constant 99999", b"Foo", 0).is_none());
}

#[test]
fn segment_data_code() {
    assert_eq!(Segment::Arg.load_data(1, b"F"), b"@ARG\nA=M\nA=A+1\nD=M\n".to_vec());
    assert_eq!(Segment::This.save_data(0, b"F"), b"@THIS\nA=M\nM=D\n".to_vec());
    assert_eq!(Segment::Const.load_data(-3, b"F"), b"@-3\nD=A\n".to_vec());
    let mut out = Vec::new();
    ArithmeticTokens::Not.assemble(&mut out, 0);
    assert_eq!(out, b"// not\n// Update in place sp\n@SP\nA=M-1\nM=!M\n".to_vec());
    let mut out = Vec::new();
    BranchTokenKind::Label.assemble(&mut out, b"X");
    assert_eq!(out, b"(X)".to_vec());
}

#[test]
fn lexer_reads_commands_and_counts_lines() {
    let mut lexer = VMLexer::new(b"push constant 7\n// hi\nadd\npop local 2".to_vec());
    let t = lexer.next_token().unwrap();
    match t.payload {
        TokenPayload::Memory(m) => {
            assert_eq!(m.kind, MemoryTokenKind::Push);
            assert_eq!(m.segment, Segment::Const);
            assert_eq!(m.val, 7);
        },
        _ => panic!("expected a memory command"),
    }
    assert_eq!(t.instruction, 1);
    assert_eq!(t.src, 2);
    let t = lexer.next_token().unwrap();
    assert!(matches!(t.payload, TokenPayload::Arithmetic(ArithmeticToken::Add)));
    assert_eq!(t.instruction, 2);
    assert_eq!(t.src, 5);
    let t = lexer.next_token().unwrap();
    assert_eq!(String::from_utf8(t.text()).unwrap(), "pop local 2");
    assert_eq!(t.instruction, 3);
    assert_eq!(t.src, 6);
    assert!(lexer.next_token().is_none());
}

#[test]
fn lexer_reports_bad_text() {
    let mut lexer = VMLexer::new(b"push nowhere 1".to_vec());
    assert_eq!(lexer.try_next_token().err(), Some(LexError::UnknownSegment));
    let mut lexer = VMLexer::new(b"jump".to_vec());
    assert_eq!(lexer.try_next_token().err(), Some(LexError::UnexpectedInstruction));
    let mut lexer = VMLexer::new(b"push local".to_vec());
    assert_eq!(lexer.try_next_token().err(), Some(LexError::MissingOperand));
    let mut lexer = VMLexer::new(b"/ comment".to_vec());
    assert_eq!(lexer.try_next_token().err(), Some(LexError::BadComment));
}

#[test]
fn tokens_print_as_vm_text() {
    let m = MemoryToken::new(MemoryTokenKind::Push, Segment::Const, 7);
    assert_eq!(String::from_utf8(m.text()).unwrap(), "push constant 7");
    assert_eq!(Segment::from_name(b"local"), Some(Segment::Local));
    assert_eq!(Segment::from_name(b"locals"), None);
    let mut buff = [0u8; 10];
    assert_eq!(Segment::Pointer.write_symbols(&mut buff), 7);
    assert_eq!(&buff[..7], b"pointer");
    assert_eq!(ArithmeticToken::Gt.write_symbols(&mut buff), 2);
    assert_eq!(&buff[..2], b"gt");
}

#[test]
fn write_context_records_positions() {
    let mut ctx = WriteFileContext::new();
    assert_eq!(ctx.global_instruction_number(), 0);
    ctx.set_intruction(b"@SP".to_vec());
    ctx.incr();
    ctx.set_intruction(b"D=M".to_vec());
    ctx.set_intruction(b"@SP".to_vec());
    assert_eq!(ctx.global_instruction_number(), 1);
    assert_eq!(ctx.positions_of(b"@SP"), Some(&vec![0, 1]));
    assert_eq!(ctx.positions_of(b"D=M"), Some(&vec![1]));
    assert_eq!(ctx.positions_of(b"M=D"), None);
}

#[test]
fn translate_options_toggle_comments() {
    let mut opts = TranslateOpts::new();
    assert!(opts.comments);
    opts.set_comments(false);
    assert!(!opts.comments);
}

#[test]
fn vm_instructions_print_as_text() {
    let p = AsmInstructionPayload::Memory(AsmMemoryInstruction {
        segment: AsmMemoryInstructionSegment::Local,
        kind: AsmMemoryInstructionKind::Pop,
        val: -2,
    });
    assert_eq!(String::from_utf8(p.to_text()).unwrap(), "pop local -2");
    let p = AsmInstructionPayload::Function(AsmFunctionInstruction::Call(FunctionMetadata {
        name: b"Math.multiply".to_vec(),
        args_count: 2,
    }));
    assert_eq!(String::from_utf8(p.to_text()).unwrap(), "call Math.multiply 2");
    let p = AsmInstructionPayload::Branch(AsmBranchInstruction {
        kind: AsmBranchInstructionKind::IfGoto,
        name: b"L".to_vec(),
    });
    assert_eq!(String::from_utf8(p.to_text()).unwrap(), "if-goto L");
    let p = AsmInstructionPayload::Arithmetic(AsmArithmeticInstruction::Not);
    assert_eq!(String::from_utf8(p.to_text()).unwrap(), "not");
}

const POP_LINES: [&str; 7] = [
    "// Decriment SP",
    "@SP",
    "M=M-1",
    "// Extract value from SP to D",
    "@SP",
    "A=M",
    "D=M",
];
const PUSH_LINES: [&str; 7] = [
    "// Write value to SP from D",
    "@SP",
    "A=M",
    "M=D",
    "// Incriment sp",
    "@SP",
    "M=M+1",
];

fn memory_text(kind: MemoryTokenKind, segment: Segment, val: i16) -> Vec<String> {
    let token = MemoryToken::new(kind, segment, val);
    translate_memory_token(&token, b"AnyFile")
        .into_iter()
        .map(|l| String::from_utf8(l).unwrap())
        .collect()
}

fn lines(parts: &[&[&str]]) -> Vec<String> {
    parts.iter().flat_map(|p| p.iter().map(|s| s.to_string())).collect()
}

#[test]
fn translate_const_44_push_answer_test() {
    let got = memory_text(MemoryTokenKind::Push, Segment::Const, 44);
    assert_eq!(got, lines(&[&["// Set const value to D", "@44", "D=A"], &PUSH_LINES]));
}

#[test]
fn translate_pointer_1_pop_test() {
    let got = memory_text(MemoryTokenKind::Pop, Segment::Pointer, 1);
    assert_eq!(got, lines(&[&POP_LINES, &["@THAT", "M=D"]]));
}

#[test]
fn translate_pointer_0_push_test() {
    let got = memory_text(MemoryTokenKind::Push, Segment::Pointer, 0);
    assert_eq!(got, lines(&[&["@THIS", "D=M"], &PUSH_LINES]));
}

#[test]
fn translate_static_44_push_test() {
    let got = memory_text(MemoryTokenKind::Push, Segment::Static, 44);
    assert_eq!(got, lines(&[&["@AnyFile.44", "D=M"], &PUSH_LINES]));
}

#[test]
fn translate_static_20_pop_test() {
    let got = memory_text(MemoryTokenKind::Pop, Segment::Static, 20);
    assert_eq!(got, lines(&[&POP_LINES, &["@AnyFile.20", "M=D"]]));
}

#[test]
fn translate_tmp_2_push_test() {
    let got = memory_text(MemoryTokenKind::Push, Segment::Temp, 2);
    assert_eq!(got, lines(&[&["@7", "D=M"], &PUSH_LINES]));
}

#[test]
fn translate_tmp_0_pop_test() {
    let got = memory_text(MemoryTokenKind::Pop, Segment::Temp, 0);
    assert_eq!(got, lines(&[&POP_LINES, &["@5", "M=D"]]));
}

#[test]
fn translate_arg_0_pop_test() {
    let got = memory_text(MemoryTokenKind::Pop, Segment::Arg, 0);
    assert_eq!(got, lines(&[&POP_LINES, &["@ARG", "A=M", "M=D"]]));
}

#[test]
fn translate_arg_0_push_test() {
    let got = memory_text(MemoryTokenKind::Push, Segment::Arg, 0);
    assert_eq!(got, lines(&[&["@ARG", "A=M", "D=M"], &PUSH_LINES]));
}

#[test]
fn translate_arg_1_pop_test() {
    let got = memory_text(MemoryTokenKind::Pop, Segment::Arg, 1);
    assert_eq!(got, lines(&[&POP_LINES, &["@ARG", "A=M", "A=A+1", "M=D"]]));
}

#[test]
fn translate_arg_1_push_test() {
    let got = memory_text(MemoryTokenKind::Push, Segment::Arg, 1);
    assert_eq!(got, lines(&[&["@ARG", "A=M", "A=A+1", "D=M"], &PUSH_LINES]));
}

#[test]
fn translate_arg_7_pop_test() {
    let got = memory_text(MemoryTokenKind::Pop, Segment::Arg, 7);
    let prepare = [
        "// Start Prepare",
        "@ARG",
        "D=M",
        "@7",
        "D=D+A",
        "@R5",
        "M=D",
        "// End Prepare",
    ];
    assert_eq!(got, lines(&[&prepare, &POP_LINES, &["@R5", "A=M", "M=D"]]));
}

#[test]
fn translate_arg_7_push_test() {
    let got = memory_text(MemoryTokenKind::Push, Segment::Arg, 7);
    assert_eq!(got, lines(&[&["@ARG", "D=M", "@7", "A=D+A", "D=M"], &PUSH_LINES]));
}

#[test]
fn translate_arg_3_pop_test() {
    let got = memory_text(MemoryTokenKind::Pop, Segment::Arg, 3);
    let steps = ["@ARG", "A=M", "A=A+1", "A=A+1", "A=A+1", "M=D"];
    assert_eq!(got, lines(&[&POP_LINES, &steps]));
}

#[test]
fn translate_that_3_pop_test() {
    let got = memory_text(MemoryTokenKind::Pop, Segment::That, 3);
    let steps = ["@THAT", "A=M", "A=A+1", "A=A+1", "A=A+1", "M=D"];
    assert_eq!(got, lines(&[&POP_LINES, &steps]));
}

#[test]
fn translate_this_5_push_test() {
    let got = memory_text(MemoryTokenKind::Push, Segment::This, 5);
    assert_eq!(got, lines(&[&["@THIS", "D=M", "@5", "A=D+A", "D=M"], &PUSH_LINES]));
}

#[test]
fn translate_local_10_pop_test() {
    let got = memory_text(MemoryTokenKind::Pop, Segment::Local, 10);
    let prepare = [
        "// Start Prepare",
        "@LCL",
        "D=M",
        "@10",
        "D=D+A",
        "@R5",
        "M=D",
        "// End Prepare",
    ];
    assert_eq!(got, lines(&[&prepare, &POP_LINES, &["@R5", "A=M", "M=D"]]));
}

fn text_lines(ls: Vec<Vec<u8>>) -> Vec<String> {
    ls.into_iter().map(|l| String::from_utf8(l).unwrap()).collect()
}

fn branch_text(kind: AsmBranchInstructionKind, name: &str) -> Vec<String> {
    let mut token = AsmBranchInstruction { kind, name: name.as_bytes().to_vec() };
    let got = text_lines(translate_branch_token(&mut token));
    assert!(token.name.is_empty());
    got
}

#[test]
fn translate_branch_label_goto_and_if_goto() {
    assert_eq!(branch_text(AsmBranchInstructionKind::Label, "LOOP"), vec!["(LOOP)"]);
    assert_eq!(branch_text(AsmBranchInstructionKind::Goto, "LOOP"), vec!["@LOOP", "0;JMP"]);
    assert_eq!(
        branch_text(AsmBranchInstructionKind::IfGoto, "END"),
        lines(&[&POP_LINES, &["@END", "D;JNE"]])
    );
}

fn arithmetic_text(token: AsmArithmeticInstruction) -> Vec<String> {
    text_lines(translate_arithmetic_token(&token, b"T.1", b"F.1"))
}

#[test]
fn translate_unary_and_binary_arithmetic() {
    assert_eq!(arithmetic_text(AsmArithmeticInstruction::Neg), vec!["@SP", "A=M-1", "M=-M"]);
    assert_eq!(arithmetic_text(AsmArithmeticInstruction::Not), vec!["@SP", "A=M-1", "M=!M"]);
    assert_eq!(
        arithmetic_text(AsmArithmeticInstruction::Add),
        lines(&[&POP_LINES, &["@SP", "A=M-1", "M=D+M"]])
    );
    assert_eq!(
        arithmetic_text(AsmArithmeticInstruction::Sub),
        lines(&[&POP_LINES, &["@SP", "A=M-1", "M=M-D"]])
    );
    assert_eq!(
        arithmetic_text(AsmArithmeticInstruction::Or),
        lines(&[&POP_LINES, &["@SP", "A=M-1", "M=D|M"]])
    );
    assert_eq!(
        arithmetic_text(AsmArithmeticInstruction::And),
        lines(&[&POP_LINES, &["@SP", "A=M-1", "M=D&M"]])
    );
}

#[test]
fn translate_comparisons() {
    for (token, jump) in [
        (AsmArithmeticInstruction::Eq, "D;JEQ"),
        (AsmArithmeticInstruction::Gt, "D;JGT"),
        (AsmArithmeticInstruction::Lt, "D;JLT"),
    ] {
        let tail = [
            "@SP", "A=M-1", "D=M-D", "@T.1", jump, "@SP", "A=M-1", "M=0", "@F.1", "0;JMP",
            "(T.1)", "@SP", "A=M-1", "M=-1", "(F.1)",
        ];
        assert_eq!(arithmetic_text(token), lines(&[&POP_LINES, &tail]));
    }
}

#[test]
fn translate_function_definition() {
    let mut token = AsmFunctionInstruction::Definition(FunctionMetadata {
        name: b"Main.main".to_vec(),
        args_count: 2,
    });
    let got = text_lines(translate_function_token(&mut token, b"Main", 3));
    let local = ["@0", "D=A"];
    assert_eq!(
        got,
        lines(&[
            &["", "", "(Main.main)", "// Push local variables"],
            &local,
            &PUSH_LINES,
            &local,
            &PUSH_LINES,
            &["// Execute body"],
        ])
    );
    let mut none = AsmFunctionInstruction::Definition(FunctionMetadata {
        name: b"Main.f".to_vec(),
        args_count: 0,
    });
    assert_eq!(
        text_lines(translate_function_token(&mut none, b"Main", 3)),
        vec!["", "", "(Main.f)", "// Push local variables", "// Execute body"]
    );
}

#[test]
fn translate_function_call() {
    let mut token = AsmFunctionInstruction::Call(FunctionMetadata {
        name: b"Math.add".to_vec(),
        args_count: 2,
    });
    let got = text_lines(translate_function_token(&mut token, b"Main", 17));
    assert_eq!(
        got,
        lines(&[
            &["// Call function", "// Saving current segemnts", "@Math.add.Main.17", "D=A"],
            &PUSH_LINES,
            &["@LCL", "D=M"],
            &PUSH_LINES,
            &["@ARG", "D=M"],
            &PUSH_LINES,
            &["@THIS", "D=M"],
            &PUSH_LINES,
            &["@THAT", "D=M"],
            &PUSH_LINES,
            &["// Saved current segemnts", "// Set ARG pointer"],
            &["@SP", "D=M", "@5", "D=D-A", "@2", "D=D-A", "@ARG", "M=D"],
            &["// Set LCL = SP", "@SP", "A=M", "D=A", "@LCL", "M=D"],
            &["// Goto function body", "@Math.add", "0;JMP", "(Math.add.Main.17)"],
            &["// Here we return after function execution", "// End function call"],
        ])
    );
}

#[test]
fn translate_function_return() {
    let got = text_lines(translate_function_token(&mut AsmFunctionInstruction::Return, b"Main", 0));
    assert_eq!(
        got,
        lines(&[
            &["// Save return address in case zero arguments"],
            &["@LCL", "D=M", "@5", "A=D-A", "D=M", "@R14", "M=D"],
            &["// Push value to zero ARG"],
            &POP_LINES,
            &["@ARG", "A=M", "M=D"],
            &["// Move SP to restoring segments", "@LCL", "D=M", "@SP", "M=D"],
            &["@ARG", "D=M+1", "@R13", "M=D", "// Restoring coller segemnts"],
            &POP_LINES,
            &["@THAT", "M=D"],
            &POP_LINES,
            &["@THIS", "M=D"],
            &POP_LINES,
            &["@ARG", "M=D"],
            &POP_LINES,
            &["@LCL", "M=D"],
            &["// Move PC back", "@R13", "D=M", "@SP", "M=D", "@R14", "A=M", "0;JMP"],
            &["// Return back to caller function"],
        ])
    );
}

#[test]
fn translate_payload_with_and_without_comments() {
    let mut p = AsmInstructionPayload::Memory(AsmMemoryInstruction {
        segment: AsmMemoryInstructionSegment::Const,
        kind: AsmMemoryInstructionKind::Push,
        val: 7,
    });
    let mut opts = TranslateOpts::new();
    let mut factory = VariableFactory::new(b"Main");
    let with = text_lines(translate_payload(&mut p, &mut factory, 0, &opts));
    assert_eq!(with, lines(&[&["// Set const value to D", "@7", "D=A"], &PUSH_LINES]));
    opts.set_comments(false);
    let without = text_lines(translate_payload(&mut p, &mut factory, 0, &opts));
    assert_eq!(without, vec!["@7", "D=A", "@SP", "A=M", "M=D", "@SP", "M=M+1"]);
    let mut s = AsmInstructionPayload::Memory(AsmMemoryInstruction {
        segment: AsmMemoryInstructionSegment::Static,
        kind: AsmMemoryInstructionKind::Pop,
        val: 3,
    });
    let got = text_lines(translate_payload(&mut s, &mut factory, 0, &opts));
    assert_eq!(got, vec!["@SP", "M=M-1", "@SP", "A=M", "D=M", "@Main.3", "M=D"]);
}

fn instruction_of(lexer: &mut VMLexer) -> (AsmInstructionPayload, usize, usize) {
    let t = lexer.try_next_instruction().unwrap().unwrap();
    (t.payload, t.instruction, t.src)
}

#[test]
fn lexer_reads_the_full_command_set() {
    let text = b"function Main.main 2\n  push argument 0\nlabel LOOP // top\nif-goto END\ncall Math.multiply 12\ngoto LOOP\n\nlt\nreturn\n";
    let mut lexer = VMLexer::new(text.to_vec());
    let (p, i, l) = instruction_of(&mut lexer);
    assert_eq!(String::from_utf8(p.to_text()).unwrap(), "function Main.main 2");
    assert_eq!((i, l), (1, 2));
    let (p, _, l) = instruction_of(&mut lexer);
    assert_eq!(String::from_utf8(p.to_text()).unwrap(), "push argument 0");
    assert_eq!(l, 4);
    let (p, _, _) = instruction_of(&mut lexer);
    assert_eq!(String::from_utf8(p.to_text()).unwrap(), "label LOOP");
    let (p, _, _) = instruction_of(&mut lexer);
    assert_eq!(String::from_utf8(p.to_text()).unwrap(), "if-goto END");
    let (p, _, _) = instruction_of(&mut lexer);
    assert_eq!(String::from_utf8(p.to_text()).unwrap(), "call Math.multiply 12");
    let (p, _, _) = instruction_of(&mut lexer);
    assert_eq!(String::from_utf8(p.to_text()).unwrap(), "goto LOOP");
    let (p, _, l) = instruction_of(&mut lexer);
    assert!(matches!(p, AsmInstructionPayload::Arithmetic(AsmArithmeticInstruction::Lt)));
    assert_eq!(l, 14);
    let (p, i, _) = instruction_of(&mut lexer);
    assert!(matches!(p, AsmInstructionPayload::Function(AsmFunctionInstruction::Return)));
    assert_eq!(i, 8);
    assert!(lexer.try_next_instruction().unwrap().is_none());
}

#[test]
fn lexer_refuses_bad_function_commands() {
    let mut lexer = VMLexer::new(b"call Foo.bar 123\n".to_vec());
    assert_eq!(lexer.try_next_instruction().err(), Some(LexError::BadArgumentCount));
    let mut lexer = VMLexer::new(b"function Foo.bar x\n".to_vec());
    assert_eq!(lexer.try_next_instruction().err(), Some(LexError::BadArgumentCount));
    let mut lexer = VMLexer::new(b"function Foo.bar".to_vec());
    assert_eq!(lexer.try_next_instruction().err(), Some(LexError::MissingOperand));
    let mut lexer = VMLexer::new(b"goto".to_vec());
    assert_eq!(lexer.try_next_instruction().err(), Some(LexError::MissingOperand));
    let mut lexer = VMLexer::new(b"jump".to_vec());
    assert_eq!(lexer.try_next_instruction().err(), Some(LexError::UnexpectedInstruction));
}

#[test]
fn lexer_refuses_values_out_of_range() {
    let mut lexer = VMLexer::new(b"push constant 40000\n".to_vec());
    assert_eq!(lexer.try_next_token().err(), Some(LexError::ValueOutOfRange));
    let mut lexer = VMLexer::new(b"pop local 99999\n".to_vec());
    assert_eq!(lexer.try_next_instruction().err(), Some(LexError::ValueOutOfRange));
    let mut lexer = VMLexer::new(b"push constant 32767\n".to_vec());
    assert!(lexer.try_next_token().unwrap().is_some());
}

#[test]
fn translate_function_definition_moves_its_name_out() {
    let mut token = AsmFunctionInstruction::Definition(FunctionMetadata {
        name: b"Main.main".to_vec(),
        args_count: 1,
    });
    translate_function_token(&mut token, b"Main", 0);
    match token {
        AsmFunctionInstruction::Definition(m) => {
            assert!(m.name.is_empty());
            assert_eq!(m.args_count, 1);
        }
        _ => panic!("the definition stays a definition"),
    }
    let mut call = AsmFunctionInstruction::Call(FunctionMetadata {
        name: b"Math.add".to_vec(),
        args_count: 2,
    });
    translate_function_token(&mut call, b"Main", 0);
    match call {
        AsmFunctionInstruction::Call(m) => assert_eq!(m.name, b"Math.add".to_vec()),
        _ => panic!("the call stays a call"),
    }
}

#[test]
fn comparisons_draw_fresh_labels_from_the_factory() {
    let mut factory = VariableFactory::new(b"Main");
    let add = text_lines(translate_arithmetic_command(&AsmArithmeticInstruction::Add, &mut factory));
    assert_eq!(add, lines(&[&POP_LINES, &["@SP", "A=M-1", "M=D+M"]]));
    let eq = text_lines(translate_arithmetic_command(&AsmArithmeticInstruction::Eq, &mut factory));
    assert_eq!(eq[POP_LINES.len() + 3], "@Main.0");
    assert_eq!(eq[POP_LINES.len() + 8], "@Main.1");
    assert_eq!(eq[POP_LINES.len() + 10], "(Main.0)");
    assert_eq!(eq[eq.len() - 1], "(Main.1)");
    let lt = text_lines(translate_arithmetic_command(&AsmArithmeticInstruction::Lt, &mut factory));
    assert_eq!(lt[POP_LINES.len() + 3], "@Main.2");
    assert_eq!(lt[POP_LINES.len() + 4], "D;JLT");
    assert_eq!(lt[lt.len() - 1], "(Main.3)");
}

#[test]
fn translate_payload_moves_branch_names_out() {
    let mut factory = VariableFactory::new(b"Main");
    let opts = TranslateOpts::new();
    let mut p = AsmInstructionPayload::Branch(AsmBranchInstruction {
        kind: AsmBranchInstructionKind::Goto,
        name: b"LOOP".to_vec(),
    });
    let got = text_lines(translate_payload(&mut p, &mut factory, 0, &opts));
    assert_eq!(got, vec!["@LOOP", "0;JMP"]);
    match p {
        AsmInstructionPayload::Branch(b) => assert!(b.name.is_empty()),
        _ => panic!("the branch stays a branch"),
    }
    let mut gt = AsmInstructionPayload::Arithmetic(AsmArithmeticInstruction::Gt);
    let got = text_lines(translate_payload(&mut gt, &mut factory, 0, &opts));
    assert_eq!(got[POP_LINES.len() + 3], "@Main.0");
    assert_eq!(got[got.len() - 1], "(Main.1)");
}

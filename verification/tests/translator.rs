use nand2tetris::hack::instruction::VariableFactory;
use nand2tetris::vm::context::TranslateOpts;
use nand2tetris::vm::instructions::{
    AsmArithmeticInstruction, AsmInstructionPayload, AsmMemoryInstruction,
    AsmMemoryInstructionKind, AsmMemoryInstructionSegment,
};
use nand2tetris::vm::lexer::AsmToken;
use nand2tetris::vm::translator::Translator;

const PUSH: [&str; 7] = [
    "// Write value to SP from D",
    "@SP",
    "A=M",
    "M=D",
    "// Incriment sp",
    "@SP",
    "M=M+1",
];
const POP: [&str; 7] = [
    "// Decriment SP",
    "@SP",
    "M=M-1",
    "// Extract value from SP to D",
    "@SP",
    "A=M",
    "D=M",
];

fn block(lines: &[&str]) -> Vec<Vec<u8>> {
    lines.iter().map(|l| l.as_bytes().to_vec()).collect()
}

fn text(lines: &[&[&str]]) -> String {
    let mut s = String::new();
    for part in lines {
        for l in part.iter() {
            s.push_str(l);
            s.push('\n');
        }
    }
    s
}

fn new_asm_instruction(payload: AsmInstructionPayload) -> AsmToken {
    AsmToken { payload, instruction: 0, src: 0 }
}

fn translate_one(payload: AsmInstructionPayload) -> String {
    let mut factory = VariableFactory::new(b"AnyFile");
    let mut t = Translator::new();
    t.save_token(new_asm_instruction(payload));
    t.translate(&mut factory);
    String::from_utf8(t.instructions_to_symbols(100)).unwrap()
}

#[test]
fn model_save_instruction_test() {
    let mut t = Translator::new();
    assert!(t.save_instruction(b"@SP".to_vec()));
    let out = t.instructions_to_symbols(100);
    assert!(out == b"@SP\n".to_vec());
}

#[test]
fn model_save_link_test() {
    let mut t = Translator::new();
    assert!(t.save_link(block(&PUSH)));
    let out = t.instructions_to_symbols(100);
    let answer = b"// Write value to SP from D\n@SP\nA=M\nM=D\n// Incriment sp\n@SP\nM=M+1\n";
    assert!(out.len() == answer.len());
    assert!(out == answer.to_vec());
}

#[test]
fn model_save_instruction_and_link_test() {
    let mut t = Translator::new();
    assert!(t.save_instruction(b"@THIS".to_vec()));
    assert!(t.save_link(block(&PUSH)));
    assert!(t.save_instruction(b"M=D".to_vec()));
    let out = t.instructions_to_symbols(100);
    let answer =
        b"@THIS\n// Write value to SP from D\n@SP\nA=M\nM=D\n// Incriment sp\n@SP\nM=M+1\nM=D\n";
    assert!(out.len() == answer.len());
    assert!(out == answer.to_vec());
}

#[test]
fn model_translate_memory_test() {
    let got = translate_one(AsmInstructionPayload::Memory(AsmMemoryInstruction {
        kind: AsmMemoryInstructionKind::Pop,
        segment: AsmMemoryInstructionSegment::Arg,
        val: 0,
    }));
    assert_eq!(got, text(&[&POP, &["@ARG", "A=M", "M=D"]]));
}

#[test]
fn model_translate_arithmetic_cmp_test() {
    let got = translate_one(AsmInstructionPayload::Arithmetic(AsmArithmeticInstruction::Eq));
    let tail = [
        "@SP", "A=M-1", "D=M-D", "@AnyFile.0", "D;JEQ", "@SP", "A=M-1", "M=0", "@AnyFile.1",
        "0;JMP", "(AnyFile.0)", "@SP", "A=M-1", "M=-1", "(AnyFile.1)",
    ];
    assert_eq!(got, text(&[&POP, &tail]));
}

#[test]
fn model_translate_arithmetic_add_test() {
    let got = translate_one(AsmInstructionPayload::Arithmetic(AsmArithmeticInstruction::Add));
    assert_eq!(got, text(&[&POP, &["@SP", "A=M-1", "M=D+M"]]));
}

#[test]
fn model_translate_arithmetic_sub_test() {
    let got = translate_one(AsmInstructionPayload::Arithmetic(AsmArithmeticInstruction::Sub));
    assert_eq!(got, text(&[&POP, &["@SP", "A=M-1", "M=M-D"]]));
}

#[test]
fn model_translate_arithmetic_not_test() {
    let got = translate_one(AsmInstructionPayload::Arithmetic(AsmArithmeticInstruction::Not));
    assert_eq!(got, text(&[&["@SP", "A=M-1", "M=!M"]]));
}

#[test]
fn translator_writes_in_chunks_and_leaves_comments_out() {
    let mut opts = TranslateOpts::new();
    opts.set_comments(false);
    let mut t = Translator::new_with_opts(opts);
    assert!(t.save_instruction(b"// dropped".to_vec()));
    assert!(t.save_link(block(&PUSH)));
    let first = String::from_utf8(t.instructions_to_symbols(2)).unwrap();
    assert_eq!(first, "@SP\nA=M\n");
    let rest = String::from_utf8(t.instructions_to_symbols(100)).unwrap();
    assert_eq!(rest, "M=D\n@SP\nM=M+1\n");
    assert!(t.instructions_to_symbols(100).is_empty());
    t.reset();
    assert_eq!(t.check_free_space(), 64);
}

#[test]
fn translator_starts_a_program_with_sys_init() {
    let mut factory = VariableFactory::new(b"initial_call");
    let mut t = Translator::new();
    t.init_translator(&mut factory);
    let out = String::from_utf8(t.instructions_to_symbols(300)).unwrap();
    assert!(out.starts_with("@256\nD=A\n@SP\nM=D\n// Call function\n"));
    assert!(out.contains("@Sys.init.initial_call.0\n"));
    assert!(out.contains("@Sys.init\n0;JMP\n(Sys.init.initial_call.0)\n"));
    assert!(out.ends_with("// End function call\n// Finish init\n"));
}

#[test]
fn translator_buffer_refuses_blocks_when_full() {
    let mut t = Translator::new();
    for _ in 0..2048 {
        assert!(t.save_link(block(&["@SP"])));
    }
    assert!(!t.save_link(block(&["@SP"])));
}

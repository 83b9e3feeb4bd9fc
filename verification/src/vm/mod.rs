pub mod instructions;
pub mod tokens;
pub mod asm_text;
pub mod assemble;
pub mod context;
pub mod lexer;
pub mod lexer_laws;
pub mod memory;
pub mod translate;
pub mod translator;

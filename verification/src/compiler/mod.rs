pub mod vars;
pub mod class;
pub mod code;
pub mod meaning;
pub mod emit;
pub mod statements;
pub mod subroutine;

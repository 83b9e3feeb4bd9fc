pub mod symbols;
pub mod number;
pub mod instruction;
pub mod laws;

pub mod tag;
pub mod tags;
pub mod units;
pub mod ast;

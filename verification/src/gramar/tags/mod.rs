pub mod bracket;
pub mod class;
pub mod declar;
pub mod do_statement;
pub mod expression;
pub mod expressions;
pub mod function;
pub mod funvtions_declar;
pub mod if_statement;
pub mod let_statement;
pub mod params;
pub mod return_statement;
pub mod statements;
pub mod statements_declar;
pub mod term;
pub mod while_statement;

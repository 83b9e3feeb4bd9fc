pub mod segments;
pub mod style;
pub mod subroutins_types;
pub mod types;
pub mod var_name;

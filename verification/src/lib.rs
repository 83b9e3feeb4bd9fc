//! A toolchain for the Hack platform: the Jack tokenizer and grammar, the
//! Jack-to-VM compiler, VM instruction models and the VM-to-Hack translator.
use vstd::prelude::*;

pub mod compiler;
pub mod gramar;
pub mod hack;
pub mod symbolic;
pub mod tokens;
pub mod util;
pub mod vm;

verus! {

} // verus!

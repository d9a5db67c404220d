//! Middle stages of a compiler for a small C-like language: parsing rules for
//! expressions, scope resolution, the typed tree, lowering to three-address
//! code, and the selection of assembly instructions.
use vstd::prelude::*;

pub mod ast;
pub mod context;
pub mod diagnostics;
pub mod laws;
pub mod lowering;
pub mod parser;
pub mod resolution;
pub mod selection;
pub mod tac;
pub mod token;
pub mod typed;

verus! {

} // verus!

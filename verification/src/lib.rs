//! Nexus: intermediate representations, native runtime helpers and the
//! interactive shell logic of the Nexus language, with their contracts.

pub mod ast;
pub mod interpreter;
pub mod ir;
pub mod natives;
pub mod repl;
pub mod text;

//! The interactive shell: telling complete input from input that goes on
//! on the next line, the pending-input state machine and its commands, and
//! the names offered for tab completion.

pub mod input;
pub mod session;
pub mod names;

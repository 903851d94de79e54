//! Execution core of a small two-dimensional, stack-based language in the
//! Befunge family: a byte grid, a program pointer with a heading, a byte
//! stack, an opcode decoder and a single-step transition function.

pub mod direction;
pub mod error;
pub mod grid;
pub mod input;
pub mod instruction;
pub mod laws;

pub mod pointer;
pub mod state;


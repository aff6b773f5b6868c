//! A small bytecode virtual machine over a fixed-capacity heap, together with
//! a front end that turns a flat, left-to-right arithmetic expression into
//! instructions for it.
//!
//! The operand stack holds heap addresses, never values. The address register
//! names the next heap slot to allocate. Every transition of the machine is
//! given as a function on a mathematical `State`, and the executable machine
//! is proved to follow it.

pub mod value;
pub mod machine;
pub mod compiler;
pub mod laws;

pub use value::{Address, Computed, Fault, Instruction, Operator, Unary, Value};
pub use machine::{Machine, Outcome, State, RAM_SPEC};

pub use compiler::{calc_compiler, classify, compile_tokens, tokenize, CompileError, Token};

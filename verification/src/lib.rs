//! A small register-based virtual machine.
//!
//! The machine owns thirty-two signed 32-bit registers, a flat byte-encoded program, a
//! program counter, a remainder register and a comparison flag. Every cycle decodes one
//! opcode byte and its operands and updates that state.
//!
//! * [`instruction`] is the opcode table.
//! * [`machine`] is the mathematical model: the state, the transition function and the
//!   signals of a cycle.
//! * [`vm`] is the executable machine, proved to follow the model.
//! * [`theorems`] states what holds of every cycle.
//! * [`hex`], [`text`] and [`repl`] are the interactive front end without its console:
//!   program bytes written in base sixteen, lines of input, and a session.
pub mod hex;
pub mod instruction;
pub mod machine;
pub mod repl;
pub mod text;
pub mod theorems;
pub mod vm;

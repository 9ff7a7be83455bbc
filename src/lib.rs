//! A cycle-accurate 6502 microcomputer emulation library: banked memory,
//! signal pins between components, and a T-state level CPU interpreter.
//!
//! - `memory`: the 64 KiB address space and its banks.
//! - `pin`: one-producer, one-consumer signal pins.
//! - `ops`: the register file and what each operation does to it.
//! - `decode`: which opcode names which instruction.
//! - `model`: one T-state of the CPU as a function on its state.
//! - `cpu`: the CPU itself, proved to step as `model` says.
//! - `laws`: whole instructions: their effect and their cycle counts.
//! - `clock`, `gates`: a square-wave source and two-input logic gates.

pub mod clock;
pub mod cpu;
pub mod decode;
pub mod gates;
pub mod laws;
pub mod memory;
pub mod model;
pub mod ops;
pub mod pin;

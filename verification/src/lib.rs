//! A virtual machine for the CHIP-8 instruction set: decoder, machine state,
//! fetch-decode-execute engine, timers and pluggable randomness, each with a
//! machine-checked contract.
pub mod chip8;
pub mod display;
pub mod frontend;
pub mod instruction;
pub mod laws;
pub mod model;
pub mod rng;
pub mod semantics;
pub mod simple_rng;

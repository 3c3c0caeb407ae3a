//! Core of an Intel 8080 instruction interpreter.
//!
//! The crate models the processor state (register file, flag byte, program
//! counter and stack pointer), decodes opcodes through a 256-entry dispatch
//! table built from bit-pattern descriptors, and executes one instruction per
//! `next` call against a 64 KiB byte-addressable memory, returning the elapsed
//! cycle count.
//!
//! `flags` and `regs` hold the data model, `decode` the dispatch table with
//! its completeness proof, `sem` the per-instruction transition relations the
//! public contracts state, `cpu` the core itself, and `laws` the round-trip
//! and invariance lemmas that hold across instructions.

pub mod cpu;
pub mod decode;
pub mod flags;
pub mod laws;
pub mod regs;
pub mod sem;

//! An instruction-accurate interpreter for the Intel 8080 microprocessor.
//!
//! The interpreter owns a register file, a flat 65,536-byte memory, and the
//! processor flags, and executes a loaded machine-code image one instruction
//! at a time.  Every state transition is specified against a mathematical
//! model of the processor and proved to match it.

pub mod disassembler;
pub mod emulator;

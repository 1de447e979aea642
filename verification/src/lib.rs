//! Decoder and disassembler for 64-bit Cairo VM instruction words.
//!
//! A raw instruction is a single 64-bit unsigned integer. [`instruction::DecodedInstruction`]
//! splits it into its ten fixed-position control fields, and its rendering method turns the
//! decoded record into a human-readable, assembly-like description, or into the sentinel
//! string `"Undefined Behavior"` for field combinations the instruction set leaves illegal.

pub mod bits;
pub mod instruction;
pub mod laws;
pub mod numeral;
pub mod render;

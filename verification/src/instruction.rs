//! The decoded instruction record and its construction from a raw word.

use vstd::prelude::*;
use crate::bits::{extract_bits, extract_spec};

verus! {

/// The ten control fields of one 64-bit instruction word.
///
/// The three offset fields are stored in the word with a bias of `2^15`; here
/// they carry their true signed values. The remaining fields carry the raw
/// unsigned bit patterns of their ranges; no legality of their combination is
/// checked at construction. A record is a pure snapshot: it is built in one
/// step from the word and never mutated.
#[derive(Clone, Copy, Debug, PartialEq, Eq, Structural)]
pub struct DecodedInstruction {
    /// Bits 0..=15, biased: destination operand offset.
    pub off_dst: i16,
    /// Bits 16..=31, biased: first operand offset.
    pub off_op0: i16,
    /// Bits 32..=47, biased: second operand offset.
    pub off_op1: i16,
    /// Bit 48: base register selector for dst (0 = ap, 1 = fp).
    pub dst_reg: u8,
    /// Bit 49: base register selector for op0.
    pub op0_reg: u8,
    /// Bits 50..=52: addressing mode for op1.
    pub op1_src: u8,
    /// Bits 53..=54: how the result is computed.
    pub res_logic: u8,
    /// Bits 55..=57: program-counter update mode.
    pub pc_update: u8,
    /// Bits 58..=59: stack-pointer update mode.
    pub ap_update: u8,
    /// Bits 60..=62: instruction class.
    pub opcode: u8,
}

/// The true signed value of a biased 16-bit offset field.
pub open spec fn unbias(raw: u64) -> i16 {
    (raw - 0x8000) as i16
}

/// The record that decoding `word` yields: each field is the value of its bit
/// range, with the three offsets un-biased.
pub open spec fn decode_spec(word: u64) -> DecodedInstruction {
    DecodedInstruction {
        off_dst: unbias(extract_spec(word, 0, 16)),
        off_op0: unbias(extract_spec(word, 16, 16)),
        off_op1: unbias(extract_spec(word, 32, 16)),
        dst_reg: extract_spec(word, 48, 1) as u8,
        op0_reg: extract_spec(word, 49, 1) as u8,
        op1_src: extract_spec(word, 50, 3) as u8,
        res_logic: extract_spec(word, 53, 2) as u8,
        pc_update: extract_spec(word, 55, 3) as u8,
        ap_update: extract_spec(word, 58, 2) as u8,
        opcode: extract_spec(word, 60, 3) as u8,
    }
}

/// Each extracted field is bounded by the width of its bit range.
pub proof fn lemma_field_bounds(word: u64)
    ensures
        extract_spec(word, 0, 16) < 0x10000,
        extract_spec(word, 16, 16) < 0x10000,
        extract_spec(word, 32, 16) < 0x10000,
        extract_spec(word, 48, 1) < 2,
        extract_spec(word, 49, 1) < 2,
        extract_spec(word, 50, 3) < 8,
        extract_spec(word, 53, 2) < 4,
        extract_spec(word, 55, 3) < 8,
        extract_spec(word, 58, 2) < 4,
        extract_spec(word, 60, 3) < 8,
{
    assert((word >> 0) & !(u64::MAX << 16) < 0x10000 && (word >> 16) & !(u64::MAX << 16)
        < 0x10000 && (word >> 32) & !(u64::MAX << 16) < 0x10000 && (word >> 48) & !(u64::MAX << 1)
        < 2 && (word >> 49) & !(u64::MAX << 1) < 2 && (word >> 50) & !(u64::MAX << 3) < 8 && (word
        >> 53) & !(u64::MAX << 2) < 4 && (word >> 55) & !(u64::MAX << 3) < 8 && (word >> 58) & !(
    u64::MAX << 2) < 4 && (word >> 60) & !(u64::MAX << 3) < 8) by (bit_vector);
}

impl DecodedInstruction {
    /// Decodes a raw 64-bit instruction word. Total: every bit pattern yields
    /// a record; an illegal field combination is detected only at render time.
    pub fn new(instruction_u64: &u64) -> (r: Self)
        ensures
            r == decode_spec(*instruction_u64),
    {
        proof {
            lemma_field_bounds(*instruction_u64);
        }
        let off_dst_raw = extract_bits(instruction_u64, 0, 16);
        let off_op0_raw = extract_bits(instruction_u64, 16, 16);
        let off_op1_raw = extract_bits(instruction_u64, 32, 16);
        Self {
            off_dst: (off_dst_raw as i32 - 0x8000) as i16,
            off_op0: (off_op0_raw as i32 - 0x8000) as i16,
            off_op1: (off_op1_raw as i32 - 0x8000) as i16,
            dst_reg: extract_bits(instruction_u64, 48, 1) as u8,
            op0_reg: extract_bits(instruction_u64, 49, 1) as u8,
            op1_src: extract_bits(instruction_u64, 50, 3) as u8,
            res_logic: extract_bits(instruction_u64, 53, 2) as u8,
            pc_update: extract_bits(instruction_u64, 55, 3) as u8,
            ap_update: extract_bits(instruction_u64, 58, 2) as u8,
            opcode: extract_bits(instruction_u64, 60, 3) as u8,
        }
    }
}

} // verus!

use cairo_disasm::bits::extract_bits;
use cairo_disasm::instruction::DecodedInstruction;

/// Builds an instruction word from its ten field values, offsets given raw
/// (biased) so that every bit pattern can be written down directly.
fn word(
    off_dst: u16,
    off_op0: u16,
    off_op1: u16,
    dst_reg: u64,
    op0_reg: u64,
    op1_src: u64,
    res_logic: u64,
    pc_update: u64,
    ap_update: u64,
    opcode: u64,
) -> u64 {
    (off_dst as u64)
        | (off_op0 as u64) << 16
        | (off_op1 as u64) << 32
        | dst_reg << 48
        | op0_reg << 49
        | op1_src << 50
        | res_logic << 53
        | pc_update << 55
        | ap_update << 58
        | opcode << 60
}

const UB: &str = "Undefined Behavior";

#[test]
fn extract_low_bits() {
    assert_eq!(extract_bits(&0xff00u64, 8, 8), 0xff);
    assert_eq!(extract_bits(&0xff00u64, 0, 8), 0);
    assert_eq!(extract_bits(&u64::MAX, 1, 63), u64::MAX >> 1);
    assert_eq!(extract_bits(&0x48307ffe7fff8000u64, 60, 3), 4);
}

#[test]
fn extract_full_word() {
    // The whole documented domain includes the full-word read.
    assert_eq!(extract_bits(&0x48307ffe7fff8000u64, 0, 64), 0x48307ffe7fff8000);
    assert_eq!(extract_bits(&u64::MAX, 0, 64), u64::MAX);
    assert_eq!(extract_bits(&0u64, 0, 64), 0);
}

#[test]
fn known_word_decode() {
    let d = DecodedInstruction::new(&0x48307ffe7fff8000u64);
    assert_eq!(d.off_dst, 0);
    assert_eq!(d.off_op0, -1);
    assert_eq!(d.off_op1, -2);
    assert_eq!(d.dst_reg, 0);
    assert_eq!(d.op0_reg, 0);
    assert_eq!(d.op1_src, 4);
    assert_eq!(d.res_logic, 1);
    assert_eq!(d.pc_update, 0);
    assert_eq!(d.ap_update, 2);
    assert_eq!(d.opcode, 4);
}

#[test]
fn known_word_render() {
    let d = DecodedInstruction::new(&0x48307ffe7fff8000u64);
    assert_eq!(
        d.to_string(),
        "\nassert equal [ap - 1] + [ap - 2] = [ap];\njump comm pc += 1;\nap += 1;"
    );
}

#[test]
fn suffix_negative() {
    assert_eq!(
        DecodedInstruction::transform_number_to_computation_string(-5),
        " - 5"
    );
    assert_eq!(
        DecodedInstruction::transform_number_to_computation_string(-1),
        " - 1"
    );
    assert_eq!(
        DecodedInstruction::transform_number_to_computation_string(i16::MIN),
        " - 32768"
    );
}

#[test]
fn suffix_zero() {
    assert_eq!(
        DecodedInstruction::transform_number_to_computation_string(0),
        ""
    );
}

#[test]
fn suffix_positive() {
    assert_eq!(
        DecodedInstruction::transform_number_to_computation_string(7),
        " + 7"
    );
    assert_eq!(
        DecodedInstruction::transform_number_to_computation_string(i16::MAX),
        " + 32767"
    );
    assert_eq!(
        DecodedInstruction::transform_number_to_computation_string(100),
        " + 100"
    );
}

#[test]
fn offset_round_trip() {
    // The raw field value minus 2^15 is the true signed offset, across the
    // full raw range.
    let w = word(0x0000, 0x8000, 0xffff, 0, 0, 0, 0, 0, 0, 0);
    let d = DecodedInstruction::new(&w);
    assert_eq!(d.off_dst, -32768);
    assert_eq!(d.off_op0, 0);
    assert_eq!(d.off_op1, 32767);
}

#[test]
fn call_render() {
    // call with an immediate operand: two-word instruction, fixed fp and ap
    // updates.
    let w = word(0x8000, 0x8001, 0x8003, 1, 1, 1, 0, 1, 0, 1);
    let d = DecodedInstruction::new(&w);
    assert_eq!(
        d.to_string(),
        "\ncall;\njump abs pc = [pc + 3];\nfp = ap + 2;\nap += 2;"
    );
}

#[test]
fn ret_render() {
    let w = word(0x7ffe, 0x8000, 0x7ff9, 1, 0, 2, 0, 1, 0, 2);
    let d = DecodedInstruction::new(&w);
    assert_eq!(
        d.to_string(),
        "\nret;\njump abs pc = [fp - 7];\nfp = [fp - 2];"
    );
}

#[test]
fn jnz_render() {
    // Conditional relative jump with a double-dereferenced op1: result stays
    // uncomputed, only dst and op1 appear in the pc update.
    let w = word(0x7fff, 0x8002, 0x8000, 0, 1, 0, 0, 4, 2, 0);
    let d = DecodedInstruction::new(&w);
    assert_eq!(
        d.to_string(),
        "\njump rel cond pc += (1 - [ap - 1]) * 1 + [ap - 1] * [[fp + 2]];\nap += 1;"
    );
}

#[test]
fn assignment_with_result_sized_ap_update() {
    let w = word(0x8000, 0x7ffd, 0x8001, 0, 0, 2, 2, 0, 1, 0);
    let d = DecodedInstruction::new(&w);
    assert_eq!(
        d.to_string(),
        "\njump comm pc += 1;\nap += [ap - 3] * [fp + 1];"
    );
}

#[test]
fn immediate_operand_widens_instruction() {
    // An immediate op1 makes the instruction two words wide.
    let w = word(0x8000, 0x8000, 0x8005, 0, 0, 1, 0, 0, 0, 0);
    let d = DecodedInstruction::new(&w);
    assert_eq!(d.to_string(), "\njump comm pc += 2;");
}

#[test]
fn relative_jump_render() {
    let w = word(0x8000, 0x8001, 0x8002, 0, 1, 4, 1, 2, 0, 0);
    let d = DecodedInstruction::new(&w);
    assert_eq!(d.to_string(), "\njump rel pc += [fp + 1] + [ap + 2];");
}

#[test]
fn ub_op1_src() {
    for op1_src in [3u64, 5, 6, 7] {
        let w = word(0x8000, 0x8000, 0x8000, 0, 0, op1_src, 0, 0, 0, 0);
        assert_eq!(DecodedInstruction::new(&w).to_string(), UB);
    }
}

#[test]
fn ub_jnz_res_logic() {
    for res_logic in [2u64, 3] {
        let w = word(0x8000, 0x8000, 0x8000, 0, 0, 0, res_logic, 4, 0, 0);
        assert_eq!(DecodedInstruction::new(&w).to_string(), UB);
    }
}

#[test]
fn ub_res_logic_three() {
    let w = word(0x8000, 0x8000, 0x8000, 0, 0, 0, 3, 0, 0, 0);
    assert_eq!(DecodedInstruction::new(&w).to_string(), UB);
}

#[test]
fn ub_pc_update() {
    for pc_update in [3u64, 5, 6, 7] {
        let w = word(0x8000, 0x8000, 0x8000, 0, 0, 0, 0, pc_update, 0, 0);
        assert_eq!(DecodedInstruction::new(&w).to_string(), UB);
    }
}

#[test]
fn ub_ap_update_under_every_opcode() {
    for opcode in [0u64, 1, 2, 3, 4, 5, 6, 7] {
        let w = word(0x8000, 0x8000, 0x8000, 0, 0, 0, 0, 0, 3, opcode);
        assert_eq!(DecodedInstruction::new(&w).to_string(), UB);
    }
}

#[test]
fn ub_opcode() {
    for opcode in [3u64, 5, 6, 7] {
        let w = word(0x8000, 0x8000, 0x8000, 0, 0, 0, 0, 0, 0, opcode);
        assert_eq!(DecodedInstruction::new(&w).to_string(), UB);
    }
}

#[test]
fn ub_call_with_wrong_ap_update() {
    for ap_update in [1u64, 2, 3] {
        let w = word(0x8000, 0x8000, 0x8000, 0, 0, 0, 0, 0, ap_update, 1);
        assert_eq!(DecodedInstruction::new(&w).to_string(), UB);
    }
}

#[test]
fn ub_jnz_with_wrong_fields() {
    // pc_update 4 demands res_logic 0, opcode 0 and ap_update other than 1.
    let wrong_opcode = word(0x8000, 0x8000, 0x8000, 0, 0, 0, 0, 4, 0, 4);
    assert_eq!(DecodedInstruction::new(&wrong_opcode).to_string(), UB);
    let wrong_ap = word(0x8000, 0x8000, 0x8000, 0, 0, 0, 0, 4, 1, 0);
    assert_eq!(DecodedInstruction::new(&wrong_ap).to_string(), UB);
}

#[test]
fn decode_idempotent() {
    for w in [0u64, 0x48307ffe7fff8000, u64::MAX, 0x1807_8001_7fff_7ffe] {
        let first = DecodedInstruction::new(&w);
        let second = DecodedInstruction::new(&w);
        assert_eq!(first, second);
    }
}

#[test]
fn render_idempotent() {
    let d = DecodedInstruction::new(&0x48307ffe7fff8000u64);
    assert_eq!(d.to_string(), d.to_string());
}

#[test]
fn render_always_nonempty() {
    // Every combination of the seven selector fields, with fixed offsets:
    // decoding never fails and rendering never returns an empty string.
    for opcode in 0u64..8 {
        for ap_update in 0u64..4 {
            for pc_update in 0u64..8 {
                for res_logic in 0u64..4 {
                    for op1_src in 0u64..8 {
                        let w = word(
                            0x7fff, 0x8001, 0x8000, 1, 0, op1_src, res_logic, pc_update,
                            ap_update, opcode,
                        );
                        let d = DecodedInstruction::new(&w);
                        assert!(!d.to_string().is_empty());
                    }
                }
            }
        }
    }
}

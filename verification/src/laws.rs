//! Laws of the decoder and renderer, each stated and proved once.

use vstd::prelude::*;
use crate::bits::extract_spec;
use crate::instruction::{decode_spec, lemma_field_bounds, DecodedInstruction};
use crate::numeral::{dec_rep, lemma_dec_rep_value};
use crate::render::{
    append_stmt, assembled_spec, instruction_legal, pc_stmt_spec, render_spec, res_legal,
    suffix_spec, undefined_behavior_text,
};

verus! {

/// Decoding re-biases each 16-bit offset field: the true signed value is the
/// raw field value minus `2^15`, across the full raw range.
pub proof fn lemma_offset_round_trip(word: u64)
    ensures
        decode_spec(word).off_dst as int == extract_spec(word, 0, 16) as int - 0x8000,
        decode_spec(word).off_op0 as int == extract_spec(word, 16, 16) as int - 0x8000,
        decode_spec(word).off_op1 as int == extract_spec(word, 32, 16) as int - 0x8000,
{
    lemma_field_bounds(word);
}

/// The offset suffix reproduces `" - k"`, the empty text, or `" + k"`
/// exactly by the sign of the offset, with `k` the decimal numeral of the
/// magnitude; the suffix is empty exactly for a zero offset.
pub proof fn lemma_suffix_exact(n: i16)
    ensures
        n < 0 ==> suffix_spec(n) == " - "@ + dec_rep((-(n as int)) as nat),
        n == 0 ==> suffix_spec(n) == Seq::<char>::empty(),
        n > 0 ==> suffix_spec(n) == " + "@ + dec_rep(n as nat),
        suffix_spec(n).len() == 0 <==> n == 0,
{
    if n < 0 {
        lemma_dec_rep_value((-(n as int)) as nat);
    } else if n > 0 {
        lemma_dec_rep_value(n as nat);
    }
}

/// Rendering is total and never silent: whatever the field combination, the
/// rendered text is non-empty — either assembled statements or the sentinel.
pub proof fn lemma_render_nonempty(d: DecodedInstruction)
    ensures
        render_spec(d).len() > 0,
{
    if instruction_legal(d) {
        reveal_strlit("jump comm pc += ");
        reveal_strlit("jump abs pc = ");
        reveal_strlit("jump rel pc += ");
        reveal_strlit("jump rel cond pc += (1 - ");
        assert(res_legal(d));
        assert(pc_stmt_spec(d).len() > 0);
        let after_opcode = append_stmt(Seq::<char>::empty(), crate::render::opcode_stmt_spec(d));
        assert(append_stmt(after_opcode, pc_stmt_spec(d)).len() > 0);
        assert(assembled_spec(d).len() > 0);
    } else {
        reveal_strlit("Undefined Behavior");
    }
}

/// Decoding never fails and rendering what was decoded is never silent:
/// every 64-bit word has a non-empty rendering.
pub proof fn lemma_decode_render_total(word: u64)
    ensures
        render_spec(decode_spec(word)).len() > 0,
{
    lemma_render_nonempty(decode_spec(word));
}

/// The sentinel marks exactly the illegal field combinations: a legal record
/// renders as statement lines opened by a line break, which the sentinel
/// never is.
pub proof fn lemma_sentinel_iff_illegal(d: DecodedInstruction)
    ensures
        instruction_legal(d) ==> render_spec(d)[0] == '\n',
        render_spec(d) == undefined_behavior_text() <==> !instruction_legal(d),
{
    reveal_strlit("Undefined Behavior");
    lemma_render_nonempty(d);
    if instruction_legal(d) {
        reveal_strlit("\n");
        reveal_strlit("jump comm pc += ");
        reveal_strlit("jump abs pc = ");
        reveal_strlit("jump rel pc += ");
        reveal_strlit("jump rel cond pc += (1 - ");
        let s1 = append_stmt(Seq::<char>::empty(), crate::render::opcode_stmt_spec(d));
        assert(s1.len() > 0 ==> s1[0] == '\n');
        let s2 = append_stmt(s1, pc_stmt_spec(d));
        assert(pc_stmt_spec(d).len() > 0);
        assert(s2.len() > 0 && s2[0] == '\n');
        let s3 = append_stmt(s2, crate::render::fp_stmt_spec(d));
        assert(s3.len() > 0 && s3[0] == '\n');
        let s4 = append_stmt(s3, crate::render::ap_stmt_spec(d));
        assert(s4.len() > 0 && s4[0] == '\n');
        assert(undefined_behavior_text()[0] == 'U');
    }
}

/// Decoding the same word twice yields field-for-field identical records.
pub proof fn lemma_decode_deterministic(
    word: u64,
    first: DecodedInstruction,
    second: DecodedInstruction,
)
    requires
        first == decode_spec(word),
        second == decode_spec(word),
    ensures
        first == second,
        first.off_dst == second.off_dst,
        first.off_op0 == second.off_op0,
        first.off_op1 == second.off_op1,
        first.dst_reg == second.dst_reg,
        first.op0_reg == second.op0_reg,
        first.op1_src == second.op1_src,
        first.res_logic == second.res_logic,
        first.pc_update == second.pc_update,
        first.ap_update == second.ap_update,
        first.opcode == second.opcode,
{
}

/// Rendering the same record twice yields identical text.
pub proof fn lemma_render_deterministic(d: DecodedInstruction, first: Seq<char>, second: Seq<char>)
    requires
        first == render_spec(d),
        second == render_spec(d),
    ensures
        first == second,
{
}

/// An undefined op1 addressing mode renders as the sentinel.
pub proof fn lemma_ub_op1_src(d: DecodedInstruction)
    requires
        d.op1_src == 3 || d.op1_src == 5 || d.op1_src == 6 || d.op1_src == 7,
    ensures
        render_spec(d) == undefined_behavior_text(),
{
}

/// A conditional jump with a computed result logic renders as the sentinel.
pub proof fn lemma_ub_jnz_res_logic(d: DecodedInstruction)
    requires
        d.pc_update == 4,
        d.res_logic == 2 || d.res_logic == 3,
    ensures
        render_spec(d) == undefined_behavior_text(),
{
}

/// The undefined pc update mode renders as the sentinel.
pub proof fn lemma_ub_pc_update(d: DecodedInstruction)
    requires
        d.pc_update == 3,
    ensures
        render_spec(d) == undefined_behavior_text(),
{
}

/// The undefined ap update mode renders as the sentinel, under every opcode.
pub proof fn lemma_ub_ap_update(d: DecodedInstruction)
    requires
        d.ap_update == 3,
    ensures
        render_spec(d) == undefined_behavior_text(),
{
}

/// An undefined opcode renders as the sentinel.
pub proof fn lemma_ub_opcode(d: DecodedInstruction)
    requires
        d.opcode == 3 || d.opcode == 5 || d.opcode == 6 || d.opcode == 7,
    ensures
        render_spec(d) == undefined_behavior_text(),
{
}

/// A call is legal only with the fixed ap update: any other ap update under
/// the call opcode renders as the sentinel.
pub proof fn lemma_call_legality(d: DecodedInstruction)
    requires
        d.opcode == 1,
        d.ap_update != 0,
    ensures
        render_spec(d) == undefined_behavior_text(),
{
}

/// A conditional jump is legal only with an uncomputed result, the plain
/// opcode, and no result-sized ap update: any other combination renders as
/// the sentinel.
pub proof fn lemma_jnz_legality(d: DecodedInstruction)
    requires
        d.pc_update == 4,
        !(d.res_logic == 0 && d.opcode == 0 && d.ap_update != 1),
    ensures
        render_spec(d) == undefined_behavior_text(),
{
}

} // verus!

//! Rendering a decoded instruction as assembly-like text.
//!
//! Rendering is a staged decision procedure over the ten fields: operand
//! address expressions, the result expression, the destination expression, the
//! program-counter update, and the opcode class with its frame- and
//! stack-pointer updates. Any illegal field combination renders as the fixed
//! sentinel `"Undefined Behavior"`; the one legal conditional-jump case marks
//! its result `"Unused"`.

use vstd::prelude::*;
use vstd::string::StringExecFns;
use crate::instruction::DecodedInstruction;
use crate::numeral::{dec_rep, dec_u16};

verus! {

/// The sentinel text for an illegal field combination.
pub open spec fn undefined_behavior_text() -> Seq<char> {
    "Undefined Behavior"@
}

/// The suffix a signed offset contributes to an address expression:
/// `" - k"` for a negative value, nothing for zero, `" + k"` for a positive one.
pub open spec fn suffix_spec(n: i16) -> Seq<char> {
    if n < 0 {
        " - "@ + dec_rep((-(n as int)) as nat)
    } else if n == 0 {
        Seq::<char>::empty()
    } else {
        " + "@ + dec_rep(n as nat)
    }
}

/// A register-based address expression: `[ap<suffix>]` or `[fp<suffix>]`.
pub open spec fn base_expr_spec(reg: u8, off: i16) -> Seq<char> {
    (if reg == 0 {
        "[ap"@
    } else {
        "[fp"@
    }) + suffix_spec(off) + "]"@
}

/// The address expression of operand op0.
pub open spec fn op0_expr_spec(d: DecodedInstruction) -> Seq<char> {
    base_expr_spec(d.op0_reg, d.off_op0)
}

/// The address expression of the destination operand.
pub open spec fn dst_expr_spec(d: DecodedInstruction) -> Seq<char> {
    base_expr_spec(d.dst_reg, d.off_dst)
}

/// Whether the op1 addressing mode is a defined encoding.
pub open spec fn op1_src_legal(d: DecodedInstruction) -> bool {
    d.op1_src == 0 || d.op1_src == 1 || d.op1_src == 2 || d.op1_src == 4
}

/// How many words the instruction occupies: two with an immediate operand,
/// one otherwise.
pub open spec fn instruction_size_spec(d: DecodedInstruction) -> u16 {
    if d.op1_src == 1 {
        2
    } else {
        1
    }
}

/// The address expression of operand op1, for the defined addressing modes.
pub open spec fn op1_expr_spec(d: DecodedInstruction) -> Seq<char> {
    if d.op1_src == 0 {
        "["@ + op0_expr_spec(d) + suffix_spec(d.off_op1) + "]"@
    } else if d.op1_src == 1 {
        "[pc"@ + suffix_spec(d.off_op1) + "]"@
    } else if d.op1_src == 2 {
        "[fp"@ + suffix_spec(d.off_op1) + "]"@
    } else {
        "[ap"@ + suffix_spec(d.off_op1) + "]"@
    }
}

/// Whether the result stage accepts the field combination: a conditional jump
/// demands an uncomputed result with a plain opcode and no result-sized ap
/// update; the other defined pc modes demand a defined result logic.
pub open spec fn res_legal(d: DecodedInstruction) -> bool {
    if d.pc_update == 4 {
        d.res_logic == 0 && d.opcode == 0 && d.ap_update != 1
    } else if d.pc_update == 0 || d.pc_update == 1 || d.pc_update == 2 {
        d.res_logic == 0 || d.res_logic == 1 || d.res_logic == 2
    } else {
        false
    }
}

/// The result expression, for combinations the result stage accepts.
pub open spec fn res_expr_spec(d: DecodedInstruction) -> Seq<char> {
    if d.pc_update == 4 {
        "Unused"@
    } else if d.res_logic == 0 {
        op1_expr_spec(d)
    } else if d.res_logic == 1 {
        op0_expr_spec(d) + " + "@ + op1_expr_spec(d)
    } else {
        op0_expr_spec(d) + " * "@ + op1_expr_spec(d)
    }
}

/// The program-counter update statement, for the defined pc modes.
pub open spec fn pc_stmt_spec(d: DecodedInstruction) -> Seq<char> {
    if d.pc_update == 0 {
        "jump comm pc += "@ + dec_rep(instruction_size_spec(d) as nat)
    } else if d.pc_update == 1 {
        "jump abs pc = "@ + res_expr_spec(d)
    } else if d.pc_update == 2 {
        "jump rel pc += "@ + res_expr_spec(d)
    } else {
        "jump rel cond pc += (1 - "@ + dst_expr_spec(d) + ") * "@ + dec_rep(
            instruction_size_spec(d) as nat,
        ) + " + "@ + dst_expr_spec(d) + " * "@ + op1_expr_spec(d)
    }
}

/// Whether the opcode stage accepts the field combination: a call fixes the
/// ap update, the other defined opcodes take any defined ap update.
pub open spec fn opcode_legal(d: DecodedInstruction) -> bool {
    if d.opcode == 1 {
        d.ap_update == 0
    } else if d.opcode == 0 || d.opcode == 2 || d.opcode == 4 {
        d.ap_update == 0 || d.ap_update == 1 || d.ap_update == 2
    } else {
        false
    }
}

/// The opcode statement: `call`, `ret`, an assertion of equality, or nothing.
pub open spec fn opcode_stmt_spec(d: DecodedInstruction) -> Seq<char> {
    if d.opcode == 1 {
        "call"@
    } else if d.opcode == 2 {
        "ret"@
    } else if d.opcode == 4 {
        "assert equal "@ + res_expr_spec(d) + " = "@ + dst_expr_spec(d)
    } else {
        Seq::<char>::empty()
    }
}

/// The frame-pointer update statement, where the opcode produces one.
pub open spec fn fp_stmt_spec(d: DecodedInstruction) -> Seq<char> {
    if d.opcode == 1 {
        "fp = ap + 2"@
    } else if d.opcode == 2 {
        "fp = "@ + dst_expr_spec(d)
    } else {
        Seq::<char>::empty()
    }
}

/// The stack-pointer update statement, where the fields produce one.
pub open spec fn ap_stmt_spec(d: DecodedInstruction) -> Seq<char> {
    if d.opcode == 1 {
        "ap += 2"@
    } else if d.ap_update == 1 {
        "ap += "@ + res_expr_spec(d)
    } else if d.ap_update == 2 {
        "ap += 1"@
    } else {
        Seq::<char>::empty()
    }
}

/// Whether every rendering stage accepts the field combination.
pub open spec fn instruction_legal(d: DecodedInstruction) -> bool {
    op1_src_legal(d) && res_legal(d) && opcode_legal(d)
}

/// Appends one statement to the accumulated text: a non-empty statement gets
/// its own line, opened by a line break and closed by a semicolon; an empty
/// one contributes nothing.
pub open spec fn append_stmt(acc: Seq<char>, stmt: Seq<char>) -> Seq<char> {
    if stmt.len() == 0 {
        acc
    } else {
        acc + "\n"@ + stmt + ";"@
    }
}

/// The assembled text of a legal instruction: opcode statement, pc update,
/// fp update, ap update, in that fixed order.
pub open spec fn assembled_spec(d: DecodedInstruction) -> Seq<char> {
    append_stmt(
        append_stmt(
            append_stmt(append_stmt(Seq::<char>::empty(), opcode_stmt_spec(d)), pc_stmt_spec(d)),
            fp_stmt_spec(d),
        ),
        ap_stmt_spec(d),
    )
}

/// What rendering a record yields: its assembled text where every stage
/// accepts the fields, the sentinel otherwise.
pub open spec fn render_spec(d: DecodedInstruction) -> Seq<char> {
    if instruction_legal(d) {
        assembled_spec(d)
    } else {
        undefined_behavior_text()
    }
}

impl DecodedInstruction {
    /// Builds a register-based address expression.
    fn base_expr(reg: u8, off: i16) -> (s: String)
        ensures
            s@ == base_expr_spec(reg, off),
    {
        let mut s = String::from_str(
            if reg == 0 {
                "[ap"
            } else {
                "[fp"
            },
        );
        s.append(Self::transform_number_to_computation_string(off).as_str());
        s.append("]");
        s
    }

    /// Renders the suffix a signed offset contributes to an address expression.
    pub fn transform_number_to_computation_string(num: i16) -> (s: String)
        ensures
            s@ == suffix_spec(num),
    {
        if num < 0 {
            let mag: u16 = (-(num as i32)) as u16;
            let mut s = String::from_str(" - ");
            s.append(dec_u16(mag).as_str());
            s
        } else if num == 0 {
            String::new()
        } else {
            let mut s = String::from_str(" + ");
            s.append(dec_u16(num as u16).as_str());
            s
        }
    }

    /// Renders the record as assembly-like text: one statement per line, each
    /// opened by a line break and closed by a semicolon, in the fixed order
    /// opcode statement, pc update, fp update, ap update. Any illegal field
    /// combination yields the sentinel `"Undefined Behavior"` instead.
    pub fn to_string(&self) -> (s: String)
        ensures
            s@ == render_spec(*self),
    {
        let d = *self;

        // determine op0
        let op0_str = Self::base_expr(d.op0_reg, d.off_op0);

        // determine op1 and the instruction size
        let (instruction_size, op1_str): (u16, String) = match d.op1_src {
            0 => {
                let mut t = String::from_str("[");
                t.append(op0_str.as_str());
                t.append(Self::transform_number_to_computation_string(d.off_op1).as_str());
                t.append("]");
                (1, t)
            },
            1 => {
                let mut t = String::from_str("[pc");
                t.append(Self::transform_number_to_computation_string(d.off_op1).as_str());
                t.append("]");
                (2, t)
            },
            2 => {
                let mut t = String::from_str("[fp");
                t.append(Self::transform_number_to_computation_string(d.off_op1).as_str());
                t.append("]");
                (1, t)
            },
            4 => {
                let mut t = String::from_str("[ap");
                t.append(Self::transform_number_to_computation_string(d.off_op1).as_str());
                t.append("]");
                (1, t)
            },
            _ => {
                return String::from_str("Undefined Behavior");
            },
        };

        // determine res
        let res_str: String = if d.pc_update == 4 {
            if d.res_logic == 0 && d.opcode == 0 && d.ap_update != 1 {
                String::from_str("Unused")
            } else {
                return String::from_str("Undefined Behavior");
            }
        } else if d.pc_update == 0 || d.pc_update == 1 || d.pc_update == 2 {
            match d.res_logic {
                0 => op1_str.clone(),
                1 => {
                    let mut t = op0_str.clone();
                    t.append(" + ");
                    t.append(op1_str.as_str());
                    t
                },
                2 => {
                    let mut t = op0_str.clone();
                    t.append(" * ");
                    t.append(op1_str.as_str());
                    t
                },
                _ => {
                    return String::from_str("Undefined Behavior");
                },
            }
        } else {
            return String::from_str("Undefined Behavior");
        };

        // determine dst
        let dst_str = Self::base_expr(d.dst_reg, d.off_dst);

        // determine the next pc
        let pc_str: String = match d.pc_update {
            0 => {
                let mut t = String::from_str("jump comm pc += ");
                t.append(dec_u16(instruction_size).as_str());
                t
            },
            1 => {
                let mut t = String::from_str("jump abs pc = ");
                t.append(res_str.as_str());
                t
            },
            2 => {
                let mut t = String::from_str("jump rel pc += ");
                t.append(res_str.as_str());
                t
            },
            4 => {
                let mut t = String::from_str("jump rel cond pc += (1 - ");
                t.append(dst_str.as_str());
                t.append(") * ");
                t.append(dec_u16(instruction_size).as_str());
                t.append(" + ");
                t.append(dst_str.as_str());
                t.append(" * ");
                t.append(op1_str.as_str());
                t
            },
            _ => {
                return String::from_str("Undefined Behavior");
            },
        };

        // determine the new values of ap and fp from the opcode
        let (opcode_str, fp_str, ap_str): (String, String, String) = if d.opcode == 1 {
            match d.ap_update {
                0 => (
                    String::from_str("call"),
                    String::from_str("fp = ap + 2"),
                    String::from_str("ap += 2"),
                ),
                _ => {
                    return String::from_str("Undefined Behavior");
                },
            }
        } else if d.opcode == 0 || d.opcode == 2 || d.opcode == 4 {
            let ap_s: String = match d.ap_update {
                0 => String::new(),
                1 => {
                    let mut t = String::from_str("ap += ");
                    t.append(res_str.as_str());
                    t
                },
                2 => String::from_str("ap += 1"),
                _ => {
                    return String::from_str("Undefined Behavior");
                },
            };
            match d.opcode {
                0 => (String::new(), String::new(), ap_s),
                2 => {
                    let mut f = String::from_str("fp = ");
                    f.append(dst_str.as_str());
                    (String::from_str("ret"), f, ap_s)
                },
                4 => {
                    let mut o = String::from_str("assert equal ");
                    o.append(res_str.as_str());
                    o.append(" = ");
                    o.append(dst_str.as_str());
                    (o, String::new(), ap_s)
                },
                _ => {
                    return String::from_str("Undefined Behavior");
                },
            }
        } else {
            return String::from_str("Undefined Behavior");
        };

        let mut returned_string = String::new();
        if !opcode_str.as_str().is_empty() {
            returned_string.append("\n");
            returned_string.append(opcode_str.as_str());
            returned_string.append(";");
        }
        if !pc_str.as_str().is_empty() {
            returned_string.append("\n");
            returned_string.append(pc_str.as_str());
            returned_string.append(";");
        }
        if !fp_str.as_str().is_empty() {
            returned_string.append("\n");
            returned_string.append(fp_str.as_str());
            returned_string.append(";");
        }
        if !ap_str.as_str().is_empty() {
            returned_string.append("\n");
            returned_string.append(ap_str.as_str());
            returned_string.append(";");
        }
        returned_string
    }
}

} // verus!

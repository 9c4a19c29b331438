use vstd::prelude::*;

verus! {

/// Instruction group field `x`: bits 7-6 of the opcode byte.
pub open spec fn op_x(op: u8) -> u8 {
    op / 64
}

/// Selector field `y`: bits 5-3 of the opcode byte.
pub open spec fn op_y(op: u8) -> u8 {
    (op / 8) % 8
}

/// Secondary selector field `z`: bits 2-0 of the opcode byte.
pub open spec fn op_z(op: u8) -> u8 {
    op % 8
}

/// Register-pair selector field `p`: bits 5-4 of the opcode byte, the top
/// two bits of `y`.
pub open spec fn op_p(op: u8) -> u8 {
    (op / 16) % 4
}

/// Variant selector field `q`: bit 3 of the opcode byte, the low bit of `y`.
pub open spec fn op_q(op: u8) -> u8 {
    (op / 8) % 2
}

/// The field values always fall in their documented ranges, an opcode byte
/// is exactly determined by (x, y, z), and p and q are the two halves of y.
pub proof fn lemma_opcode_fields(op: u8)
    ensures
        op_x(op) < 4,
        op_y(op) < 8,
        op_z(op) < 8,
        op_p(op) < 4,
        op_q(op) < 2,
        op == 64 * op_x(op) + 8 * op_y(op) + op_z(op),
        op_y(op) == 2 * op_p(op) + op_q(op),
{
    assert(op / 64 < 4 && (op / 8) % 8 < 8 && (op / 16) % 4 < 4 && op == 64 * (op / 64) + 8 * ((op / 8) % 8)
        + op % 8 && (op / 8) % 8 == 2 * ((op / 16) % 4) + (op / 8) % 2) by (nonlinear_arith)
        requires
            op < 256,
    ;
}

/// The structural fields of one opcode byte, decomposed as the instruction
/// map defines them: `x` selects the instruction group, `y` and `z` select
/// registers, conditions or operations inside the group, and `p`/`q` split
/// `y` for the register-pair forms.
pub struct OpcodeBits {
    pub x: u8,
    pub y: u8,
    pub z: u8,
    pub p: u8,
    pub q: u8,
}

impl OpcodeBits {
    /// Decomposes an opcode byte into its five structural fields.
    pub fn from(op: u8) -> (r: OpcodeBits)
        ensures
            r.x == op_x(op),
            r.y == op_y(op),
            r.z == op_z(op),
            r.p == op_p(op),
            r.q == op_q(op),
            r.x < 4,
            r.y < 8,
            r.z < 8,
            r.p < 4,
            r.q < 2,
    {
        proof {
            lemma_opcode_fields(op);
        }
        OpcodeBits {
            x: op / 64,
            y: (op / 8) % 8,
            z: op % 8,
            p: (op / 16) % 4,
            q: (op / 8) % 2,
        }
    }
}

/// Decomposes an opcode byte into the tuple (x, y, z, p, q). The execution
/// dispatch and the disassembler both decode through this single transform,
/// so the two can never classify an opcode differently.
pub fn extract_x_y_z_p_q(opcode: u8) -> (r: (u8, u8, u8, u8, u8))
    ensures
        r.0 == op_x(opcode),
        r.1 == op_y(opcode),
        r.2 == op_z(opcode),
        r.3 == op_p(opcode),
        r.4 == op_q(opcode),
{
    let bits = OpcodeBits::from(opcode);
    (bits.x, bits.y, bits.z, bits.p, bits.q)
}

} // verus!

use vstd::prelude::*;
use crate::opcode::{OpcodeBits, op_p, op_q, op_x, op_y, op_z, lemma_opcode_fields};
use crate::alu::signed8;

verus! {

/// The lowercase hexadecimal digit for a value below 16.
pub open spec fn hex_digit(d: int) -> char {
    if d == 0 {
        '0'
    } else if d == 1 {
        '1'
    } else if d == 2 {
        '2'
    } else if d == 3 {
        '3'
    } else if d == 4 {
        '4'
    } else if d == 5 {
        '5'
    } else if d == 6 {
        '6'
    } else if d == 7 {
        '7'
    } else if d == 8 {
        '8'
    } else if d == 9 {
        '9'
    } else if d == 10 {
        'a'
    } else if d == 11 {
        'b'
    } else if d == 12 {
        'c'
    } else if d == 13 {
        'd'
    } else if d == 14 {
        'e'
    } else {
        'f'
    }
}

/// The minimal-width lowercase hexadecimal text of a non-negative value.
pub open spec fn hex_seq(n: int) -> Seq<char>
    decreases n,
{
    if n < 16 {
        seq![hex_digit(n)]
    } else {
        hex_seq(n / 16) + seq![hex_digit(n % 16)]
    }
}

/// The minimal-width decimal text of a non-negative value.
pub open spec fn dec_seq(n: int) -> Seq<char>
    decreases n,
{
    if n < 10 {
        seq![hex_digit(n)]
    } else {
        dec_seq(n / 10) + seq![hex_digit(n % 10)]
    }
}

/// The decimal text of a signed value, with a leading minus when negative.
pub open spec fn sdec_seq(v: int) -> Seq<char> {
    if v < 0 {
        seq!['-'] + dec_seq(-v)
    } else {
        dec_seq(v)
    }
}

/// One digit as text, shared by the hexadecimal and decimal writers.
fn digit_str(d: u8) -> (r: &'static str)
    requires
        d < 16,
    ensures
        r@ == seq![hex_digit(d as int)],
{
    proof {
        reveal_strlit("0");
        reveal_strlit("1");
        reveal_strlit("2");
        reveal_strlit("3");
        reveal_strlit("4");
        reveal_strlit("5");
        reveal_strlit("6");
        reveal_strlit("7");
        reveal_strlit("8");
        reveal_strlit("9");
        reveal_strlit("a");
        reveal_strlit("b");
        reveal_strlit("c");
        reveal_strlit("d");
        reveal_strlit("e");
        reveal_strlit("f");
    }
    let r: &'static str = match d {
        0 => "0",
        1 => "1",
        2 => "2",
        3 => "3",
        4 => "4",
        5 => "5",
        6 => "6",
        7 => "7",
        8 => "8",
        9 => "9",
        10 => "a",
        11 => "b",
        12 => "c",
        13 => "d",
        14 => "e",
        _ => "f",
    };
    proof {
        assert(r@ =~= seq![hex_digit(d as int)]);
    }
    r
}

/// Writes a value in minimal-width lowercase hexadecimal.
pub fn hex16(n: u16) -> (s: String)
    ensures
        s@ == hex_seq(n as int),
    decreases n,
{
    if n < 16 {
        String::from_str(digit_str(n as u8))
    } else {
        proof {
            assert(0 < n / 16 < n) by (nonlinear_arith)
                requires
                    16 <= n < 65536,
            ;
        }
        let mut s = hex16(n / 16);
        s.append(digit_str((n % 16) as u8));
        s
    }
}

/// Writes a value in minimal-width decimal.
pub fn dec16(n: u16) -> (s: String)
    ensures
        s@ == dec_seq(n as int),
    decreases n,
{
    if n < 10 {
        String::from_str(digit_str(n as u8))
    } else {
        proof {
            assert(0 < n / 10 < n) by (nonlinear_arith)
                requires
                    10 <= n < 65536,
            ;
        }
        let mut s = dec16(n / 10);
        s.append(digit_str((n % 10) as u8));
        s
    }
}

/// Writes an 8-bit immediate as the signed decimal displacement it encodes.
pub fn sdec8(e: u8) -> (s: String)
    ensures
        s@ == sdec_seq(signed8(e)),
{
    if e < 128 {
        dec16(e as u16)
    } else {
        proof {
            reveal_strlit("-");
            assert("-"@ =~= seq!['-']);
        }
        let mut s = String::from_str("-");
        s.append(dec16(256 - e as u16).as_str());
        s
    }
}

/// The operand name selected by a register field: B, C, D, E, H, L,
/// memory at HL, A, in the fixed opcode order.
pub open spec fn spec_reg_name(i: u8) -> Seq<char> {
    if i == 0 {
        "b"@
    } else if i == 1 {
        "c"@
    } else if i == 2 {
        "d"@
    } else if i == 3 {
        "e"@
    } else if i == 4 {
        "h"@
    } else if i == 5 {
        "l"@
    } else if i == 6 {
        "(hl)"@
    } else {
        "a"@
    }
}

/// The name of the 8-bit register (or memory-at-HL) operand `i`.
pub fn reg_name(i: u8) -> (r: &'static str)
    requires
        i < 8,
    ensures
        r@ == spec_reg_name(i),
{
    match i {
        0 => "b",
        1 => "c",
        2 => "d",
        3 => "e",
        4 => "h",
        5 => "l",
        6 => "(hl)",
        _ => "a",
    }
}

/// The register-pair name of the general pair table: BC, DE, HL, SP.
pub open spec fn spec_pair_name(i: u8) -> Seq<char> {
    if i == 0 {
        "bc"@
    } else if i == 1 {
        "de"@
    } else if i == 2 {
        "hl"@
    } else {
        "sp"@
    }
}

/// The name of general-table register pair `i`.
pub fn pair_name(i: u8) -> (r: &'static str)
    requires
        i < 4,
    ensures
        r@ == spec_pair_name(i),
{
    match i {
        0 => "bc",
        1 => "de",
        2 => "hl",
        _ => "sp",
    }
}

/// The register-pair name of the push/pop table: BC, DE, HL, AF.
pub open spec fn spec_pair_stack_name(i: u8) -> Seq<char> {
    if i == 0 {
        "bc"@
    } else if i == 1 {
        "de"@
    } else if i == 2 {
        "hl"@
    } else {
        "af"@
    }
}

/// The name of push/pop-table register pair `i`.
pub fn pair_stack_name(i: u8) -> (r: &'static str)
    requires
        i < 4,
    ensures
        r@ == spec_pair_stack_name(i),
{
    match i {
        0 => "bc",
        1 => "de",
        2 => "hl",
        _ => "af",
    }
}

/// The condition suffix: NZ, Z, NC, C in the fixed opcode order.
pub open spec fn spec_cond_name(i: u8) -> Seq<char> {
    if i == 0 {
        "nz"@
    } else if i == 1 {
        "z"@
    } else if i == 2 {
        "nc"@
    } else {
        "c"@
    }
}

/// The name of condition `i`.
pub fn cond_name(i: u8) -> (r: &'static str)
    requires
        i < 4,
    ensures
        r@ == spec_cond_name(i),
{
    match i {
        0 => "nz",
        1 => "z",
        2 => "nc",
        _ => "c",
    }
}

/// The ALU-group mnemonic head selected by opcode field `y`.
pub open spec fn spec_alu_name(i: u8) -> Seq<char> {
    if i == 0 {
        "add a,"@
    } else if i == 1 {
        "adc a,"@
    } else if i == 2 {
        "sub"@
    } else if i == 3 {
        "sbc a,"@
    } else if i == 4 {
        "and"@
    } else if i == 5 {
        "xor"@
    } else if i == 6 {
        "or"@
    } else {
        "cp"@
    }
}

/// The ALU mnemonic head for operation `i`.
pub fn alu_name(i: u8) -> (r: &'static str)
    requires
        i < 8,
    ensures
        r@ == spec_alu_name(i),
{
    match i {
        0 => "add a,",
        1 => "adc a,",
        2 => "sub",
        3 => "sbc a,",
        4 => "and",
        5 => "xor",
        6 => "or",
        _ => "cp",
    }
}

/// The CB-prefixed rotate/shift mnemonic selected by field `y`.
pub open spec fn spec_rot_name(i: u8) -> Seq<char> {
    if i == 0 {
        "rlc"@
    } else if i == 1 {
        "rrc"@
    } else if i == 2 {
        "rl"@
    } else if i == 3 {
        "rr"@
    } else if i == 4 {
        "sla"@
    } else if i == 5 {
        "sra"@
    } else if i == 6 {
        "swap"@
    } else {
        "srl"@
    }
}

/// The rotate/shift mnemonic for operation `i`.
pub fn rot_name(i: u8) -> (r: &'static str)
    requires
        i < 8,
    ensures
        r@ == spec_rot_name(i),
{
    match i {
        0 => "rlc",
        1 => "rrc",
        2 => "rl",
        3 => "rr",
        4 => "sla",
        5 => "sra",
        6 => "swap",
        _ => "srl",
    }
}

/// The 16-bit immediate encoded little-endian in the two bytes after an
/// opcode.
pub open spec fn imm16v(b1: u8, b2: u8) -> u16 {
    (b1 + 256 * b2) as u16
}

/// The mnemonic and length of an instruction group x = 0 opcode.
pub open spec fn spec_disas_x0(b0: u8, b1: u8, b2: u8) -> (Seq<char>, u8) {
    let y = op_y(b0);
    let z = op_z(b0);
    let p = op_p(b0);
    let q = op_q(b0);
    if z == 0 {
        if y == 0 {
            ("nop"@, 1u8)
        } else if y == 1 {
            ("ld (0x"@ + hex_seq(imm16v(b1, b2) as int) + "), sp"@, 3u8)
        } else if y == 2 {
            ("stop"@, 1u8)
        } else if y == 3 {
            ("jr "@ + sdec_seq(signed8(b1)), 2u8)
        } else {
            ("jr "@ + spec_cond_name((y - 4) as u8) + " "@ + sdec_seq(signed8(b1)), 2u8)
        }
    } else if z == 1 {
        if q == 0 {
            ("ld "@ + spec_pair_name(p) + ", 0x"@ + hex_seq(imm16v(b1, b2) as int), 3u8)
        } else {
            ("add hl, "@ + spec_pair_name(p), 1u8)
        }
    } else if z == 2 {
        if q == 0 {
            if p == 0 {
                ("ld (bc), a"@, 1u8)
            } else if p == 1 {
                ("ld (de), a"@, 1u8)
            } else if p == 2 {
                ("ld (hl+), a"@, 1u8)
            } else {
                ("ld (hl-), a"@, 1u8)
            }
        } else {
            if p == 0 {
                ("ld a, (bc)"@, 1u8)
            } else if p == 1 {
                ("ld a, (de)"@, 1u8)
            } else if p == 2 {
                ("ld a, (hl+)"@, 1u8)
            } else {
                ("ld a, (hl-)"@, 1u8)
            }
        }
    } else if z == 3 {
        if q == 0 {
            ("inc "@ + spec_pair_name(p), 1u8)
        } else {
            ("dec "@ + spec_pair_name(p), 1u8)
        }
    } else if z == 4 {
        ("inc "@ + spec_reg_name(y), 1u8)
    } else if z == 5 {
        ("dec "@ + spec_reg_name(y), 1u8)
    } else if z == 6 {
        ("ld "@ + spec_reg_name(y) + ", 0x"@ + hex_seq(b1 as int), 2u8)
    } else {
        if y == 0 {
            ("rlca"@, 1u8)
        } else if y == 1 {
            ("rrca"@, 1u8)
        } else if y == 2 {
            ("rla"@, 1u8)
        } else if y == 3 {
            ("rra"@, 1u8)
        } else if y == 4 {
            ("daa"@, 1u8)
        } else if y == 5 {
            ("cpl"@, 1u8)
        } else if y == 6 {
            ("scf"@, 1u8)
        } else {
            ("ccf"@, 1u8)
        }
    }
}

/// The mnemonic and length of a CB-prefixed opcode, decoded from the byte
/// after the prefix; the length covers the prefix byte too.
pub open spec fn spec_disas_cb(b1: u8) -> (Seq<char>, u8) {
    let x = op_x(b1);
    let y = op_y(b1);
    let z = op_z(b1);
    if x == 0 {
        (spec_rot_name(y) + " "@ + spec_reg_name(z), 2u8)
    } else if x == 1 {
        ("bit "@ + dec_seq(y as int) + ", "@ + spec_reg_name(z), 2u8)
    } else if x == 2 {
        ("res "@ + dec_seq(y as int) + ", "@ + spec_reg_name(z), 2u8)
    } else {
        ("set "@ + dec_seq(y as int) + ", "@ + spec_reg_name(z), 2u8)
    }
}

/// The mnemonic and length of an instruction group x = 3 opcode. The
/// undefined slots of the opcode map resolve to the explicit
/// "undefined opcode" label of length one.
pub open spec fn spec_disas_x3(b0: u8, b1: u8, b2: u8) -> (Seq<char>, u8) {
    let y = op_y(b0);
    let z = op_z(b0);
    let p = op_p(b0);
    let q = op_q(b0);
    if z == 0 {
        if y <= 3 {
            ("ret "@ + spec_cond_name(y), 1u8)
        } else if y == 4 {
            ("ld 0xff00+0x"@ + hex_seq(b1 as int) + ", a"@, 2u8)
        } else if y == 5 {
            ("add sp, "@ + sdec_seq(signed8(b1)), 2u8)
        } else if y == 6 {
            ("ld a, 0xff00+0x"@ + hex_seq(b1 as int), 2u8)
        } else {
            ("ld hl, sp+"@ + sdec_seq(signed8(b1)), 2u8)
        }
    } else if z == 1 {
        if q == 0 {
            ("pop "@ + spec_pair_stack_name(p), 1u8)
        } else if p == 0 {
            ("ret"@, 1u8)
        } else if p == 1 {
            ("reti"@, 1u8)
        } else if p == 2 {
            ("jp (hl)"@, 1u8)
        } else {
            ("ld sp, hl"@, 1u8)
        }
    } else if z == 2 {
        if y <= 3 {
            ("jp "@ + spec_cond_name(y) + " 0x"@ + hex_seq(imm16v(b1, b2) as int), 3u8)
        } else if y == 4 {
            ("ld (0xff00+c), a"@, 1u8)
        } else if y == 5 {
            ("ld (0x"@ + hex_seq(imm16v(b1, b2) as int) + "), a"@, 3u8)
        } else if y == 6 {
            ("ld a, (0xff00+c)"@, 1u8)
        } else {
            ("ld a, (0x"@ + hex_seq(imm16v(b1, b2) as int) + ")"@, 3u8)
        }
    } else if z == 3 {
        if y == 0 {
            ("jp 0x"@ + hex_seq(imm16v(b1, b2) as int), 3u8)
        } else if y == 1 {
            spec_disas_cb(b1)
        } else if y == 6 {
            ("di"@, 1u8)
        } else if y == 7 {
            ("ei"@, 1u8)
        } else {
            ("undefined opcode"@, 1u8)
        }
    } else if z == 4 {
        if y <= 3 {
            ("call "@ + spec_cond_name(y) + " 0x"@ + hex_seq(imm16v(b1, b2) as int), 3u8)
        } else {
            ("undefined opcode"@, 1u8)
        }
    } else if z == 5 {
        if q == 0 {
            ("push "@ + spec_pair_stack_name(p), 1u8)
        } else if p == 0 {
            ("call 0x"@ + hex_seq(imm16v(b1, b2) as int), 3u8)
        } else {
            ("undefined opcode"@, 1u8)
        }
    } else if z == 6 {
        (spec_alu_name(y) + " 0x"@ + hex_seq(b1 as int), 2u8)
    } else {
        ("rst 0x"@ + hex_seq(8 * y), 1u8)
    }
}

/// The mnemonic text and instruction length of the opcode in `b0`, with
/// `b1` and `b2` the bytes that follow it. Every base opcode and every
/// CB-prefixed opcode resolves to a specific mnemonic; only the undefined
/// slots of the map resolve to the "undefined opcode" label.
pub open spec fn spec_disassemble(b0: u8, b1: u8, b2: u8) -> (Seq<char>, u8) {
    let x = op_x(b0);
    let y = op_y(b0);
    let z = op_z(b0);
    if x == 0 {
        spec_disas_x0(b0, b1, b2)
    } else if x == 1 {
        if y == 6 && z == 6 {
            ("halt"@, 1u8)
        } else {
            ("ld "@ + spec_reg_name(y) + ", "@ + spec_reg_name(z), 1u8)
        }
    } else if x == 2 {
        (spec_alu_name(y) + " "@ + spec_reg_name(z), 1u8)
    } else {
        spec_disas_x3(b0, b1, b2)
    }
}

/// Disassembles the instruction group x = 0.
fn disas_x0(bits: OpcodeBits, b0: u8, b1: u8, b2: u8) -> (r: (String, u8))
    requires
        bits.x == op_x(b0),
        bits.y == op_y(b0),
        bits.z == op_z(b0),
        bits.p == op_p(b0),
        bits.q == op_q(b0),
        bits.y < 8,
        bits.z < 8,
        bits.p < 4,
        bits.q < 2,
    ensures
        r.0@ == spec_disas_x0(b0, b1, b2).0,
        r.1 == spec_disas_x0(b0, b1, b2).1,
{
    let nn: u16 = b1 as u16 + 256 * (b2 as u16);
    if bits.z == 0 {
        if bits.y == 0 {
            (String::from_str("nop"), 1)
        } else if bits.y == 1 {
            let mut s = String::from_str("ld (0x");
            s.append(hex16(nn).as_str());
            s.append("), sp");
            (s, 3)
        } else if bits.y == 2 {
            (String::from_str("stop"), 1)
        } else if bits.y == 3 {
            let mut s = String::from_str("jr ");
            s.append(sdec8(b1).as_str());
            (s, 2)
        } else {
            let mut s = String::from_str("jr ");
            s.append(cond_name(bits.y - 4));
            s.append(" ");
            s.append(sdec8(b1).as_str());
            (s, 2)
        }
    } else if bits.z == 1 {
        if bits.q == 0 {
            let mut s = String::from_str("ld ");
            s.append(pair_name(bits.p));
            s.append(", 0x");
            s.append(hex16(nn).as_str());
            (s, 3)
        } else {
            let mut s = String::from_str("add hl, ");
            s.append(pair_name(bits.p));
            (s, 1)
        }
    } else if bits.z == 2 {
        if bits.q == 0 {
            if bits.p == 0 {
                (String::from_str("ld (bc), a"), 1)
            } else if bits.p == 1 {
                (String::from_str("ld (de), a"), 1)
            } else if bits.p == 2 {
                (String::from_str("ld (hl+), a"), 1)
            } else {
                (String::from_str("ld (hl-), a"), 1)
            }
        } else {
            if bits.p == 0 {
                (String::from_str("ld a, (bc)"), 1)
            } else if bits.p == 1 {
                (String::from_str("ld a, (de)"), 1)
            } else if bits.p == 2 {
                (String::from_str("ld a, (hl+)"), 1)
            } else {
                (String::from_str("ld a, (hl-)"), 1)
            }
        }
    } else if bits.z == 3 {
        if bits.q == 0 {
            let mut s = String::from_str("inc ");
            s.append(pair_name(bits.p));
            (s, 1)
        } else {
            let mut s = String::from_str("dec ");
            s.append(pair_name(bits.p));
            (s, 1)
        }
    } else if bits.z == 4 {
        let mut s = String::from_str("inc ");
        s.append(reg_name(bits.y));
        (s, 1)
    } else if bits.z == 5 {
        let mut s = String::from_str("dec ");
        s.append(reg_name(bits.y));
        (s, 1)
    } else if bits.z == 6 {
        let mut s = String::from_str("ld ");
        s.append(reg_name(bits.y));
        s.append(", 0x");
        s.append(hex16(b1 as u16).as_str());
        (s, 2)
    } else {
        if bits.y == 0 {
            (String::from_str("rlca"), 1)
        } else if bits.y == 1 {
            (String::from_str("rrca"), 1)
        } else if bits.y == 2 {
            (String::from_str("rla"), 1)
        } else if bits.y == 3 {
            (String::from_str("rra"), 1)
        } else if bits.y == 4 {
            (String::from_str("daa"), 1)
        } else if bits.y == 5 {
            (String::from_str("cpl"), 1)
        } else if bits.y == 6 {
            (String::from_str("scf"), 1)
        } else {
            (String::from_str("ccf"), 1)
        }
    }
}

/// Disassembles a CB-prefixed opcode from the byte after the prefix.
fn disas_cb(b1: u8) -> (r: (String, u8))
    ensures
        r.0@ == spec_disas_cb(b1).0,
        r.1 == spec_disas_cb(b1).1,
{
    let bits = OpcodeBits::from(b1);
    if bits.x == 0 {
        let mut s = String::from_str(rot_name(bits.y));
        s.append(" ");
        s.append(reg_name(bits.z));
        (s, 2)
    } else {
        let head: &'static str = if bits.x == 1 {
            "bit "
        } else if bits.x == 2 {
            "res "
        } else {
            "set "
        };
        let mut s = String::from_str(head);
        s.append(digit_str(bits.y));
        s.append(", ");
        s.append(reg_name(bits.z));
        (s, 2)
    }
}

/// Disassembles the instruction group x = 3.
fn disas_x3(bits: OpcodeBits, b0: u8, b1: u8, b2: u8) -> (r: (String, u8))
    requires
        bits.x == op_x(b0),
        bits.y == op_y(b0),
        bits.z == op_z(b0),
        bits.p == op_p(b0),
        bits.q == op_q(b0),
        bits.y < 8,
        bits.z < 8,
        bits.p < 4,
        bits.q < 2,
    ensures
        r.0@ == spec_disas_x3(b0, b1, b2).0,
        r.1 == spec_disas_x3(b0, b1, b2).1,
{
    let nn: u16 = b1 as u16 + 256 * (b2 as u16);
    if bits.z == 0 {
        if bits.y <= 3 {
            let mut s = String::from_str("ret ");
            s.append(cond_name(bits.y));
            (s, 1)
        } else if bits.y == 4 {
            let mut s = String::from_str("ld 0xff00+0x");
            s.append(hex16(b1 as u16).as_str());
            s.append(", a");
            (s, 2)
        } else if bits.y == 5 {
            let mut s = String::from_str("add sp, ");
            s.append(sdec8(b1).as_str());
            (s, 2)
        } else if bits.y == 6 {
            let mut s = String::from_str("ld a, 0xff00+0x");
            s.append(hex16(b1 as u16).as_str());
            (s, 2)
        } else {
            let mut s = String::from_str("ld hl, sp+");
            s.append(sdec8(b1).as_str());
            (s, 2)
        }
    } else if bits.z == 1 {
        if bits.q == 0 {
            let mut s = String::from_str("pop ");
            s.append(pair_stack_name(bits.p));
            (s, 1)
        } else if bits.p == 0 {
            (String::from_str("ret"), 1)
        } else if bits.p == 1 {
            (String::from_str("reti"), 1)
        } else if bits.p == 2 {
            (String::from_str("jp (hl)"), 1)
        } else {
            (String::from_str("ld sp, hl"), 1)
        }
    } else if bits.z == 2 {
        if bits.y <= 3 {
            let mut s = String::from_str("jp ");
            s.append(cond_name(bits.y));
            s.append(" 0x");
            s.append(hex16(nn).as_str());
            (s, 3)
        } else if bits.y == 4 {
            (String::from_str("ld (0xff00+c), a"), 1)
        } else if bits.y == 5 {
            let mut s = String::from_str("ld (0x");
            s.append(hex16(nn).as_str());
            s.append("), a");
            (s, 3)
        } else if bits.y == 6 {
            (String::from_str("ld a, (0xff00+c)"), 1)
        } else {
            let mut s = String::from_str("ld a, (0x");
            s.append(hex16(nn).as_str());
            s.append(")");
            (s, 3)
        }
    } else if bits.z == 3 {
        if bits.y == 0 {
            let mut s = String::from_str("jp 0x");
            s.append(hex16(nn).as_str());
            (s, 3)
        } else if bits.y == 1 {
            disas_cb(b1)
        } else if bits.y == 6 {
            (String::from_str("di"), 1)
        } else if bits.y == 7 {
            (String::from_str("ei"), 1)
        } else {
            (String::from_str("undefined opcode"), 1)
        }
    } else if bits.z == 4 {
        if bits.y <= 3 {
            let mut s = String::from_str("call ");
            s.append(cond_name(bits.y));
            s.append(" 0x");
            s.append(hex16(nn).as_str());
            (s, 3)
        } else {
            (String::from_str("undefined opcode"), 1)
        }
    } else if bits.z == 5 {
        if bits.q == 0 {
            let mut s = String::from_str("push ");
            s.append(pair_stack_name(bits.p));
            (s, 1)
        } else if bits.p == 0 {
            let mut s = String::from_str("call 0x");
            s.append(hex16(nn).as_str());
            (s, 3)
        } else {
            (String::from_str("undefined opcode"), 1)
        }
    } else if bits.z == 6 {
        let mut s = String::from_str(alu_name(bits.y));
        s.append(" 0x");
        s.append(hex16(b1 as u16).as_str());
        (s, 2)
    } else {
        let mut s = String::from_str("rst 0x");
        s.append(hex16((bits.y as u16) * 8).as_str());
        (s, 1)
    }
}

/// Disassembles the instruction whose first byte is `b0`, with `b1` and
/// `b2` the bytes that follow it in memory: the mnemonic text, and the
/// instruction length in bytes (1 to 3). It classifies through the same
/// opcode-field decomposition the executor dispatches on, so the two can
/// never describe an opcode differently. It never fails: undefined
/// encodings resolve to the explicit "undefined opcode" label of length 1.
pub fn disassemble_bytes(b0: u8, b1: u8, b2: u8) -> (r: (String, u8))
    ensures
        r.0@ == spec_disassemble(b0, b1, b2).0,
        r.1 == spec_disassemble(b0, b1, b2).1,
        1 <= r.1 <= 3,
{
    proof {
        lemma_opcode_fields(b0);
        lemma_disassemble_length(b0, b1, b2);
    }
    let bits = OpcodeBits::from(b0);
    if bits.x == 0 {
        disas_x0(bits, b0, b1, b2)
    } else if bits.x == 1 {
        if bits.y == 6 && bits.z == 6 {
            (String::from_str("halt"), 1)
        } else {
            let mut s = String::from_str("ld ");
            s.append(reg_name(bits.y));
            s.append(", ");
            s.append(reg_name(bits.z));
            (s, 1)
        }
    } else if bits.x == 2 {
        let mut s = String::from_str(alu_name(bits.y));
        s.append(" ");
        s.append(reg_name(bits.z));
        (s, 1)
    } else {
        disas_x3(bits, b0, b1, b2)
    }
}

/// Every instruction disassembles to a length between one and three bytes.
pub proof fn lemma_disassemble_length(b0: u8, b1: u8, b2: u8)
    ensures
        1 <= spec_disassemble(b0, b1, b2).1 <= 3,
{
    lemma_opcode_fields(b0);
    lemma_opcode_fields(b1);
}

/// The undefined slots of the base opcode map: the eleven opcodes the
/// hardware documents as illegal.
pub open spec fn spec_is_illegal(b0: u8) -> bool {
    b0 == 0xD3 || b0 == 0xDB || b0 == 0xDD || b0 == 0xE3 || b0 == 0xE4 || b0 == 0xEB || b0 == 0xEC
        || b0 == 0xED || b0 == 0xF4 || b0 == 0xFC || b0 == 0xFD
}

/// A non-empty mnemonic that does not start with 'u' is not the
/// "undefined opcode" label.
proof fn lemma_ne_undefined(m: Seq<char>)
    requires
        m.len() > 0,
        m[0] != 'u',
    ensures
        m != "undefined opcode"@,
{
    reveal_strlit("undefined opcode");
}

/// No ALU mnemonic head is empty or starts with 'u'.
proof fn lemma_alu_name_head(y: u8)
    ensures
        spec_alu_name(y).len() > 0,
        spec_alu_name(y)[0] != 'u',
{
    reveal_strlit("add a,");
    reveal_strlit("adc a,");
    reveal_strlit("sub");
    reveal_strlit("sbc a,");
    reveal_strlit("and");
    reveal_strlit("xor");
    reveal_strlit("or");
    reveal_strlit("cp");
}

/// No rotate/shift mnemonic is empty or starts with 'u'.
proof fn lemma_rot_name_head(y: u8)
    ensures
        spec_rot_name(y).len() > 0,
        spec_rot_name(y)[0] != 'u',
{
    reveal_strlit("rlc");
    reveal_strlit("rrc");
    reveal_strlit("rl");
    reveal_strlit("rr");
    reveal_strlit("sla");
    reveal_strlit("sra");
    reveal_strlit("swap");
    reveal_strlit("srl");
}

/// No opcode of instruction group x = 0 disassembles to the undefined
/// label.
proof fn lemma_x0_defined(b0: u8, b1: u8, b2: u8)
    ensures
        spec_disas_x0(b0, b1, b2).0 != "undefined opcode"@,
{
    reveal_strlit("nop");
    reveal_strlit("ld (0x");
    reveal_strlit("stop");
    reveal_strlit("jr ");
    reveal_strlit("ld ");
    reveal_strlit("add hl, ");
    reveal_strlit("ld (bc), a");
    reveal_strlit("ld (de), a");
    reveal_strlit("ld (hl+), a");
    reveal_strlit("ld (hl-), a");
    reveal_strlit("ld a, (bc)");
    reveal_strlit("ld a, (de)");
    reveal_strlit("ld a, (hl+)");
    reveal_strlit("ld a, (hl-)");
    reveal_strlit("inc ");
    reveal_strlit("dec ");
    reveal_strlit("rlca");
    reveal_strlit("rrca");
    reveal_strlit("rla");
    reveal_strlit("rra");
    reveal_strlit("daa");
    reveal_strlit("cpl");
    reveal_strlit("scf");
    reveal_strlit("ccf");
    let m = spec_disas_x0(b0, b1, b2).0;
    assert(m.len() > 0 && m[0] != 'u');
    lemma_ne_undefined(m);
}

/// No CB-prefixed opcode disassembles to the undefined label: the
/// extended table is fully defined.
pub proof fn lemma_cb_defined(b1: u8)
    ensures
        spec_disas_cb(b1).0 != "undefined opcode"@,
{
    reveal_strlit(" ");
    reveal_strlit("bit ");
    reveal_strlit("res ");
    reveal_strlit("set ");
    lemma_rot_name_head(op_y(b1));
    let m = spec_disas_cb(b1).0;
    assert(m.len() > 0 && m[0] != 'u');
    lemma_ne_undefined(m);
}

/// In instruction group x = 3, exactly the undefined slots of the opcode
/// map disassemble to the undefined label.
proof fn lemma_x3_defined(b0: u8, b1: u8, b2: u8)
    ensures
        spec_disas_x3(b0, b1, b2).0 == "undefined opcode"@ <==> ((op_z(b0) == 3 && 2 <= op_y(b0)
            <= 5) || (op_z(b0) == 4 && op_y(b0) >= 4) || (op_z(b0) == 5 && op_q(b0) == 1 && op_p(
            b0,
        ) >= 1)),
{
    reveal_strlit("ret ");
    reveal_strlit("ld 0xff00+0x");
    reveal_strlit("add sp, ");
    reveal_strlit("ld a, 0xff00+0x");
    reveal_strlit("ld hl, sp+");
    reveal_strlit("pop ");
    reveal_strlit("ret");
    reveal_strlit("reti");
    reveal_strlit("jp (hl)");
    reveal_strlit("ld sp, hl");
    reveal_strlit("jp ");
    reveal_strlit("ld (0xff00+c), a");
    reveal_strlit("ld (0x");
    reveal_strlit("ld a, (0xff00+c)");
    reveal_strlit("ld a, (0x");
    reveal_strlit("jp 0x");
    reveal_strlit("di");
    reveal_strlit("ei");
    reveal_strlit("call ");
    reveal_strlit("push ");
    reveal_strlit("call 0x");
    reveal_strlit("rst 0x");
    lemma_opcode_fields(b0);
    let y = op_y(b0);
    let z = op_z(b0);
    let p = op_p(b0);
    let q = op_q(b0);
    let m = spec_disas_x3(b0, b1, b2).0;
    if (z == 3 && 2 <= y <= 5) || (z == 4 && y >= 4) || (z == 5 && q == 1 && p >= 1) {
        assert(m == "undefined opcode"@);
    } else {
        if z == 6 {
            lemma_alu_name_head(y);
        }
        if z == 3 && y == 1 {
            lemma_cb_defined(b1);
        } else {
            assert(m.len() > 0 && m[0] != 'u');
            lemma_ne_undefined(m);
        }
    }
}

/// Law: the disassembler and the executor never describe an opcode
/// differently: for each opcode group whose execution the core's step
/// contract pins, the instruction length the disassembler reports equals
/// the program-counter advance that contract states — one byte for the
/// register-to-register and register-ALU groups and the one-byte control
/// and stack forms, two bytes for the immediate and CB-prefixed forms,
/// three bytes for the 16-bit-immediate forms.
pub proof fn lemma_length_matches_pc_advance(b0: u8, b1: u8, b2: u8)
    ensures
        op_x(b0) == 1 ==> spec_disassemble(b0, b1, b2).1 == 1,
        op_x(b0) == 2 ==> spec_disassemble(b0, b1, b2).1 == 1,
        op_x(b0) == 0 && op_z(b0) == 6 ==> spec_disassemble(b0, b1, b2).1 == 2,
        op_x(b0) == 0 && (op_z(b0) == 3 || op_z(b0) == 4 || op_z(b0) == 5 || op_z(b0) == 7) ==> spec_disassemble(b0, b1, b2).1 == 1,
        op_x(b0) == 0 && op_z(b0) == 1 ==> spec_disassemble(b0, b1, b2).1 == (if op_q(b0) == 0 {
            3u8
        } else {
            1u8
        }),
        b0 == 0x00 || b0 == 0x10 || b0 == 0x76 || b0 == 0xF3 || b0 == 0xFB || b0 == 0xE9 || b0
            == 0xF9 || b0 == 0xC9 || b0 == 0xD9 ==> spec_disassemble(b0, b1, b2).1 == 1,
        b0 == 0x18 ==> spec_disassemble(b0, b1, b2).1 == 2,
        b0 == 0xC3 || b0 == 0xCD ==> spec_disassemble(b0, b1, b2).1 == 3,
        b0 == 0xCB ==> spec_disassemble(b0, b1, b2).1 == 2,
        op_x(b0) == 3 && op_z(b0) == 6 ==> spec_disassemble(b0, b1, b2).1 == 2,
        op_x(b0) == 3 && op_z(b0) == 7 ==> spec_disassemble(b0, b1, b2).1 == 1,
        op_x(b0) == 3 && (op_z(b0) == 5 || op_z(b0) == 1) && op_q(b0) == 0 ==> spec_disassemble(
            b0,
            b1,
            b2,
        ).1 == 1,
        spec_is_illegal(b0) ==> spec_disassemble(b0, b1, b2).1 == 1,
{
    lemma_opcode_fields(b0);
    lemma_opcode_fields(b1);
}

/// Law: the disassembler returns a specific mnemonic for every opcode the
/// hardware documents as valid, and returns exactly the explicit
/// "undefined opcode" label for the eleven documented illegal slots of
/// the base opcode map. The CB-prefixed table has no illegal slots.
pub proof fn lemma_undefined_exactly_illegal(b0: u8, b1: u8, b2: u8)
    ensures
        spec_disassemble(b0, b1, b2).0 == "undefined opcode"@ <==> spec_is_illegal(b0),
{
    reveal_strlit("halt");
    reveal_strlit("ld ");
    reveal_strlit(" ");
    lemma_opcode_fields(b0);
    let x = op_x(b0);
    let y = op_y(b0);
    let z = op_z(b0);
    let m = spec_disassemble(b0, b1, b2).0;
    if x == 0 {
        lemma_x0_defined(b0, b1, b2);
    } else if x == 1 {
        assert(m.len() > 0 && m[0] != 'u');
        lemma_ne_undefined(m);
    } else if x == 2 {
        lemma_alu_name_head(y);
        assert(m.len() > 0 && m[0] != 'u');
        lemma_ne_undefined(m);
    } else {
        lemma_x3_defined(b0, b1, b2);
        assert(spec_is_illegal(b0) <==> ((z == 3 && 2 <= y <= 5) || (z == 4 && y >= 4) || (z == 5
            && op_q(b0) == 1 && op_p(b0) >= 1)));
    }
}

} // verus!


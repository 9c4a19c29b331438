use lr35902::opcode::{extract_x_y_z_p_q, OpcodeBits};
use lr35902::disasm::disassemble_bytes;

#[test]
fn opcode_bits() {
    let opcode = 0b1010_1010;
    let bits = OpcodeBits::from(opcode);

    assert_eq!(bits.x, 0b10);
    assert_eq!(bits.y, 0b101);
    assert_eq!(bits.z, 0b010);
    assert_eq!(bits.p, 0b10);
    assert_eq!(bits.q, 0b1);
}

#[test]
fn opcode_tuple_matches_bits() {
    for op in 0..=255u8 {
        let bits = OpcodeBits::from(op);
        let (x, y, z, p, q) = extract_x_y_z_p_q(op);
        assert_eq!((x, y, z, p, q), (bits.x, bits.y, bits.z, bits.p, bits.q));
        assert_eq!(x, op >> 6);
        assert_eq!(y, (op >> 3) & 7);
        assert_eq!(z, op & 7);
        assert_eq!(p, (y >> 1) & 3);
        assert_eq!(q, y & 1);
    }
}

#[test]
fn disassemble_fixed_encodings() {
    assert_eq!(disassemble_bytes(0x00, 0, 0), (String::from("nop"), 1));
    assert_eq!(disassemble_bytes(0x3E, 0x42, 0), (String::from("ld a, 0x42"), 2));
    assert_eq!(disassemble_bytes(0xC3, 0x34, 0x12), (String::from("jp 0x1234"), 3));
}

#[test]
fn disassemble_operand_forms() {
    assert_eq!(disassemble_bytes(0x08, 0xAD, 0xDE), (String::from("ld (0xdead), sp"), 3));
    assert_eq!(disassemble_bytes(0x01, 0x34, 0x12), (String::from("ld bc, 0x1234"), 3));
    assert_eq!(disassemble_bytes(0x18, 0xFE, 0), (String::from("jr -2"), 2));
    assert_eq!(disassemble_bytes(0x20, 0x05, 0), (String::from("jr nz 5"), 2));
    assert_eq!(disassemble_bytes(0x76, 0, 0), (String::from("halt"), 1));
    assert_eq!(disassemble_bytes(0x41, 0, 0), (String::from("ld b, c"), 1));
    assert_eq!(disassemble_bytes(0x86, 0, 0), (String::from("add a, (hl)"), 1));
    assert_eq!(disassemble_bytes(0x97, 0, 0), (String::from("sub a"), 1));
    assert_eq!(disassemble_bytes(0xE0, 0x8F, 0), (String::from("ld 0xff00+0x8f, a"), 2));
    assert_eq!(disassemble_bytes(0xE8, 0xFB, 0), (String::from("add sp, -5"), 2));
    assert_eq!(disassemble_bytes(0xF8, 0x07, 0), (String::from("ld hl, sp+7"), 2));
    assert_eq!(disassemble_bytes(0xC9, 0, 0), (String::from("ret"), 1));
    assert_eq!(disassemble_bytes(0xD8, 0, 0), (String::from("ret c"), 1));
    assert_eq!(disassemble_bytes(0xF5, 0, 0), (String::from("push af"), 1));
    assert_eq!(disassemble_bytes(0xC1, 0, 0), (String::from("pop bc"), 1));
    assert_eq!(disassemble_bytes(0xCD, 0xCD, 0xAB), (String::from("call 0xabcd"), 3));
    assert_eq!(disassemble_bytes(0xC4, 0xCD, 0xAB), (String::from("call nz 0xabcd"), 3));
    assert_eq!(disassemble_bytes(0xE9, 0, 0), (String::from("jp (hl)"), 1));
    assert_eq!(disassemble_bytes(0xEA, 0x00, 0x80), (String::from("ld (0x8000), a"), 3));
    assert_eq!(disassemble_bytes(0xFE, 0x90, 0), (String::from("cp 0x90"), 2));
    assert_eq!(disassemble_bytes(0xEF, 0, 0), (String::from("rst 0x28"), 1));
    assert_eq!(disassemble_bytes(0x34, 0, 0), (String::from("inc (hl)"), 1));
    assert_eq!(disassemble_bytes(0x0B, 0, 0), (String::from("dec bc"), 1));
    assert_eq!(disassemble_bytes(0x22, 0, 0), (String::from("ld (hl+), a"), 1));
    assert_eq!(disassemble_bytes(0x3A, 0, 0), (String::from("ld a, (hl-)"), 1));
    assert_eq!(disassemble_bytes(0x07, 0, 0), (String::from("rlca"), 1));
    assert_eq!(disassemble_bytes(0x27, 0, 0), (String::from("daa"), 1));
    assert_eq!(disassemble_bytes(0xF3, 0, 0), (String::from("di"), 1));
    assert_eq!(disassemble_bytes(0xFB, 0, 0), (String::from("ei"), 1));
    assert_eq!(disassemble_bytes(0x10, 0, 0), (String::from("stop"), 1));
}

#[test]
fn disassemble_cb_prefixed_forms() {
    assert_eq!(disassemble_bytes(0xCB, 0x00, 0), (String::from("rlc b"), 2));
    assert_eq!(disassemble_bytes(0xCB, 0x16, 0), (String::from("rl (hl)"), 2));
    assert_eq!(disassemble_bytes(0xCB, 0x37, 0), (String::from("swap a"), 2));
    assert_eq!(disassemble_bytes(0xCB, 0x7C, 0), (String::from("bit 7, h"), 2));
    assert_eq!(disassemble_bytes(0xCB, 0x87, 0), (String::from("res 0, a"), 2));
    assert_eq!(disassemble_bytes(0xCB, 0xFE, 0), (String::from("set 7, (hl)"), 2));
}

#[test]
fn disassemble_classifies_all_opcodes() {
    let illegal = [0xD3u8, 0xDB, 0xDD, 0xE3, 0xE4, 0xEB, 0xEC, 0xED, 0xF4, 0xFC, 0xFD];
    for op in 0..=255u8 {
        if op == 0xCB {
            continue;
        }
        let (text, len) = disassemble_bytes(op, 0x55, 0xAA);
        assert!(1 <= len && len <= 3);
        if illegal.contains(&op) {
            assert_eq!(text, "undefined opcode");
            assert_eq!(len, 1);
        } else {
            assert_ne!(text, "undefined opcode");
        }
    }
    // every CB-prefixed opcode is defined
    for op in 0..=255u8 {
        let (text, len) = disassemble_bytes(0xCB, op, 0);
        assert_ne!(text, "undefined opcode");
        assert_eq!(len, 2);
    }
}

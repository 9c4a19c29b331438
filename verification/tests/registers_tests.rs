use lr35902::registers::SharpLR35902Registers;

#[test]
fn flags() {
    let mut regs = SharpLR35902Registers::new();

    regs.set_c();
    assert!(regs.c());

    regs.set_s();
    assert!(regs.s());

    regs.set_z();
    assert!(regs.z());

    regs.set_h();
    assert!(regs.h());

    regs.clear_c();
    assert!(!regs.c());

    regs.clear_s();
    assert!(!regs.s());

    regs.clear_z();
    assert!(!regs.z());

    regs.clear_h();
    assert!(!regs.h());
}

#[test]
fn registers() {
    let mut regs = SharpLR35902Registers::new();

    regs.a = 0x11;
    regs.f = 0x22;
    regs.b = 0x33;
    regs.c = 0x44;
    regs.d = 0x55;
    regs.e = 0x66;
    regs.h = 0x77;
    regs.l = 0x88;

    assert_eq!(regs.af(), 0x1122);
    assert_eq!(regs.bc(), 0x3344);
    assert_eq!(regs.de(), 0x5566);
    assert_eq!(regs.hl(), 0x7788);
}

#[test]
fn flag_independence_all_prior_states() {
    // every flag can be set and cleared without disturbing the other
    // three, for all 16 combinations of the others' prior state
    for mask in 0..16u8 {
        let mut regs = SharpLR35902Registers::new();
        if mask & 1 != 0 {
            regs.set_z();
        }
        if mask & 2 != 0 {
            regs.set_s();
        }
        if mask & 4 != 0 {
            regs.set_h();
        }
        if mask & 8 != 0 {
            regs.set_c();
        }
        let (z, s, h, c) = (regs.z(), regs.s(), regs.h(), regs.c());

        let mut r2 = regs;
        r2.set_z();
        assert!(r2.z());
        assert_eq!((r2.s(), r2.h(), r2.c()), (s, h, c));
        r2.clear_z();
        assert!(!r2.z());
        assert_eq!((r2.s(), r2.h(), r2.c()), (s, h, c));

        let mut r3 = regs;
        r3.set_c();
        assert!(r3.c());
        assert_eq!((r3.z(), r3.s(), r3.h()), (z, s, h));
        r3.clear_c();
        assert!(!r3.c());
        assert_eq!((r3.z(), r3.s(), r3.h()), (z, s, h));

        let mut r4 = regs;
        r4.set_s();
        assert!(r4.s());
        assert_eq!((r4.z(), r4.h(), r4.c()), (z, h, c));
        r4.clear_s();
        assert!(!r4.s());
        assert_eq!((r4.z(), r4.h(), r4.c()), (z, h, c));

        let mut r5 = regs;
        r5.set_h();
        assert!(r5.h());
        assert_eq!((r5.z(), r5.s(), r5.c()), (z, s, c));
        r5.clear_h();
        assert!(!r5.h());
        assert_eq!((r5.z(), r5.s(), r5.c()), (z, s, c));
    }
}

#[test]
fn register_round_trip_all_values() {
    // every 8-bit value written into a register reads back exactly
    for index in 0..8u8 {
        for v in 0..=255u8 {
            let mut regs = SharpLR35902Registers::new();
            regs.set_reg(index, v);
            assert_eq!(regs.reg(index), v);
        }
    }
}

#[test]
fn pair_round_trip_both_directions() {
    // 16-bit write then 8-bit reads give the high/low split, and 8-bit
    // writes then a 16-bit read compose, for all four pairs
    let mut regs = SharpLR35902Registers::new();

    regs.set_bc(0xABCD);
    assert_eq!(regs.b, 0xAB);
    assert_eq!(regs.c, 0xCD);
    regs.set_de(0x1234);
    assert_eq!(regs.d, 0x12);
    assert_eq!(regs.e, 0x34);
    regs.set_hl(0xFEDC);
    assert_eq!(regs.h, 0xFE);
    assert_eq!(regs.l, 0xDC);
    regs.set_af(0x55A0);
    assert_eq!(regs.a, 0x55);
    assert_eq!(regs.f, 0xA0);

    regs.b = 0x42;
    regs.c = 0x24;
    assert_eq!(regs.bc(), 0x4224);
    regs.d = 0x10;
    regs.e = 0x01;
    assert_eq!(regs.de(), 0x1001);
    regs.h = 0x9A;
    regs.l = 0xA9;
    assert_eq!(regs.hl(), 0x9AA9);
    regs.a = 0x7F;
    regs.f = 0xF0;
    assert_eq!(regs.af(), 0x7FF0);
}

#[test]
fn flags_low_nibble_masked_on_af_write() {
    // the flags register's low nibble always reads as zero: writing AF
    // through the register file masks it away
    let mut regs = SharpLR35902Registers::new();
    regs.set_af(0x12FF);
    assert_eq!(regs.a, 0x12);
    assert_eq!(regs.f, 0xF0);
    regs.set_pair_stack(3, 0xABCE);
    assert_eq!(regs.af(), 0xABC0);
}

#[test]
fn pair_tables_select_correct_pairs() {
    let mut regs = SharpLR35902Registers::new();
    regs.set_pair(0, 0x1111);
    regs.set_pair(1, 0x2222);
    regs.set_pair(2, 0x3333);
    regs.set_pair(3, 0x4444);
    assert_eq!(regs.bc(), 0x1111);
    assert_eq!(regs.de(), 0x2222);
    assert_eq!(regs.hl(), 0x3333);
    assert_eq!(regs.sp, 0x4444);
    assert_eq!(regs.pair(0), 0x1111);
    assert_eq!(regs.pair_stack(3), regs.af());
}

use lr35902::cpu::{Cpu, FlatMemory, LRError, MemoryInterconnect, SharpLR35902};
use lr35902::debugger::Debugger;

fn cpu_with_program(program: &[u8]) -> SharpLR35902<FlatMemory> {
    let mut mem = FlatMemory::new();
    for (i, b) in program.iter().enumerate() {
        mem.bytes[i] = *b;
    }
    SharpLR35902::new(mem)
}

#[test]
fn nop_costs_four_cycles() {
    let mut cpu = cpu_with_program(&[0x00]);
    assert_eq!(cpu.step(), Ok(4));
    assert_eq!(cpu.registers.pc, 1);
}

#[test]
fn ld_r_r_copies_registers() {
    // ld b, c
    let mut cpu = cpu_with_program(&[0x41]);
    cpu.registers.c = 0x5A;
    assert_eq!(cpu.step(), Ok(4));
    assert_eq!(cpu.registers.b, 0x5A);
}

#[test]
fn ld_immediate_loads_accumulator() {
    // ld a, 0x42
    let mut cpu = cpu_with_program(&[0x3E, 0x42]);
    assert_eq!(cpu.step(), Ok(8));
    assert_eq!(cpu.registers.a, 0x42);
    assert_eq!(cpu.registers.pc, 2);
}

#[test]
fn xor_a_a_always_zero_with_only_zero_flag() {
    for a in [0u8, 1, 0x42, 0xFF] {
        let mut cpu = cpu_with_program(&[0xAF]);
        cpu.registers.a = a;
        assert_eq!(cpu.step(), Ok(4));
        assert_eq!(cpu.registers.a, 0);
        assert!(cpu.registers.z());
        assert!(!cpu.registers.s());
        assert!(!cpu.registers.h());
        assert!(!cpu.registers.c());
    }
}

#[test]
fn alu_zero_results_set_zero_flag() {
    // add a, b with 0x80 + 0x80: zero result, carry out, no half-carry
    let mut cpu = cpu_with_program(&[0x80]);
    cpu.registers.a = 0x80;
    cpu.registers.b = 0x80;
    assert_eq!(cpu.step(), Ok(4));
    assert_eq!(cpu.registers.a, 0);
    assert!(cpu.registers.z());
    assert!(!cpu.registers.s());
    assert!(!cpu.registers.h());
    assert!(cpu.registers.c());

    // sub b with equal operands: zero result, subtract set, no borrow
    let mut cpu = cpu_with_program(&[0x90]);
    cpu.registers.a = 0x37;
    cpu.registers.b = 0x37;
    assert_eq!(cpu.step(), Ok(4));
    assert_eq!(cpu.registers.a, 0);
    assert!(cpu.registers.z());
    assert!(cpu.registers.s());
    assert!(!cpu.registers.h());
    assert!(!cpu.registers.c());

    // and b with disjoint bits: zero result, half-carry always set
    let mut cpu = cpu_with_program(&[0xA0]);
    cpu.registers.a = 0xF0;
    cpu.registers.b = 0x0F;
    assert_eq!(cpu.step(), Ok(4));
    assert_eq!(cpu.registers.a, 0);
    assert!(cpu.registers.z());
    assert!(!cpu.registers.s());
    assert!(cpu.registers.h());
    assert!(!cpu.registers.c());
}

#[test]
fn add_half_carry_and_carry() {
    // add a, b: 0x0F + 0x01 carries out of bit 3 only
    let mut cpu = cpu_with_program(&[0x80]);
    cpu.registers.a = 0x0F;
    cpu.registers.b = 0x01;
    assert_eq!(cpu.step(), Ok(4));
    assert_eq!(cpu.registers.a, 0x10);
    assert!(!cpu.registers.z());
    assert!(cpu.registers.h());
    assert!(!cpu.registers.c());
}

#[test]
fn adc_uses_carry_in() {
    // adc a, b with carry set: 1 + 2 + 1 = 4
    let mut cpu = cpu_with_program(&[0x88]);
    cpu.registers.a = 1;
    cpu.registers.b = 2;
    cpu.registers.set_c();
    assert_eq!(cpu.step(), Ok(4));
    assert_eq!(cpu.registers.a, 4);
}

#[test]
fn cp_compares_without_changing_accumulator() {
    // cp 0x90 with a == 0x90
    let mut cpu = cpu_with_program(&[0xFE, 0x90]);
    cpu.registers.a = 0x90;
    assert_eq!(cpu.step(), Ok(8));
    assert_eq!(cpu.registers.a, 0x90);
    assert!(cpu.registers.z());
    assert!(cpu.registers.s());
}

#[test]
fn inc_dec_preserve_carry() {
    // inc b leaves carry alone and never touches it
    let mut cpu = cpu_with_program(&[0x04, 0x05]);
    cpu.registers.b = 0x0F;
    cpu.registers.set_c();
    assert_eq!(cpu.step(), Ok(4));
    assert_eq!(cpu.registers.b, 0x10);
    assert!(cpu.registers.h());
    assert!(cpu.registers.c());
    assert_eq!(cpu.step(), Ok(4));
    assert_eq!(cpu.registers.b, 0x0F);
    assert!(cpu.registers.s());
    assert!(cpu.registers.c());
}

#[test]
fn sixteen_bit_inc_touches_no_flags() {
    // inc bc
    let mut cpu = cpu_with_program(&[0x03]);
    cpu.registers.set_bc(0x00FF);
    cpu.registers.set_z();
    cpu.registers.set_c();
    assert_eq!(cpu.step(), Ok(8));
    assert_eq!(cpu.registers.bc(), 0x0100);
    assert!(cpu.registers.z());
    assert!(cpu.registers.c());
}

#[test]
fn add_hl_sets_carry_from_bit_15() {
    // add hl, bc
    let mut cpu = cpu_with_program(&[0x09]);
    cpu.registers.set_hl(0x8A23);
    cpu.registers.set_bc(0x8A23);
    cpu.registers.set_z();
    assert_eq!(cpu.step(), Ok(8));
    assert_eq!(cpu.registers.hl(), 0x1446);
    assert!(cpu.registers.z()); // 16-bit add keeps Zero
    assert!(!cpu.registers.s());
    assert!(cpu.registers.h());
    assert!(cpu.registers.c());
}

#[test]
fn daa_adjusts_bcd_addition() {
    // 0x45 + 0x38 = 0x7D, then daa gives BCD 0x83
    let mut cpu = cpu_with_program(&[0x80, 0x27]);
    cpu.registers.a = 0x45;
    cpu.registers.b = 0x38;
    assert_eq!(cpu.step(), Ok(4));
    assert_eq!(cpu.registers.a, 0x7D);
    assert_eq!(cpu.step(), Ok(4));
    assert_eq!(cpu.registers.a, 0x83);
    assert!(!cpu.registers.c());
    assert!(!cpu.registers.h());
}

#[test]
fn rotates_and_flag_ops() {
    // rlca
    let mut cpu = cpu_with_program(&[0x07, 0x2F, 0x37, 0x3F]);
    cpu.registers.a = 0x85;
    assert_eq!(cpu.step(), Ok(4));
    assert_eq!(cpu.registers.a, 0x0B);
    assert!(cpu.registers.c());
    assert!(!cpu.registers.z());
    // cpl
    assert_eq!(cpu.step(), Ok(4));
    assert_eq!(cpu.registers.a, 0xF4);
    assert!(cpu.registers.s());
    assert!(cpu.registers.h());
    // scf
    assert_eq!(cpu.step(), Ok(4));
    assert!(cpu.registers.c());
    assert!(!cpu.registers.s());
    assert!(!cpu.registers.h());
    // ccf
    assert_eq!(cpu.step(), Ok(4));
    assert!(!cpu.registers.c());
}

#[test]
fn cb_prefixed_bit_operations() {
    // set 7, a; bit 7, a; res 7, a; bit 7, a
    let mut cpu = cpu_with_program(&[0xCB, 0xFF, 0xCB, 0x7F, 0xCB, 0xBF, 0xCB, 0x7F]);
    cpu.registers.a = 0;
    assert_eq!(cpu.step(), Ok(8));
    assert_eq!(cpu.registers.a, 0x80);
    assert_eq!(cpu.step(), Ok(8));
    assert!(!cpu.registers.z()); // bit 7 is one
    assert!(cpu.registers.h());
    assert_eq!(cpu.step(), Ok(8));
    assert_eq!(cpu.registers.a, 0x00);
    assert_eq!(cpu.step(), Ok(8));
    assert!(cpu.registers.z()); // bit 7 is zero
}

#[test]
fn cb_swap_and_srl() {
    // swap a; srl a
    let mut cpu = cpu_with_program(&[0xCB, 0x37, 0xCB, 0x3F]);
    cpu.registers.a = 0xF1;
    assert_eq!(cpu.step(), Ok(8));
    assert_eq!(cpu.registers.a, 0x1F);
    assert_eq!(cpu.step(), Ok(8));
    assert_eq!(cpu.registers.a, 0x0F);
    assert!(cpu.registers.c());
}

#[test]
fn memory_at_hl_operand() {
    // ld (hl), a then add a, (hl)
    let mut cpu = cpu_with_program(&[0x77, 0x86]);
    cpu.registers.set_hl(0x1000);
    cpu.registers.a = 0x21;
    assert_eq!(cpu.step(), Ok(8));
    assert_eq!(cpu.memory_controller.bytes[0x1000], 0x21);
    assert_eq!(cpu.step(), Ok(8));
    assert_eq!(cpu.registers.a, 0x42);
}

#[test]
fn hl_increment_and_decrement_forms() {
    // ld (hl+), a; ld (hl-), a
    let mut cpu = cpu_with_program(&[0x22, 0x32]);
    cpu.registers.set_hl(0x2000);
    cpu.registers.a = 0x99;
    assert_eq!(cpu.step(), Ok(8));
    assert_eq!(cpu.registers.hl(), 0x2001);
    assert_eq!(cpu.memory_controller.bytes[0x2000], 0x99);
    assert_eq!(cpu.step(), Ok(8));
    assert_eq!(cpu.registers.hl(), 0x2000);
    assert_eq!(cpu.memory_controller.bytes[0x2001], 0x99);
}

#[test]
fn zero_page_forms() {
    // ld 0xff00+n, a; ld a, 0xff00+n
    let mut cpu = cpu_with_program(&[0xE0, 0x80, 0xF0, 0x80]);
    cpu.registers.a = 0x5C;
    assert_eq!(cpu.step(), Ok(12));
    assert_eq!(cpu.memory_controller.bytes[0xFF80], 0x5C);
    cpu.registers.a = 0;
    assert_eq!(cpu.step(), Ok(12));
    assert_eq!(cpu.registers.a, 0x5C);
}

#[test]
fn ld_nn_sp_stores_stack_pointer() {
    let mut cpu = cpu_with_program(&[0x08, 0x00, 0x30]);
    cpu.registers.sp = 0xBEEF;
    assert_eq!(cpu.step(), Ok(20));
    assert_eq!(cpu.memory_controller.bytes[0x3000], 0xEF);
    assert_eq!(cpu.memory_controller.bytes[0x3001], 0xBE);
}

#[test]
fn jumps_calls_and_returns() {
    // jp 0x1234
    let mut cpu = cpu_with_program(&[0xC3, 0x34, 0x12]);
    assert_eq!(cpu.step(), Ok(16));
    assert_eq!(cpu.registers.pc, 0x1234);

    // jr -2 loops back onto itself
    let mut cpu = cpu_with_program(&[0x18, 0xFE]);
    assert_eq!(cpu.step(), Ok(12));
    assert_eq!(cpu.registers.pc, 0x0000);

    // conditional jr not taken costs less
    let mut cpu = cpu_with_program(&[0x20, 0x10]);
    cpu.registers.set_z();
    assert_eq!(cpu.step(), Ok(8));
    assert_eq!(cpu.registers.pc, 2);

    // call pushes the return address, ret pops it
    let mut cpu = cpu_with_program(&[0xCD, 0x00, 0x10]);
    cpu.registers.sp = 0xFFFE;
    cpu.memory_controller.bytes[0x1000] = 0xC9; // ret
    assert_eq!(cpu.step(), Ok(24));
    assert_eq!(cpu.registers.pc, 0x1000);
    assert_eq!(cpu.registers.sp, 0xFFFC);
    assert_eq!(cpu.memory_controller.bytes[0xFFFD], 0x00);
    assert_eq!(cpu.memory_controller.bytes[0xFFFC], 0x03);
    assert_eq!(cpu.step(), Ok(16));
    assert_eq!(cpu.registers.pc, 0x0003);
    assert_eq!(cpu.registers.sp, 0xFFFE);
}

#[test]
fn rst_jumps_to_fixed_vector() {
    let mut cpu = cpu_with_program(&[0xEF]); // rst 0x28
    cpu.registers.sp = 0xFFFE;
    assert_eq!(cpu.step(), Ok(16));
    assert_eq!(cpu.registers.pc, 0x28);
    assert_eq!(cpu.registers.sp, 0xFFFC);
}

#[test]
fn push_pop_round_trip() {
    // push bc; pop de
    let mut cpu = cpu_with_program(&[0xC5, 0xD1]);
    cpu.registers.sp = 0xFFFE;
    cpu.registers.set_bc(0xA55A);
    assert_eq!(cpu.step(), Ok(16));
    assert_eq!(cpu.step(), Ok(12));
    assert_eq!(cpu.registers.de(), 0xA55A);
    assert_eq!(cpu.registers.sp, 0xFFFE);
}

#[test]
fn pop_af_masks_flag_low_nibble() {
    // pop af from a stack holding 0xFFFF
    let mut cpu = cpu_with_program(&[0xF1]);
    cpu.registers.sp = 0x8000;
    cpu.memory_controller.bytes[0x8000] = 0xFF;
    cpu.memory_controller.bytes[0x8001] = 0xFF;
    assert_eq!(cpu.step(), Ok(12));
    assert_eq!(cpu.registers.af(), 0xFFF0);
}

#[test]
fn add_sp_signed_displacement() {
    let mut cpu = cpu_with_program(&[0xE8, 0xFB]); // add sp, -5
    cpu.registers.sp = 0x0100;
    assert_eq!(cpu.step(), Ok(16));
    assert_eq!(cpu.registers.sp, 0x00FB);
    assert!(!cpu.registers.z());
    assert!(!cpu.registers.s());
}

#[test]
fn halt_then_interrupt_wakes_and_acknowledges() {
    // HALT moves Running to Halted
    let mut cpu = cpu_with_program(&[0x76, 0x00]);
    assert!(!cpu.halted);
    assert_eq!(cpu.step(), Ok(4));
    assert!(cpu.halted);
    // halted idles at 4 cycles without fetching
    assert_eq!(cpu.step(), Ok(4));
    assert!(cpu.halted);
    assert_eq!(cpu.registers.pc, 1);
    // a pending interrupt with interrupts enabled wakes the core and
    // runs the acknowledge sequence: Halted -> Running before the jump
    cpu.interrupts_enabled = true;
    cpu.registers.sp = 0xFFFE;
    cpu.request_interrupt();
    assert_eq!(cpu.step(), Ok(20));
    assert!(!cpu.halted);
    assert!(!cpu.interrupt_pending);
    assert!(!cpu.interrupts_enabled);
    assert_eq!(cpu.registers.pc, 0x40);
    assert_eq!(cpu.registers.sp, 0xFFFC);
    assert_eq!(cpu.memory_controller.bytes[0xFFFC], 0x01);
    assert_eq!(cpu.memory_controller.bytes[0xFFFD], 0x00);
}

#[test]
fn halt_wakes_without_interrupts_enabled() {
    // HALT still wakes on a pending interrupt when interrupts are
    // globally disabled; execution then resumes normally
    let mut cpu = cpu_with_program(&[0x76, 0x3E, 0x07]);
    assert_eq!(cpu.step(), Ok(4));
    assert!(cpu.halted);
    cpu.request_interrupt();
    assert_eq!(cpu.step(), Ok(8)); // wakes and runs ld a, 0x07
    assert!(!cpu.halted);
    assert_eq!(cpu.registers.a, 0x07);
}

#[test]
fn ei_enables_interrupts_one_instruction_late() {
    // ei; nop; nop with an interrupt already pending: the instruction
    // after ei still runs before the acknowledge sequence
    let mut cpu = cpu_with_program(&[0xFB, 0x00, 0x00]);
    cpu.registers.sp = 0xFFFE;
    cpu.request_interrupt();
    assert_eq!(cpu.step(), Ok(4)); // ei
    assert!(!cpu.interrupts_enabled);
    assert_eq!(cpu.step(), Ok(4)); // nop, interrupts enabled after this
    assert!(cpu.interrupts_enabled);
    assert_eq!(cpu.step(), Ok(20)); // acknowledge
    assert_eq!(cpu.registers.pc, 0x40);
}

#[test]
fn di_disables_interrupts() {
    let mut cpu = cpu_with_program(&[0xF3, 0x00]);
    cpu.interrupts_enabled = true;
    cpu.request_interrupt();
    // a pending interrupt with interrupts enabled is acknowledged first
    assert_eq!(cpu.step(), Ok(20));
    // after di, a pending interrupt is not acknowledged
    let mut cpu = cpu_with_program(&[0xF3, 0x00]);
    assert_eq!(cpu.step(), Ok(4));
    cpu.request_interrupt();
    assert_eq!(cpu.step(), Ok(4)); // the nop runs; no acknowledge
    assert_eq!(cpu.registers.pc, 2);
}

#[test]
fn stop_idles_the_core() {
    let mut cpu = cpu_with_program(&[0x10, 0x00]);
    assert_eq!(cpu.step(), Ok(4));
    assert!(cpu.stopped);
    assert_eq!(cpu.step(), Ok(4));
    assert_eq!(cpu.registers.pc, 1); // no further fetch
}

#[test]
fn undefined_opcode_locks_the_core() {
    // 0xD3 is an undefined slot: a decode error, never a silent nop
    let mut cpu = cpu_with_program(&[0xD3, 0x00]);
    assert_eq!(cpu.step(), Ok(4));
    assert!(cpu.stopped);
    assert_eq!(cpu.step(), Ok(4));
    assert_eq!(cpu.registers.pc, 1);
}

#[test]
fn execute_with_cycles_reaches_bound() {
    let mut cpu = cpu_with_program(&[0x18, 0xFE]); // jr -2: loop forever
    assert_eq!(cpu.execute_with_cycles(100), Ok(()));

    let mut cpu = cpu_with_program(&[0x18, 0xFE]);
    let (cycles, steps) = cpu.run_cycles(100).unwrap();
    assert!(cycles >= 100);
    assert!(steps >= 1);
    assert_eq!(cycles, 108); // nine 12-cycle jumps, overshooting the bound

    let mut cpu = cpu_with_program(&[0x18, 0xFE]);
    assert_eq!(cpu.run_cycles(0), Ok((0, 0)));
    assert_eq!(cpu.run_cycles(1), Ok((12, 1)));
}

#[test]
fn memory_errors_surface_and_abort() {
    // an unmapped fetch is an invalid read at that address
    let mut cpu = SharpLR35902::new(FlatMemory { bytes: vec![0u8; 4] });
    cpu.registers.pc = 0x0010;
    assert_eq!(cpu.step(), Err(LRError::InvalidMemoryRead(0x0010)));
    assert_eq!(cpu.execute(), Err(LRError::InvalidMemoryRead(0x0011)));
    assert_eq!(cpu.execute_with_cycles(50), Err(LRError::InvalidMemoryRead(0x0012)));

    // an unmapped store is an invalid write at the target address
    let mut cpu = SharpLR35902::new(FlatMemory { bytes: vec![0x77u8; 4] }); // ld (hl), a
    cpu.registers.set_hl(0x0100);
    assert_eq!(cpu.step(), Err(LRError::InvalidMemoryWrite(0x0100)));

    let e = LRError::InvalidMemoryRead(7);
    assert_eq!(e.description(), "Invalid memory read");
    assert_eq!(e.address(), 7);
    let w = LRError::InvalidMemoryWrite(9);
    assert_eq!(w.description(), "Invalid memory write");
    assert_eq!(w.address(), 9);
}

#[test]
fn debugger_breakpoints_patch_and_restore() {
    let mut mem = FlatMemory::new();
    mem.bytes[0x150] = 0x3E;
    let mut dbg = Debugger::new();

    assert_eq!(dbg.set_breakpoint(&mut mem, 0x150), Ok(()));
    assert!(dbg.has_breakpoint(0x150));
    assert_eq!(dbg.saved_byte(0x150), Some(0x3E));
    assert_eq!(mem.bytes[0x150], 0xDB);

    // setting the same breakpoint twice fails
    assert_eq!(dbg.set_breakpoint(&mut mem, 0x150), Err(()));

    // removing restores the original byte
    assert_eq!(dbg.remove_breakpoint(&mut mem, 0x150), Ok(()));
    assert!(!dbg.has_breakpoint(0x150));
    assert_eq!(mem.bytes[0x150], 0x3E);

    // removing a breakpoint that is not set fails
    assert_eq!(dbg.remove_breakpoint(&mut mem, 0x150), Err(()));
}

#[test]
fn debugger_disassembles_through_memory() {
    let mut mem = FlatMemory::new();
    mem.bytes[0x200] = 0xC3;
    mem.bytes[0x201] = 0x34;
    mem.bytes[0x202] = 0x12;
    let (text, len) = Debugger::disassemble(&mem, 0x200);
    assert_eq!(text, "jp 0x1234");
    assert_eq!(len, 3);

    // unmapped bytes disassemble as zero
    let small = FlatMemory { bytes: vec![] };
    let (text, len) = Debugger::disassemble(&small, 0);
    assert_eq!(text, "nop");
    assert_eq!(len, 1);
}

#[test]
fn sixteen_bit_loads_and_indirect_accumulator() {
    // ld de, 0xC000; ld (de), a; ld a, (bc)
    let mut cpu = cpu_with_program(&[0x11, 0x00, 0xC0, 0x12, 0x0A]);
    cpu.registers.a = 0x77;
    cpu.registers.set_bc(0x0001);
    assert_eq!(cpu.step(), Ok(12));
    assert_eq!(cpu.registers.de(), 0xC000);
    assert_eq!(cpu.step(), Ok(8));
    assert_eq!(cpu.memory_controller.bytes[0xC000], 0x77);
    assert_eq!(cpu.step(), Ok(8));
    assert_eq!(cpu.registers.a, 0x00); // byte at 0x0001
}

#[test]
fn conditional_returns_and_jumps() {
    // ret nz, not taken costs 8
    let mut cpu = cpu_with_program(&[0xC0]);
    cpu.registers.set_z();
    assert_eq!(cpu.step(), Ok(8));
    assert_eq!(cpu.registers.pc, 1);

    // ret nz taken costs 20 and pops the return address
    let mut cpu = cpu_with_program(&[0xC0]);
    cpu.registers.sp = 0x9000;
    cpu.memory_controller.bytes[0x9000] = 0x34;
    cpu.memory_controller.bytes[0x9001] = 0x12;
    assert_eq!(cpu.step(), Ok(20));
    assert_eq!(cpu.registers.pc, 0x1234);
    assert_eq!(cpu.registers.sp, 0x9002);

    // jp c taken and not taken
    let mut cpu = cpu_with_program(&[0xDA, 0x00, 0x20]);
    cpu.registers.set_c();
    assert_eq!(cpu.step(), Ok(16));
    assert_eq!(cpu.registers.pc, 0x2000);
    let mut cpu = cpu_with_program(&[0xDA, 0x00, 0x20]);
    assert_eq!(cpu.step(), Ok(12));
    assert_eq!(cpu.registers.pc, 3);

    // call z not taken costs 12 and pushes nothing
    let mut cpu = cpu_with_program(&[0xCC, 0x00, 0x20]);
    cpu.registers.sp = 0xFFFE;
    assert_eq!(cpu.step(), Ok(12));
    assert_eq!(cpu.registers.sp, 0xFFFE);
}

#[test]
fn reti_jp_hl_and_ld_sp_hl() {
    // reti pops and re-enables interrupts at once
    let mut cpu = cpu_with_program(&[0xD9]);
    cpu.registers.sp = 0x9000;
    cpu.memory_controller.bytes[0x9000] = 0x50;
    assert_eq!(cpu.step(), Ok(16));
    assert_eq!(cpu.registers.pc, 0x0050);
    assert!(cpu.interrupts_enabled);

    // jp (hl); ld sp, hl
    let mut cpu = cpu_with_program(&[0xE9]);
    cpu.registers.set_hl(0x4321);
    assert_eq!(cpu.step(), Ok(4));
    assert_eq!(cpu.registers.pc, 0x4321);
    let mut cpu = cpu_with_program(&[0xF9]);
    cpu.registers.set_hl(0x8ACE);
    assert_eq!(cpu.step(), Ok(8));
    assert_eq!(cpu.registers.sp, 0x8ACE);
}

#[test]
fn ld_hl_sp_offset_sets_half_and_carry_from_low_byte() {
    let mut cpu = cpu_with_program(&[0xF8, 0x02]); // ld hl, sp+2
    cpu.registers.sp = 0x00FF;
    assert_eq!(cpu.step(), Ok(12));
    assert_eq!(cpu.registers.hl(), 0x0101);
    assert!(!cpu.registers.z());
    assert!(!cpu.registers.s());
    assert!(cpu.registers.h());
    assert!(cpu.registers.c());
}

#[test]
fn absolute_and_register_indirect_accumulator_forms() {
    // ld (nn), a; ld a, (nn)
    let mut cpu = cpu_with_program(&[0xEA, 0x00, 0x80, 0xFA, 0x00, 0x80]);
    cpu.registers.a = 0x3C;
    assert_eq!(cpu.step(), Ok(16));
    assert_eq!(cpu.memory_controller.bytes[0x8000], 0x3C);
    cpu.registers.a = 0;
    assert_eq!(cpu.step(), Ok(16));
    assert_eq!(cpu.registers.a, 0x3C);

    // ld (0xff00+c), a; ld a, (0xff00+c)
    let mut cpu = cpu_with_program(&[0xE2, 0xF2]);
    cpu.registers.a = 0x42;
    cpu.registers.c = 0x81;
    assert_eq!(cpu.step(), Ok(8));
    assert_eq!(cpu.memory_controller.bytes[0xFF81], 0x42);
    cpu.registers.a = 0;
    assert_eq!(cpu.step(), Ok(8));
    assert_eq!(cpu.registers.a, 0x42);
}

#[test]
fn accumulator_rotate_forms_clear_zero() {
    // rrca: low bit rotates into bit 7 and carry
    let mut cpu = cpu_with_program(&[0x0F, 0x17, 0x1F]);
    cpu.registers.a = 0x01;
    cpu.registers.set_z();
    assert_eq!(cpu.step(), Ok(4));
    assert_eq!(cpu.registers.a, 0x80);
    assert!(cpu.registers.c());
    assert!(!cpu.registers.z()); // accumulator rotates always clear Zero
    // rla shifts the carry in at bit 0
    assert_eq!(cpu.step(), Ok(4));
    assert_eq!(cpu.registers.a, 0x01);
    assert!(cpu.registers.c());
    // rra shifts the carry in at bit 7
    assert_eq!(cpu.step(), Ok(4));
    assert_eq!(cpu.registers.a, 0x80);
    assert!(cpu.registers.c());
}

#[test]
fn cb_rotates_and_shifts_on_registers_and_memory() {
    // rrc b; sla b; sra b
    let mut cpu = cpu_with_program(&[0xCB, 0x08, 0xCB, 0x20, 0xCB, 0x28]);
    cpu.registers.b = 0x81;
    assert_eq!(cpu.step(), Ok(8));
    assert_eq!(cpu.registers.b, 0xC0);
    assert!(cpu.registers.c());
    assert_eq!(cpu.step(), Ok(8));
    assert_eq!(cpu.registers.b, 0x80);
    assert!(cpu.registers.c());
    assert_eq!(cpu.step(), Ok(8));
    assert_eq!(cpu.registers.b, 0xC0); // sra keeps the sign bit
    assert!(!cpu.registers.c());

    // rlc (hl) reads, rotates and writes back memory
    let mut cpu = cpu_with_program(&[0xCB, 0x06]);
    cpu.registers.set_hl(0x3000);
    cpu.memory_controller.bytes[0x3000] = 0x80;
    assert_eq!(cpu.step(), Ok(16));
    assert_eq!(cpu.memory_controller.bytes[0x3000], 0x01);
    assert!(cpu.registers.c());

    // bit 0, (hl) costs 12
    let mut cpu = cpu_with_program(&[0xCB, 0x46]);
    cpu.registers.set_hl(0x3000);
    assert_eq!(cpu.step(), Ok(12));
    assert!(cpu.registers.z());
}

#[test]
fn dec_sixteen_bit_wraps() {
    let mut cpu = cpu_with_program(&[0x3B]); // dec sp
    cpu.registers.sp = 0;
    assert_eq!(cpu.step(), Ok(8));
    assert_eq!(cpu.registers.sp, 0xFFFF);
}

#[test]
fn sbc_and_or_immediate_forms() {
    // sbc a, 0x01 with borrow in
    let mut cpu = cpu_with_program(&[0xDE, 0x01]);
    cpu.registers.a = 0x03;
    cpu.registers.set_c();
    assert_eq!(cpu.step(), Ok(8));
    assert_eq!(cpu.registers.a, 0x01);
    assert!(cpu.registers.s());

    // or 0x0F
    let mut cpu = cpu_with_program(&[0xF6, 0x0F]);
    cpu.registers.a = 0xF0;
    assert_eq!(cpu.step(), Ok(8));
    assert_eq!(cpu.registers.a, 0xFF);
    assert!(!cpu.registers.z());
    assert!(!cpu.registers.c());
}

#[test]
fn inc_dec_memory_at_hl() {
    // inc (hl); dec (hl)
    let mut cpu = cpu_with_program(&[0x34, 0x35]);
    cpu.registers.set_hl(0x5000);
    cpu.memory_controller.bytes[0x5000] = 0xFF;
    assert_eq!(cpu.step(), Ok(12));
    assert_eq!(cpu.memory_controller.bytes[0x5000], 0x00);
    assert!(cpu.registers.z());
    assert!(cpu.registers.h());
    assert_eq!(cpu.step(), Ok(12));
    assert_eq!(cpu.memory_controller.bytes[0x5000], 0xFF);
    assert!(cpu.registers.s());
}

#[test]
fn set_and_res_on_memory_at_hl() {
    // set 3, (hl); res 3, (hl)
    let mut cpu = cpu_with_program(&[0xCB, 0xDE, 0xCB, 0x9E]);
    cpu.registers.set_hl(0x6000);
    assert_eq!(cpu.step(), Ok(16));
    assert_eq!(cpu.memory_controller.bytes[0x6000], 0x08);
    assert_eq!(cpu.step(), Ok(16));
    assert_eq!(cpu.memory_controller.bytes[0x6000], 0x00);
}

#[test]
fn taken_conditional_jump_and_call() {
    // jr nz with Zero clear is taken
    let mut cpu = cpu_with_program(&[0x20, 0x06]);
    assert_eq!(cpu.step(), Ok(12));
    assert_eq!(cpu.registers.pc, 8);

    // call c taken pushes the return address
    let mut cpu = cpu_with_program(&[0xDC, 0x00, 0x30]);
    cpu.registers.sp = 0xFFFE;
    cpu.registers.set_c();
    assert_eq!(cpu.step(), Ok(24));
    assert_eq!(cpu.registers.pc, 0x3000);
    assert_eq!(cpu.registers.sp, 0xFFFC);
}

#[test]
fn accumulator_stores_through_bc_and_de() {
    // ld (bc), a; ld (de), a
    let mut cpu = cpu_with_program(&[0x02, 0x12]);
    cpu.registers.a = 0xEE;
    cpu.registers.set_bc(0x7000);
    cpu.registers.set_de(0x7001);
    assert_eq!(cpu.step(), Ok(8));
    assert_eq!(cpu.step(), Ok(8));
    assert_eq!(cpu.memory_controller.bytes[0x7000], 0xEE);
    assert_eq!(cpu.memory_controller.bytes[0x7001], 0xEE);
}

#[test]
fn default_registers_match_power_on() {
    let regs: lr35902::registers::SharpLR35902Registers = Default::default();
    assert_eq!(regs, lr35902::registers::SharpLR35902Registers::new());
}

#[test]
fn run_cycles_idles_in_place_when_stopped_or_halted() {
    // a stopped core idles at exactly four cycles per step
    let mut cpu = cpu_with_program(&[0x10]);
    assert_eq!(cpu.step(), Ok(4)); // stop
    let before_pc = cpu.registers.pc;
    assert_eq!(cpu.run_cycles(10), Ok((12, 3)));
    assert!(cpu.stopped);
    assert_eq!(cpu.registers.pc, before_pc);

    // a halted core with no pending interrupt does the same
    let mut cpu = cpu_with_program(&[0x76]);
    assert_eq!(cpu.step(), Ok(4)); // halt
    assert_eq!(cpu.run_cycles(9), Ok((12, 3)));
    assert!(cpu.halted);
    assert_eq!(cpu.registers.pc, 1);

    // and execute_with_cycles leaves such a core exactly as it was
    let regs = cpu.registers;
    assert_eq!(cpu.execute_with_cycles(100), Ok(()));
    assert_eq!(cpu.registers, regs);
}

#[test]
fn run_cycles_halts_once_then_idles_on_halt_program() {
    // a running core whose next instruction is HALT executes it once and
    // spends the rest of the bound idling, four cycles per step
    let mut cpu = cpu_with_program(&[0x76]);
    let (cycles, steps) = cpu.run_cycles(20).unwrap();
    assert!(cpu.halted);
    assert_eq!(cpu.registers.pc, 1);
    assert_eq!(cycles, 20);
    assert_eq!(steps, 5);
}

use vstd::prelude::*;
use crate::registers::{SharpLR35902Registers, has_flag, F_ZERO, F_CARRY};
use crate::opcode::{OpcodeBits, op_p, op_q, op_x, op_y, op_z};
use crate::disasm::{imm16v, spec_is_illegal};
use crate::alu::{
    alu, add16, bit_test, daa, dec8, inc8, make_flags, rel16, res_bit, rot, set_bit, sp_flags,
    bit_mask, flags_byte, spec_alu, spec_bit, spec_rel16, spec_rot,
};

verus! {

/// CPU errors: a memory access the interconnect rejected. Both are fatal
/// to the in-progress execution call and surface to the caller.
#[derive(Debug, Clone, Copy, PartialEq, Eq, Structural)]
pub enum LRError {
    InvalidMemoryRead(u16),
    InvalidMemoryWrite(u16),
}

impl LRError {
    /// A short description of the error kind.
    pub fn description(&self) -> (r: &'static str)
        ensures
            self matches LRError::InvalidMemoryRead(_) ==> r@ == "Invalid memory read"@,
            self matches LRError::InvalidMemoryWrite(_) ==> r@ == "Invalid memory write"@,
    {
        match self {
            LRError::InvalidMemoryRead(_) => "Invalid memory read",
            LRError::InvalidMemoryWrite(_) => "Invalid memory write",
        }
    }

    /// The address the rejected access touched.
    pub fn address(&self) -> (r: u16)
        ensures
            self matches LRError::InvalidMemoryRead(a) ==> r == a,
            self matches LRError::InvalidMemoryWrite(a) ==> r == a,
    {
        match self {
            LRError::InvalidMemoryRead(a) => *a,
            LRError::InvalidMemoryWrite(a) => *a,
        }
    }
}

/// The memory interconnect the core executes against: an addressable byte
/// store over the 16-bit address space, implemented outside the core (a
/// memory map, cartridge banks, peripherals). Its model is the map of
/// mapped addresses to their bytes; an access outside that map fails, a
/// read never changes it, and a successful write updates exactly the
/// addressed byte.
pub trait MemoryInterconnect: Sized {
    /// The mapped addresses and the byte each one holds.
    spec fn mem(&self) -> Map<u16, u8>;

    /// Reads one byte. Fails exactly on unmapped addresses.
    fn read(&self, address: u16) -> (r: Result<u8, LRError>)
        ensures
            r matches Ok(v) ==> self.mem().dom().contains(address) && v == self.mem()[address],
            r matches Err(e) ==> !self.mem().dom().contains(address) && e == LRError::InvalidMemoryRead(
                address,
            ),
    ;

    /// Writes one byte. Fails exactly on unmapped addresses, and on
    /// success changes only the addressed byte.
    fn write(&mut self, address: u16, value: u8) -> (r: Result<(), LRError>)
        ensures
            r matches Ok(v) ==> old(self).mem().dom().contains(address) && final(self).mem()
                == old(self).mem().insert(address, value),
            r matches Err(e) ==> !old(self).mem().dom().contains(address) && final(self).mem()
                == old(self).mem() && e == LRError::InvalidMemoryWrite(address),
    ;
}

/// A plain byte-array interconnect: every address below the buffer length
/// is mapped, nothing else is. It backs the crate's tests and serves as
/// the reference implementation of the interconnect contract.
pub struct FlatMemory {
    pub bytes: Vec<u8>,
}

impl FlatMemory {
    /// A fully mapped 64 KiB memory, zero-filled.
    pub fn new() -> (r: FlatMemory)
        ensures
            r.bytes@.len() == 0x10000,
            forall|i: int| 0 <= i < 0x10000 ==> r.bytes@[i] == 0,
    {
        let mut bytes: Vec<u8> = Vec::new();
        let mut i: usize = 0;
        while i < 0x10000
            invariant
                i <= 0x10000,
                bytes@.len() == i,
                forall|k: int| 0 <= k < i ==> bytes@[k] == 0,
            decreases 0x10000 - i,
        {
            bytes.push(0);
            i = i + 1;
        }
        FlatMemory { bytes }
    }
}

impl MemoryInterconnect for FlatMemory {
    open spec fn mem(&self) -> Map<u16, u8> {
        Map::new(|a: u16| (a as int) < self.bytes@.len(), |a: u16| self.bytes@[a as int])
    }

    fn read(&self, address: u16) -> (r: Result<u8, LRError>) {
        if (address as usize) < self.bytes.len() {
            Ok(self.bytes[address as usize])
        } else {
            Err(LRError::InvalidMemoryRead(address))
        }
    }

    fn write(&mut self, address: u16, value: u8) -> (r: Result<(), LRError>) {
        if (address as usize) < self.bytes.len() {
            self.bytes[address as usize] = value;
            proof {
                assert(self.mem() =~= old(self).mem().insert(address, value));
            }
            Ok(())
        } else {
            Err(LRError::InvalidMemoryWrite(address))
        }
    }
}

/// Interface to a CPU.
pub trait Cpu {
    type Error;

    /// Execute opcodes until stopped from outside or a memory error.
    fn execute(&mut self) -> Result<(), Self::Error>;

    /// Execute opcodes until at least `cycle_bound` cycles have elapsed.
    fn execute_with_cycles(&mut self, cycle_bound: usize) -> Result<(), Self::Error>;

    /// Executes a single instruction, returning the number of cycles it
    /// consumed; every instruction consumes at least one cycle.
    fn step(&mut self) -> (r: Result<usize, Self::Error>)
        ensures
            r matches Ok(c) ==> c >= 1,
    ;
}

/// The 16-bit successor with wrap-around.
pub open spec fn spec_inc16(v: u16) -> u16 {
    if v == 0xFFFF {
        0
    } else {
        (v + 1) as u16
    }
}

/// The 16-bit predecessor with wrap-around.
pub open spec fn spec_dec16(v: u16) -> u16 {
    if v == 0 {
        0xFFFF
    } else {
        (v - 1) as u16
    }
}

/// Increments a 16-bit value with wrap-around.
pub fn wrap_inc16(v: u16) -> (r: u16)
    ensures
        r == spec_inc16(v),
{
    if v == 0xFFFF {
        0
    } else {
        v + 1
    }
}

/// Decrements a 16-bit value with wrap-around.
pub fn wrap_dec16(v: u16) -> (r: u16)
    ensures
        r == spec_dec16(v),
{
    if v == 0 {
        0xFFFF
    } else {
        v - 1
    }
}

/// Whether the condition selected by `y` (NZ, Z, NC, C in that order)
/// holds under the flags byte `f`.
pub open spec fn spec_cond(y: u8, f: u8) -> bool {
    if y == 0 {
        !has_flag(f, F_ZERO)
    } else if y == 1 {
        has_flag(f, F_ZERO)
    } else if y == 2 {
        !has_flag(f, F_CARRY)
    } else {
        has_flag(f, F_CARRY)
    }
}

/// The register file after a CB-prefixed operation whose operand is a
/// register (selector z != 6), decoded from the byte after the prefix:
/// rotate/shift writes the result and its flags, bit-test writes only the
/// flags, and bit-clear/bit-set write only the selected register.
pub open spec fn spec_cb_regs(cb: u8, regs: SharpLR35902Registers) -> SharpLR35902Registers {
    let v = regs.spec_reg(op_z(cb));
    let cf = has_flag(regs.f, F_CARRY);
    if op_x(cb) == 0 {
        SharpLR35902Registers {
            f: flags_byte(spec_rot(op_y(cb), v, cf).0 == 0, false, false, spec_rot(op_y(cb), v, cf).1),
            ..regs.spec_with_reg(op_z(cb), spec_rot(op_y(cb), v, cf).0)
        }
    } else if op_x(cb) == 1 {
        SharpLR35902Registers { f: flags_byte(!spec_bit(v, op_y(cb)), false, true, cf), ..regs }
    } else if op_x(cb) == 2 {
        regs.spec_with_reg(op_z(cb), v & !bit_mask(op_y(cb)))
    } else {
        regs.spec_with_reg(op_z(cb), v | bit_mask(op_y(cb)))
    }
}

/// The register file after an accumulator rotate or flag operation
/// (group x = 0, z = 7): RLCA, RRCA, RLA, RRA, DAA, CPL, SCF, CCF in the
/// fixed selector order. The accumulator rotates clear Zero; CPL sets
/// Subtract and Half-carry; SCF and CCF drive only the carry.
pub open spec fn spec_acc_op(y: u8, regs: SharpLR35902Registers) -> SharpLR35902Registers {
    let cf = has_flag(regs.f, F_CARRY);
    let zf = has_flag(regs.f, F_ZERO);
    if y <= 3 {
        SharpLR35902Registers {
            a: spec_rot(y, regs.a, cf).0,
            f: flags_byte(false, false, false, spec_rot(y, regs.a, cf).1),
            ..regs
        }
    } else if y == 4 {
        SharpLR35902Registers {
            a: crate::alu::spec_daa(regs.a, regs.f).0,
            f: crate::alu::spec_daa(regs.a, regs.f).1,
            ..regs
        }
    } else if y == 5 {
        SharpLR35902Registers { a: !regs.a, f: flags_byte(zf, true, true, cf), ..regs }
    } else if y == 6 {
        SharpLR35902Registers { f: flags_byte(zf, false, false, true), ..regs }
    } else {
        SharpLR35902Registers { f: flags_byte(zf, false, false, !cf), ..regs }
    }
}

/// The original Sharp LR35902 processor, an 8080/Z80 derivative; most
/// notably the shadow register set is gone and several opcodes differ.
/// It owns its register file and the interconnect it executes against;
/// external collaborators act on the interconnect between steps.
pub struct SharpLR35902<M: MemoryInterconnect> {
    pub registers: SharpLR35902Registers,
    pub interrupt_pending: bool,
    pub halted: bool,
    pub stopped: bool,
    pub interrupts_enabled: bool,
    pub ei_delay: bool,
    pub memory_controller: M,
}

impl<M: MemoryInterconnect> SharpLR35902<M> {
    /// The interconnect's current contents, as the core sees them.
    pub open spec fn mem(self) -> Map<u16, u8> {
        self.memory_controller.mem()
    }

    /// The run/halt/interrupt control state, unchanged between two values.
    pub open spec fn spec_same_control(a: Self, b: Self) -> bool {
        &&& a.interrupt_pending == b.interrupt_pending
        &&& a.halted == b.halted
        &&& a.stopped == b.stopped
        &&& a.interrupts_enabled == b.interrupts_enabled
        &&& a.ei_delay == b.ei_delay
    }

    /// Running with no interrupt about to be acknowledged: the next step
    /// fetches and executes an instruction.
    pub open spec fn spec_running_normal(self) -> bool {
        &&& !self.halted
        &&& !self.stopped
        &&& !(self.interrupt_pending && self.interrupts_enabled)
    }

    /// Creates a new `SharpLR35902` at power-on state around the given
    /// interconnect: registers zeroed, running, interrupts disabled.
    pub fn new(mi: M) -> (r: SharpLR35902<M>)
        ensures
            r.registers == (SharpLR35902Registers { a: 0, f: 0, b: 0, c: 0, d: 0, e: 0, h: 0, l: 0, pc: 0, sp: 0 }),
            !r.interrupt_pending,
            !r.halted,
            !r.stopped,
            !r.interrupts_enabled,
            !r.ei_delay,
            r.memory_controller == mi,
    {
        SharpLR35902 {
            registers: SharpLR35902Registers::new(),
            interrupt_pending: false,
            halted: false,
            stopped: false,
            interrupts_enabled: false,
            ei_delay: false,
            memory_controller: mi,
        }
    }

    /// Delivers an interrupt from outside the core: it becomes pending and
    /// is acknowledged, or wakes a halted core, on the next step.
    pub fn request_interrupt(&mut self)
        ensures
            *final(self) == (SharpLR35902 { interrupt_pending: true, ..*old(self) }),
    {
        self.interrupt_pending = true;
    }

    /// Reads the byte at the program counter and advances it; the counter
    /// advances whether or not the read succeeds.
    fn read_instruction_byte(&mut self) -> (r: Result<u8, LRError>)
        ensures
            *final(self) == (SharpLR35902 {
                registers: (SharpLR35902Registers { pc: spec_inc16(old(self).registers.pc), ..old(self).registers }),
                ..*old(self)
            }),
            r matches Ok(b) ==> old(self).mem().dom().contains(old(self).registers.pc) && b == old(self).mem()[old(self).registers.pc],
            r matches Err(e) ==> !old(self).mem().dom().contains(old(self).registers.pc) && e
                == LRError::InvalidMemoryRead(old(self).registers.pc),
    {
        let pc = self.registers.pc;
        self.registers.pc = wrap_inc16(pc);
        self.memory_controller.read(pc)
    }

    /// Reads the two-byte little-endian immediate at the program counter,
    /// advancing it past both bytes whether or not the reads succeed.
    fn read_imm16(&mut self) -> (r: Result<u16, LRError>)
        ensures
            *final(self) == (SharpLR35902 {
                registers: (SharpLR35902Registers {
                    pc: final(self).registers.pc,
                    ..old(self).registers
                }),
                ..*old(self)
            }),
            final(self).registers.pc == spec_inc16(spec_inc16(old(self).registers.pc)) || final(self).registers.pc == spec_inc16(old(self).registers.pc),
            r matches Ok(v) ==> final(self).registers.pc == spec_inc16(
                spec_inc16(old(self).registers.pc),
            ) && old(self).mem().dom().contains(old(self).registers.pc) && old(self).mem().dom().contains(spec_inc16(old(self).registers.pc)) && v == old(self).mem()[old(self).registers.pc] + 256 * old(self).mem()[spec_inc16(old(self).registers.pc)],
            r is Err ==> (r matches Err(e) ==> e matches LRError::InvalidMemoryRead(_)),
            old(self).mem().dom().contains(old(self).registers.pc) && old(self).mem().dom().contains(spec_inc16(old(self).registers.pc)) ==> r is Ok,
    {
        let lo = self.read_instruction_byte()?;
        let hi = self.read_instruction_byte()?;
        Ok(lo as u16 + 256 * (hi as u16))
    }

    /// Reads the byte at the address in `HL`.
    fn read_hl(&self) -> (r: Result<u8, LRError>)
        ensures
            r matches Ok(b) ==> self.mem().dom().contains(self.registers.spec_hl()) && b == self.mem()[self.registers.spec_hl()],
            r matches Err(e) ==> !self.mem().dom().contains(self.registers.spec_hl()) && e
                == LRError::InvalidMemoryRead(self.registers.spec_hl()),
    {
        let hl = self.registers.hl();
        self.memory_controller.read(hl)
    }

    /// Writes one byte through the interconnect.
    fn write(&mut self, addr: u16, data: u8) -> (r: Result<(), LRError>)
        ensures
            final(self).registers == old(self).registers,
            final(self).interrupt_pending == old(self).interrupt_pending,
            final(self).halted == old(self).halted,
            final(self).stopped == old(self).stopped,
            final(self).interrupts_enabled == old(self).interrupts_enabled,
            final(self).ei_delay == old(self).ei_delay,
            r matches Ok(v) ==> old(self).mem().dom().contains(addr) && final(self).mem() == old(self).mem().insert(addr, data),
            r matches Err(e) ==> !old(self).mem().dom().contains(addr) && final(self).mem() == old(self).mem() && e == LRError::InvalidMemoryWrite(addr),
    {
        self.memory_controller.write(addr, data)
    }

    /// Writes one byte to the address in `HL`.
    fn write_hl(&mut self, data: u8) -> (r: Result<(), LRError>)
        ensures
            final(self).registers == old(self).registers,
            final(self).interrupt_pending == old(self).interrupt_pending,
            final(self).halted == old(self).halted,
            final(self).stopped == old(self).stopped,
            final(self).interrupts_enabled == old(self).interrupts_enabled,
            final(self).ei_delay == old(self).ei_delay,
            r matches Ok(v) ==> old(self).mem().dom().contains(old(self).registers.spec_hl())
                && final(self).mem() == old(self).mem().insert(old(self).registers.spec_hl(), data),
            r matches Err(e) ==> !old(self).mem().dom().contains(old(self).registers.spec_hl())
                && final(self).mem() == old(self).mem() && e == LRError::InvalidMemoryWrite(
                old(self).registers.spec_hl(),
            ),
    {
        let hl = self.registers.hl();
        self.memory_controller.write(hl, data)
    }

    /// Pushes a 16-bit value: high byte at SP-1, low byte at SP-2, leaving
    /// SP two lower. On failure the registers are unchanged.
    fn push16(&mut self, v: u16) -> (r: Result<(), LRError>)
        ensures
            final(self).interrupt_pending == old(self).interrupt_pending,
            final(self).halted == old(self).halted,
            final(self).stopped == old(self).stopped,
            final(self).interrupts_enabled == old(self).interrupts_enabled,
            final(self).ei_delay == old(self).ei_delay,
            r matches Ok(u) ==> final(self).registers == (SharpLR35902Registers {
                sp: spec_dec16(spec_dec16(old(self).registers.sp)),
                ..old(self).registers
            }) && final(self).mem() == old(self).mem().insert(
                spec_dec16(old(self).registers.sp),
                (v / 256) as u8,
            ).insert(spec_dec16(spec_dec16(old(self).registers.sp)), (v % 256) as u8),
            r is Err ==> final(self).registers == old(self).registers && (r matches Err(e) ==> (
            e matches LRError::InvalidMemoryWrite(_))),
            old(self).mem().dom().contains(spec_dec16(old(self).registers.sp)) && old(self).mem().dom().contains(spec_dec16(spec_dec16(old(self).registers.sp))) ==> r is Ok,
    {
        proof {
            assert(v / 256 < 256) by (nonlinear_arith)
                requires
                    v < 65536,
            ;
        }
        let hi_addr = wrap_dec16(self.registers.sp);
        let lo_addr = wrap_dec16(hi_addr);
        self.write(hi_addr, (v / 256) as u8)?;
        self.write(lo_addr, (v % 256) as u8)?;
        self.registers.sp = lo_addr;
        Ok(())
    }

    /// Pops a 16-bit value: low byte from SP, high byte from SP+1, leaving
    /// SP two higher. On failure the registers are unchanged.
    fn pop16(&mut self) -> (r: Result<u16, LRError>)
        ensures
            final(self).interrupt_pending == old(self).interrupt_pending,
            final(self).halted == old(self).halted,
            final(self).stopped == old(self).stopped,
            final(self).interrupts_enabled == old(self).interrupts_enabled,
            final(self).ei_delay == old(self).ei_delay,
            final(self).mem() == old(self).mem(),
            r matches Ok(v) ==> final(self).registers == (SharpLR35902Registers {
                sp: spec_inc16(spec_inc16(old(self).registers.sp)),
                ..old(self).registers
            }) && old(self).mem().dom().contains(old(self).registers.sp) && old(self).mem().dom().contains(spec_inc16(old(self).registers.sp)) && v == old(self).mem()[old(self).registers.sp] + 256 * old(self).mem()[spec_inc16(old(self).registers.sp)],
            r is Err ==> final(self).registers == old(self).registers && (r matches Err(e) ==> (
            e matches LRError::InvalidMemoryRead(_))),
            old(self).mem().dom().contains(old(self).registers.sp) && old(self).mem().dom().contains(spec_inc16(old(self).registers.sp)) ==> r is Ok,
    {
        let lo_addr = self.registers.sp;
        let hi_addr = wrap_inc16(lo_addr);
        let lo = self.memory_controller.read(lo_addr)?;
        let hi = self.memory_controller.read(hi_addr)?;
        self.registers.sp = wrap_inc16(hi_addr);
        Ok(lo as u16 + 256 * (hi as u16))
    }

    /// Whether the condition selected by `y` holds of the current flags.
    fn cond(&self, y: u8) -> (r: bool)
        requires
            y < 4,
        ensures
            r == spec_cond(y, self.registers.f),
    {
        match y {
            0 => !(self.registers.f & F_ZERO == F_ZERO),
            1 => self.registers.f & F_ZERO == F_ZERO,
            2 => !(self.registers.f & F_CARRY == F_CARRY),
            _ => self.registers.f & F_CARRY == F_CARRY,
        }
    }

    /// The interrupt-acknowledge sequence: push the program counter, jump
    /// to the interrupt vector, clear the pending interrupt and disable
    /// interrupts. Costs a fixed 20 cycles.
    fn acknowledge_interrupt(&mut self) -> (r: Result<usize, LRError>)
        ensures
            r matches Ok(c) ==> c == 20 && !final(self).halted && !final(self).interrupt_pending
                && !final(self).interrupts_enabled && final(self).registers.pc == 0x40 && final(self).registers.sp == spec_dec16(spec_dec16(old(self).registers.sp)) && final(self).mem()
                == old(self).mem().insert(
                spec_dec16(old(self).registers.sp),
                (old(self).registers.pc / 256) as u8,
            ).insert(
                spec_dec16(spec_dec16(old(self).registers.sp)),
                (old(self).registers.pc % 256) as u8,
            ),
            !final(self).halted && !final(self).interrupt_pending && !final(self).interrupts_enabled,
            r is Err ==> (r matches Err(e) ==> (e matches LRError::InvalidMemoryWrite(_))),
    {
        self.interrupt_pending = false;
        self.interrupts_enabled = false;
        self.halted = false;
        let pc = self.registers.pc;
        self.push16(pc)?;
        self.registers.pc = 0x40;
        Ok(20)
    }

    /// Executes a single instruction, returning the cycles it consumed.
    ///
    /// If an interrupt is pending and interrupts are enabled, the core
    /// instead runs the interrupt-acknowledge sequence and reports its
    /// fixed cost. A halted core wakes on a pending interrupt — whether or
    /// not interrupts are enabled — and otherwise idles at 4 cycles per
    /// step without fetching. A stopped core idles until reset from
    /// outside. Executing HALT moves a running core to the halted state.
    #[verifier::rlimit(80)]
    pub fn step(&mut self) -> (r: Result<usize, LRError>)
        ensures
            r matches Ok(c) ==> 4 <= c <= 24,
            old(self).stopped ==> r == Ok::<usize, LRError>(4) && *final(self) == *old(self),
            !old(self).stopped && old(self).halted && !old(self).interrupt_pending ==> r == Ok::<
                usize,
                LRError,
            >(4) && *final(self) == *old(self),
            !old(self).stopped && old(self).halted && old(self).interrupt_pending && old(self).interrupts_enabled ==> !final(self).halted,
            !old(self).stopped && old(self).halted && old(self).interrupt_pending && !old(self).interrupts_enabled && (old(self).mem().dom().contains(old(self).registers.pc) ==> old(self).mem()[old(self).registers.pc] != 0x76) ==> !final(self).halted,
            !old(self).stopped && old(self).interrupt_pending && old(self).interrupts_enabled ==> (
            r matches Ok(c) ==> c == 20 && !final(self).halted && !final(self).interrupt_pending
                && !final(self).interrupts_enabled && final(self).registers.pc == 0x40 && final(self).registers.sp == spec_dec16(spec_dec16(old(self).registers.sp)) && final(self).mem()
                == old(self).mem().insert(
                spec_dec16(old(self).registers.sp),
                (old(self).registers.pc / 256) as u8,
            ).insert(
                spec_dec16(spec_dec16(old(self).registers.sp)),
                (old(self).registers.pc % 256) as u8,
            )),
            old(self).spec_running_normal() && old(self).mem().dom().contains(
                old(self).registers.pc,
            ) && old(self).mem()[old(self).registers.pc] == 0x76 ==> r == Ok::<usize, LRError>(4)
                && final(self).halted && final(self).registers == (SharpLR35902Registers {
                pc: spec_inc16(old(self).registers.pc),
                ..old(self).registers
            }) && final(self).mem() == old(self).mem() && final(self).interrupt_pending == old(self).interrupt_pending && !final(self).stopped,
            old(self).spec_running_normal() && !old(self).mem().dom().contains(
                old(self).registers.pc,
            ) ==> r == Err::<usize, LRError>(LRError::InvalidMemoryRead(old(self).registers.pc))
                && final(self).registers == (SharpLR35902Registers {
                pc: spec_inc16(old(self).registers.pc),
                ..old(self).registers
            }) && final(self).mem() == old(self).mem(),
            old(self).spec_running_normal() && old(self).mem().dom().contains(
                old(self).registers.pc,
            ) && old(self).mem()[old(self).registers.pc] == 0x00 ==> r == Ok::<usize, LRError>(4)
                && final(self).registers == (SharpLR35902Registers {
                pc: spec_inc16(old(self).registers.pc),
                ..old(self).registers
            }) && final(self).mem() == old(self).mem() && !final(self).halted && final(self).stopped == old(self).stopped && final(self).interrupt_pending == old(self).interrupt_pending
                && final(self).interrupts_enabled == (old(self).interrupts_enabled || old(self).ei_delay) && !final(self).ei_delay,
            old(self).spec_running_normal() && old(self).mem().dom().contains(
                old(self).registers.pc,
            ) && old(self).mem()[old(self).registers.pc] == 0x10 ==> r == Ok::<usize, LRError>(4)
                && final(self).stopped && final(self).registers == (SharpLR35902Registers {
                pc: spec_inc16(old(self).registers.pc),
                ..old(self).registers
            }) && final(self).mem() == old(self).mem() && !final(self).halted && final(self).interrupt_pending == old(self).interrupt_pending,
            old(self).spec_running_normal() && old(self).mem().dom().contains(
                old(self).registers.pc,
            ) && old(self).mem()[old(self).registers.pc] == 0xF3 ==> r == Ok::<usize, LRError>(4)
                && final(self).registers == (SharpLR35902Registers {
                pc: spec_inc16(old(self).registers.pc),
                ..old(self).registers
            }) && final(self).mem() == old(self).mem() && !final(self).interrupts_enabled && !final(self).ei_delay && final(self).interrupt_pending == old(self).interrupt_pending && !final(self).halted && final(self).stopped == old(self).stopped,
            old(self).spec_running_normal() && old(self).mem().dom().contains(
                old(self).registers.pc,
            ) && old(self).mem()[old(self).registers.pc] == 0xFB ==> r == Ok::<usize, LRError>(4)
                && final(self).registers == (SharpLR35902Registers {
                pc: spec_inc16(old(self).registers.pc),
                ..old(self).registers
            }) && final(self).mem() == old(self).mem() && final(self).ei_delay && final(self).interrupts_enabled == (old(self).interrupts_enabled || old(self).ei_delay) && final(self).interrupt_pending == old(self).interrupt_pending && !final(self).halted && final(self).stopped == old(self).stopped,
            old(self).spec_running_normal() && old(self).mem().dom().contains(
                old(self).registers.pc,
            ) && op_x(old(self).mem()[old(self).registers.pc]) == 1 && op_y(
                old(self).mem()[old(self).registers.pc],
            ) != 6 && op_z(old(self).mem()[old(self).registers.pc]) != 6 ==> r == Ok::<
                usize,
                LRError,
            >(4) && final(self).registers.spec_reg(op_y(old(self).mem()[old(self).registers.pc]))
                == old(self).registers.spec_reg(op_z(old(self).mem()[old(self).registers.pc]))
                && final(self).registers.pc == spec_inc16(old(self).registers.pc) && final(self).mem() == old(self).mem(),
            old(self).spec_running_normal() && old(self).mem().dom().contains(
                old(self).registers.pc,
            ) && op_x(old(self).mem()[old(self).registers.pc]) == 2 && op_z(
                old(self).mem()[old(self).registers.pc],
            ) != 6 ==> r == Ok::<usize, LRError>(4) && final(self).registers.a == spec_alu(
                op_y(old(self).mem()[old(self).registers.pc]),
                old(self).registers.a,
                old(self).registers.spec_reg(op_z(old(self).mem()[old(self).registers.pc])),
                old(self).registers.f,
            ).0 && final(self).registers.f == spec_alu(
                op_y(old(self).mem()[old(self).registers.pc]),
                old(self).registers.a,
                old(self).registers.spec_reg(op_z(old(self).mem()[old(self).registers.pc])),
                old(self).registers.f,
            ).1 && final(self).registers.pc == spec_inc16(old(self).registers.pc) && final(self).mem() == old(self).mem(),
            old(self).spec_running_normal() && old(self).mem().dom().contains(
                old(self).registers.pc,
            ) && spec_is_illegal(old(self).mem()[old(self).registers.pc]) ==> r == Ok::<
                usize,
                LRError,
            >(4) && final(self).stopped && final(self).registers.pc == spec_inc16(
                old(self).registers.pc,
            ) && final(self).mem() == old(self).mem(),
            old(self).spec_running_normal() && old(self).mem().dom().contains(
                old(self).registers.pc,
            ) && op_x(old(self).mem()[old(self).registers.pc]) == 0 && op_z(
                old(self).mem()[old(self).registers.pc],
            ) == 6 && op_y(old(self).mem()[old(self).registers.pc]) != 6 ==> ((old(self).mem().dom().contains(spec_inc16(old(self).registers.pc)) ==> r == Ok::<
                usize,
                LRError,
            >(8) && final(self).registers.spec_reg(op_y(old(self).mem()[old(self).registers.pc]))
                == old(self).mem()[spec_inc16(old(self).registers.pc)] && final(self).registers.pc
                == spec_inc16(spec_inc16(old(self).registers.pc)) && final(self).mem() == old(self).mem()) && (!old(self).mem().dom().contains(spec_inc16(old(self).registers.pc)) ==> r
                == Err::<usize, LRError>(
                LRError::InvalidMemoryRead(spec_inc16(old(self).registers.pc)),
            ))),
            old(self).spec_running_normal() && old(self).mem().dom().contains(
                old(self).registers.pc,
            ) && old(self).mem()[old(self).registers.pc] == 0xCB && old(self).mem().dom().contains(
                spec_inc16(old(self).registers.pc),
            ) && op_z(old(self).mem()[spec_inc16(old(self).registers.pc)]) != 6 ==> r == Ok::<
                usize,
                LRError,
            >(8) && final(self).registers == spec_cb_regs(
                old(self).mem()[spec_inc16(old(self).registers.pc)],
                (SharpLR35902Registers {
                    pc: spec_inc16(spec_inc16(old(self).registers.pc)),
                    ..old(self).registers
                }),
            ) && final(self).mem() == old(self).mem(),
            old(self).spec_running_normal() && old(self).mem().dom().contains(
                old(self).registers.pc,
            ) && old(self).mem()[old(self).registers.pc] == 0xCB && !old(self).mem().dom().contains(
                spec_inc16(old(self).registers.pc),
            ) ==> r == Err::<usize, LRError>(
                LRError::InvalidMemoryRead(spec_inc16(old(self).registers.pc)),
            ),
            old(self).spec_running_normal() && old(self).mem().dom().contains(
                old(self).registers.pc,
            ) && op_x(old(self).mem()[old(self).registers.pc]) == 0 && op_z(
                old(self).mem()[old(self).registers.pc],
            ) == 7 ==> r == Ok::<usize, LRError>(4) && final(self).registers == spec_acc_op(
                op_y(old(self).mem()[old(self).registers.pc]),
                (SharpLR35902Registers { pc: spec_inc16(old(self).registers.pc), ..old(self).registers }),
            ) && final(self).mem() == old(self).mem(),
            old(self).spec_running_normal() && old(self).mem().dom().contains(
                old(self).registers.pc,
            ) && op_x(old(self).mem()[old(self).registers.pc]) == 0 && op_z(
                old(self).mem()[old(self).registers.pc],
            ) == 3 ==> r == Ok::<usize, LRError>(8) && final(self).registers
                == (SharpLR35902Registers {
                pc: spec_inc16(old(self).registers.pc),
                ..old(self).registers
            }).spec_with_pair(
                op_p(old(self).mem()[old(self).registers.pc]),
                if op_q(old(self).mem()[old(self).registers.pc]) == 0 {
                    spec_inc16(old(self).registers.spec_pair(op_p(old(self).mem()[old(self).registers.pc])))
                } else {
                    spec_dec16(old(self).registers.spec_pair(op_p(old(self).mem()[old(self).registers.pc])))
                },
            ) && final(self).mem() == old(self).mem(),
            old(self).spec_running_normal() && old(self).mem().dom().contains(
                old(self).registers.pc,
            ) && op_x(old(self).mem()[old(self).registers.pc]) == 0 && op_z(
                old(self).mem()[old(self).registers.pc],
            ) == 4 && op_y(old(self).mem()[old(self).registers.pc]) != 6 ==> r == Ok::<
                usize,
                LRError,
            >(4) && final(self).registers == (SharpLR35902Registers {
                f: crate::alu::spec_inc8(
                    old(self).registers.spec_reg(op_y(old(self).mem()[old(self).registers.pc])),
                    old(self).registers.f,
                ).1,
                ..(SharpLR35902Registers {
                    pc: spec_inc16(old(self).registers.pc),
                    ..old(self).registers
                }).spec_with_reg(
                    op_y(old(self).mem()[old(self).registers.pc]),
                    crate::alu::spec_inc8(
                        old(self).registers.spec_reg(op_y(old(self).mem()[old(self).registers.pc])),
                        old(self).registers.f,
                    ).0,
                )
            }) && final(self).mem() == old(self).mem(),
            old(self).spec_running_normal() && old(self).mem().dom().contains(
                old(self).registers.pc,
            ) && op_x(old(self).mem()[old(self).registers.pc]) == 0 && op_z(
                old(self).mem()[old(self).registers.pc],
            ) == 5 && op_y(old(self).mem()[old(self).registers.pc]) != 6 ==> r == Ok::<
                usize,
                LRError,
            >(4) && final(self).registers == (SharpLR35902Registers {
                f: crate::alu::spec_dec8(
                    old(self).registers.spec_reg(op_y(old(self).mem()[old(self).registers.pc])),
                    old(self).registers.f,
                ).1,
                ..(SharpLR35902Registers {
                    pc: spec_inc16(old(self).registers.pc),
                    ..old(self).registers
                }).spec_with_reg(
                    op_y(old(self).mem()[old(self).registers.pc]),
                    crate::alu::spec_dec8(
                        old(self).registers.spec_reg(op_y(old(self).mem()[old(self).registers.pc])),
                        old(self).registers.f,
                    ).0,
                )
            }) && final(self).mem() == old(self).mem(),
            old(self).spec_running_normal() && old(self).mem().dom().contains(
                old(self).registers.pc,
            ) && op_x(old(self).mem()[old(self).registers.pc]) == 0 && op_z(
                old(self).mem()[old(self).registers.pc],
            ) == 1 && op_q(old(self).mem()[old(self).registers.pc]) == 1 ==> r == Ok::<
                usize,
                LRError,
            >(8) && final(self).registers == (SharpLR35902Registers {
                f: crate::alu::spec_add16(
                    old(self).registers.spec_hl(),
                    old(self).registers.spec_pair(op_p(old(self).mem()[old(self).registers.pc])),
                    old(self).registers.f,
                ).1,
                ..(SharpLR35902Registers {
                    pc: spec_inc16(old(self).registers.pc),
                    ..old(self).registers
                }).spec_with_pair(
                    2,
                    crate::alu::spec_add16(
                        old(self).registers.spec_hl(),
                        old(self).registers.spec_pair(
                            op_p(old(self).mem()[old(self).registers.pc]),
                        ),
                        old(self).registers.f,
                    ).0,
                )
            }) && final(self).mem() == old(self).mem(),
            old(self).spec_running_normal() && old(self).mem().dom().contains(
                old(self).registers.pc,
            ) && old(self).mem()[old(self).registers.pc] == 0x18 && old(self).mem().dom().contains(
                spec_inc16(old(self).registers.pc),
            ) ==> r == Ok::<usize, LRError>(12) && final(self).registers
                == (SharpLR35902Registers {
                pc: spec_rel16(
                    spec_inc16(spec_inc16(old(self).registers.pc)),
                    old(self).mem()[spec_inc16(old(self).registers.pc)],
                ),
                ..old(self).registers
            }) && final(self).mem() == old(self).mem(),
            old(self).spec_running_normal() && old(self).mem().dom().contains(
                old(self).registers.pc,
            ) && old(self).mem()[old(self).registers.pc] == 0xC3 && old(self).mem().dom().contains(
                spec_inc16(old(self).registers.pc),
            ) && old(self).mem().dom().contains(spec_inc16(spec_inc16(old(self).registers.pc)))
                ==> r == Ok::<usize, LRError>(16) && final(self).registers
                == (SharpLR35902Registers {
                pc: imm16v(
                    old(self).mem()[spec_inc16(old(self).registers.pc)],
                    old(self).mem()[spec_inc16(spec_inc16(old(self).registers.pc))],
                ),
                ..old(self).registers
            }) && final(self).mem() == old(self).mem(),
            old(self).spec_running_normal() && old(self).mem().dom().contains(
                old(self).registers.pc,
            ) && op_x(old(self).mem()[old(self).registers.pc]) == 3 && op_z(
                old(self).mem()[old(self).registers.pc],
            ) == 5 && op_q(old(self).mem()[old(self).registers.pc]) == 0 && old(self).mem().dom().contains(spec_dec16(old(self).registers.sp)) && old(self).mem().dom().contains(
                spec_dec16(spec_dec16(old(self).registers.sp)),
            ) ==> r == Ok::<usize, LRError>(16) && final(self).registers
                == (SharpLR35902Registers {
                pc: spec_inc16(old(self).registers.pc),
                sp: spec_dec16(spec_dec16(old(self).registers.sp)),
                ..old(self).registers
            }) && final(self).mem() == old(self).mem().insert(
                spec_dec16(old(self).registers.sp),
                (old(self).registers.spec_pair_stack(
                    op_p(old(self).mem()[old(self).registers.pc]),
                ) / 256) as u8,
            ).insert(
                spec_dec16(spec_dec16(old(self).registers.sp)),
                (old(self).registers.spec_pair_stack(
                    op_p(old(self).mem()[old(self).registers.pc]),
                ) % 256) as u8,
            ),
            old(self).spec_running_normal() && old(self).mem().dom().contains(
                old(self).registers.pc,
            ) && op_x(old(self).mem()[old(self).registers.pc]) == 3 && op_z(
                old(self).mem()[old(self).registers.pc],
            ) == 1 && op_q(old(self).mem()[old(self).registers.pc]) == 0 && old(self).mem().dom().contains(old(self).registers.sp) && old(self).mem().dom().contains(
                spec_inc16(old(self).registers.sp),
            ) ==> r == Ok::<usize, LRError>(12) && final(self).registers
                == (SharpLR35902Registers {
                pc: spec_inc16(old(self).registers.pc),
                sp: spec_inc16(spec_inc16(old(self).registers.sp)),
                ..old(self).registers
            }).spec_with_pair_stack(
                op_p(old(self).mem()[old(self).registers.pc]),
                imm16v(
                    old(self).mem()[old(self).registers.sp],
                    old(self).mem()[spec_inc16(old(self).registers.sp)],
                ),
            ) && final(self).mem() == old(self).mem(),
            old(self).spec_running_normal() && old(self).mem().dom().contains(
                old(self).registers.pc,
            ) && op_x(old(self).mem()[old(self).registers.pc]) == 3 && op_z(
                old(self).mem()[old(self).registers.pc],
            ) == 7 && old(self).mem().dom().contains(spec_dec16(old(self).registers.sp)) && old(self).mem().dom().contains(spec_dec16(spec_dec16(old(self).registers.sp))) ==> r == Ok::<
                usize,
                LRError,
            >(16) && final(self).registers == (SharpLR35902Registers {
                pc: (8 * op_y(old(self).mem()[old(self).registers.pc])) as u16,
                sp: spec_dec16(spec_dec16(old(self).registers.sp)),
                ..old(self).registers
            }) && final(self).mem() == old(self).mem().insert(
                spec_dec16(old(self).registers.sp),
                (spec_inc16(old(self).registers.pc) / 256) as u8,
            ).insert(
                spec_dec16(spec_dec16(old(self).registers.sp)),
                (spec_inc16(old(self).registers.pc) % 256) as u8,
            ),
            old(self).spec_running_normal() && old(self).mem().dom().contains(
                old(self).registers.pc,
            ) && op_x(old(self).mem()[old(self).registers.pc]) == 0 && op_z(
                old(self).mem()[old(self).registers.pc],
            ) == 1 && op_q(old(self).mem()[old(self).registers.pc]) == 0 && old(self).mem().dom().contains(spec_inc16(old(self).registers.pc)) && old(self).mem().dom().contains(
                spec_inc16(spec_inc16(old(self).registers.pc)),
            ) ==> r == Ok::<usize, LRError>(12) && final(self).registers
                == (SharpLR35902Registers {
                pc: spec_inc16(spec_inc16(spec_inc16(old(self).registers.pc))),
                ..old(self).registers
            }).spec_with_pair(
                op_p(old(self).mem()[old(self).registers.pc]),
                imm16v(
                    old(self).mem()[spec_inc16(old(self).registers.pc)],
                    old(self).mem()[spec_inc16(spec_inc16(old(self).registers.pc))],
                ),
            ) && final(self).mem() == old(self).mem(),
            old(self).spec_running_normal() && old(self).mem().dom().contains(
                old(self).registers.pc,
            ) && (old(self).mem()[old(self).registers.pc] == 0xC9 || old(self).mem()[old(self).registers.pc] == 0xD9) && old(self).mem().dom().contains(old(self).registers.sp)
                && old(self).mem().dom().contains(spec_inc16(old(self).registers.sp)) ==> r
                == Ok::<usize, LRError>(16) && final(self).registers == (SharpLR35902Registers {
                pc: imm16v(
                    old(self).mem()[old(self).registers.sp],
                    old(self).mem()[spec_inc16(old(self).registers.sp)],
                ),
                sp: spec_inc16(spec_inc16(old(self).registers.sp)),
                ..old(self).registers
            }) && final(self).mem() == old(self).mem() && (old(self).mem()[old(self).registers.pc]
                == 0xD9 ==> final(self).interrupts_enabled),
            old(self).spec_running_normal() && old(self).mem().dom().contains(
                old(self).registers.pc,
            ) && op_x(old(self).mem()[old(self).registers.pc]) == 3 && op_z(
                old(self).mem()[old(self).registers.pc],
            ) == 6 && old(self).mem().dom().contains(spec_inc16(old(self).registers.pc)) ==> r
                == Ok::<usize, LRError>(8) && final(self).registers == (SharpLR35902Registers {
                a: spec_alu(
                    op_y(old(self).mem()[old(self).registers.pc]),
                    old(self).registers.a,
                    old(self).mem()[spec_inc16(old(self).registers.pc)],
                    old(self).registers.f,
                ).0,
                f: spec_alu(
                    op_y(old(self).mem()[old(self).registers.pc]),
                    old(self).registers.a,
                    old(self).mem()[spec_inc16(old(self).registers.pc)],
                    old(self).registers.f,
                ).1,
                pc: spec_inc16(spec_inc16(old(self).registers.pc)),
                ..old(self).registers
            }) && final(self).mem() == old(self).mem(),
            old(self).spec_running_normal() && old(self).mem().dom().contains(
                old(self).registers.pc,
            ) && old(self).mem()[old(self).registers.pc] == 0xCD && old(self).mem().dom().contains(
                spec_inc16(old(self).registers.pc),
            ) && old(self).mem().dom().contains(spec_inc16(spec_inc16(old(self).registers.pc)))
                && old(self).mem().dom().contains(spec_dec16(old(self).registers.sp)) && old(self).mem().dom().contains(spec_dec16(spec_dec16(old(self).registers.sp))) ==> r == Ok::<
                usize,
                LRError,
            >(24) && final(self).registers == (SharpLR35902Registers {
                pc: imm16v(
                    old(self).mem()[spec_inc16(old(self).registers.pc)],
                    old(self).mem()[spec_inc16(spec_inc16(old(self).registers.pc))],
                ),
                sp: spec_dec16(spec_dec16(old(self).registers.sp)),
                ..old(self).registers
            }) && final(self).mem() == old(self).mem().insert(
                spec_dec16(old(self).registers.sp),
                (spec_inc16(spec_inc16(spec_inc16(old(self).registers.pc))) / 256) as u8,
            ).insert(
                spec_dec16(spec_dec16(old(self).registers.sp)),
                (spec_inc16(spec_inc16(spec_inc16(old(self).registers.pc))) % 256) as u8,
            ),
            old(self).spec_running_normal() && old(self).mem().dom().contains(
                old(self).registers.pc,
            ) && old(self).mem()[old(self).registers.pc] == 0xE9 ==> r == Ok::<usize, LRError>(4)
                && final(self).registers == (SharpLR35902Registers {
                pc: old(self).registers.spec_hl(),
                ..old(self).registers
            }) && final(self).mem() == old(self).mem(),
            old(self).spec_running_normal() && old(self).mem().dom().contains(
                old(self).registers.pc,
            ) && old(self).mem()[old(self).registers.pc] == 0xF9 ==> r == Ok::<usize, LRError>(8)
                && final(self).registers == (SharpLR35902Registers {
                pc: spec_inc16(old(self).registers.pc),
                sp: old(self).registers.spec_hl(),
                ..old(self).registers
            }) && final(self).mem() == old(self).mem(),
    {
        if self.stopped {
            return Ok(4);
        }
        if self.halted {
            if self.interrupt_pending {
                self.halted = false;
            } else {
                return Ok(4);
            }
        }
        if self.interrupt_pending && self.interrupts_enabled {
            return self.acknowledge_interrupt();
        }
        if self.ei_delay {
            self.interrupts_enabled = true;
            self.ei_delay = false;
        }
        let opcode = self.read_instruction_byte()?;
        self.execute_instruction(opcode)
    }

    /// Executes the already-fetched opcode `opcode`, consuming any further
    /// immediate bytes it needs, and returns its cycle cost.
    #[verifier::rlimit(80)]
    fn execute_instruction(&mut self, opcode: u8) -> (r: Result<usize, LRError>)
        ensures
            r matches Ok(c) ==> 4 <= c <= 24,
            opcode == 0x76 ==> r == Ok::<usize, LRError>(4) && final(self).halted && final(self).registers == old(self).registers && final(self).mem() == old(self).mem() && final(self).interrupt_pending == old(self).interrupt_pending && final(self).stopped == old(self).stopped,
            opcode != 0x76 ==> final(self).halted == old(self).halted,
            opcode == 0x00 ==> r == Ok::<usize, LRError>(4) && final(self).registers == old(self).registers && final(self).mem() == old(self).mem() && Self::spec_same_control(
                *final(self),
                *old(self),
            ),
            opcode == 0x10 ==> r == Ok::<usize, LRError>(4) && final(self).registers == old(self).registers && final(self).mem() == old(self).mem() && final(self).stopped && final(self).interrupt_pending == old(self).interrupt_pending && final(self).interrupts_enabled
                == old(self).interrupts_enabled && final(self).ei_delay == old(self).ei_delay,
            opcode == 0xF3 ==> r == Ok::<usize, LRError>(4) && final(self).registers == old(self).registers && final(self).mem() == old(self).mem() && !final(self).interrupts_enabled
                && !final(self).ei_delay && final(self).interrupt_pending == old(self).interrupt_pending && final(self).stopped == old(self).stopped,
            opcode == 0xFB ==> r == Ok::<usize, LRError>(4) && final(self).registers == old(self).registers && final(self).mem() == old(self).mem() && final(self).ei_delay && final(self).interrupts_enabled == old(self).interrupts_enabled && final(self).interrupt_pending
                == old(self).interrupt_pending && final(self).stopped == old(self).stopped,
            opcode == 0xCB && old(self).mem().dom().contains(old(self).registers.pc) && op_z(
                old(self).mem()[old(self).registers.pc],
            ) != 6 ==> r == Ok::<usize, LRError>(8) && final(self).registers == spec_cb_regs(
                old(self).mem()[old(self).registers.pc],
                (SharpLR35902Registers { pc: spec_inc16(old(self).registers.pc), ..old(self).registers }),
            ) && final(self).mem() == old(self).mem() && Self::spec_same_control(
                *final(self),
                *old(self),
            ),
            opcode == 0xCB && !old(self).mem().dom().contains(old(self).registers.pc) ==> r
                == Err::<usize, LRError>(LRError::InvalidMemoryRead(old(self).registers.pc)),
            op_x(opcode) == 0 && op_z(opcode) == 7 ==> r == Ok::<usize, LRError>(4) && final(self).registers == spec_acc_op(op_y(opcode), old(self).registers) && final(self).mem()
                == old(self).mem() && Self::spec_same_control(*final(self), *old(self)),
            op_x(opcode) == 0 && op_z(opcode) == 4 && op_y(opcode) != 6 ==> r == Ok::<
                usize,
                LRError,
            >(4) && final(self).registers == (SharpLR35902Registers {
                f: crate::alu::spec_inc8(old(self).registers.spec_reg(op_y(opcode)), old(self).registers.f).1,
                ..old(self).registers.spec_with_reg(
                    op_y(opcode),
                    crate::alu::spec_inc8(
                        old(self).registers.spec_reg(op_y(opcode)),
                        old(self).registers.f,
                    ).0,
                )
            }) && final(self).mem() == old(self).mem() && Self::spec_same_control(
                *final(self),
                *old(self),
            ),
            op_x(opcode) == 0 && op_z(opcode) == 5 && op_y(opcode) != 6 ==> r == Ok::<
                usize,
                LRError,
            >(4) && final(self).registers == (SharpLR35902Registers {
                f: crate::alu::spec_dec8(old(self).registers.spec_reg(op_y(opcode)), old(self).registers.f).1,
                ..old(self).registers.spec_with_reg(
                    op_y(opcode),
                    crate::alu::spec_dec8(
                        old(self).registers.spec_reg(op_y(opcode)),
                        old(self).registers.f,
                    ).0,
                )
            }) && final(self).mem() == old(self).mem() && Self::spec_same_control(
                *final(self),
                *old(self),
            ),
            op_x(opcode) == 0 && op_z(opcode) == 3 ==> r == Ok::<usize, LRError>(8) && final(self).registers == old(self).registers.spec_with_pair(
                op_p(opcode),
                if op_q(opcode) == 0 {
                    spec_inc16(old(self).registers.spec_pair(op_p(opcode)))
                } else {
                    spec_dec16(old(self).registers.spec_pair(op_p(opcode)))
                },
            ) && final(self).mem() == old(self).mem() && Self::spec_same_control(
                *final(self),
                *old(self),
            ),
            op_x(opcode) == 0 && op_z(opcode) == 1 && op_q(opcode) == 1 ==> r == Ok::<
                usize,
                LRError,
            >(8) && final(self).registers == (SharpLR35902Registers {
                f: crate::alu::spec_add16(
                    old(self).registers.spec_hl(),
                    old(self).registers.spec_pair(op_p(opcode)),
                    old(self).registers.f,
                ).1,
                ..old(self).registers.spec_with_pair(
                    2,
                    crate::alu::spec_add16(
                        old(self).registers.spec_hl(),
                        old(self).registers.spec_pair(op_p(opcode)),
                        old(self).registers.f,
                    ).0,
                )
            }) && final(self).mem() == old(self).mem() && Self::spec_same_control(
                *final(self),
                *old(self),
            ),
            opcode == 0x18 && old(self).mem().dom().contains(old(self).registers.pc) ==> r
                == Ok::<usize, LRError>(12) && final(self).registers == (SharpLR35902Registers {
                pc: spec_rel16(
                    spec_inc16(old(self).registers.pc),
                    old(self).mem()[old(self).registers.pc],
                ),
                ..old(self).registers
            }) && final(self).mem() == old(self).mem() && Self::spec_same_control(
                *final(self),
                *old(self),
            ),
            opcode == 0xC3 && old(self).mem().dom().contains(old(self).registers.pc) && old(self).mem().dom().contains(spec_inc16(old(self).registers.pc)) ==> r == Ok::<usize, LRError>(
                16,
            ) && final(self).registers == (SharpLR35902Registers {
                pc: imm16v(
                    old(self).mem()[old(self).registers.pc],
                    old(self).mem()[spec_inc16(old(self).registers.pc)],
                ),
                ..old(self).registers
            }) && final(self).mem() == old(self).mem() && Self::spec_same_control(
                *final(self),
                *old(self),
            ),
            op_x(opcode) == 3 && op_z(opcode) == 5 && op_q(opcode) == 0 && old(self).mem().dom().contains(spec_dec16(old(self).registers.sp)) && old(self).mem().dom().contains(
                spec_dec16(spec_dec16(old(self).registers.sp)),
            ) ==> r == Ok::<usize, LRError>(16) && final(self).registers
                == (SharpLR35902Registers {
                sp: spec_dec16(spec_dec16(old(self).registers.sp)),
                ..old(self).registers
            }) && final(self).mem() == old(self).mem().insert(
                spec_dec16(old(self).registers.sp),
                (old(self).registers.spec_pair_stack(op_p(opcode)) / 256) as u8,
            ).insert(
                spec_dec16(spec_dec16(old(self).registers.sp)),
                (old(self).registers.spec_pair_stack(op_p(opcode)) % 256) as u8,
            ) && Self::spec_same_control(*final(self), *old(self)),
            op_x(opcode) == 3 && op_z(opcode) == 1 && op_q(opcode) == 0 && old(self).mem().dom().contains(old(self).registers.sp) && old(self).mem().dom().contains(
                spec_inc16(old(self).registers.sp),
            ) ==> r == Ok::<usize, LRError>(12) && final(self).registers
                == (SharpLR35902Registers {
                sp: spec_inc16(spec_inc16(old(self).registers.sp)),
                ..old(self).registers
            }).spec_with_pair_stack(
                op_p(opcode),
                imm16v(
                    old(self).mem()[old(self).registers.sp],
                    old(self).mem()[spec_inc16(old(self).registers.sp)],
                ),
            ) && final(self).mem() == old(self).mem() && Self::spec_same_control(
                *final(self),
                *old(self),
            ),
            op_x(opcode) == 3 && op_z(opcode) == 7 && old(self).mem().dom().contains(
                spec_dec16(old(self).registers.sp),
            ) && old(self).mem().dom().contains(spec_dec16(spec_dec16(old(self).registers.sp)))
                ==> r == Ok::<usize, LRError>(16) && final(self).registers
                == (SharpLR35902Registers {
                pc: (8 * op_y(opcode)) as u16,
                sp: spec_dec16(spec_dec16(old(self).registers.sp)),
                ..old(self).registers
            }) && final(self).mem() == old(self).mem().insert(
                spec_dec16(old(self).registers.sp),
                (old(self).registers.pc / 256) as u8,
            ).insert(
                spec_dec16(spec_dec16(old(self).registers.sp)),
                (old(self).registers.pc % 256) as u8,
            ) && Self::spec_same_control(*final(self), *old(self)),
            op_x(opcode) == 0 && op_z(opcode) == 1 && op_q(opcode) == 0 && old(self).mem().dom().contains(old(self).registers.pc) && old(self).mem().dom().contains(
                spec_inc16(old(self).registers.pc),
            ) ==> r == Ok::<usize, LRError>(12) && final(self).registers
                == (SharpLR35902Registers {
                pc: spec_inc16(spec_inc16(old(self).registers.pc)),
                ..old(self).registers
            }).spec_with_pair(
                op_p(opcode),
                imm16v(
                    old(self).mem()[old(self).registers.pc],
                    old(self).mem()[spec_inc16(old(self).registers.pc)],
                ),
            ) && final(self).mem() == old(self).mem() && Self::spec_same_control(
                *final(self),
                *old(self),
            ),
            (opcode == 0xC9 || opcode == 0xD9) && old(self).mem().dom().contains(
                old(self).registers.sp,
            ) && old(self).mem().dom().contains(spec_inc16(old(self).registers.sp)) ==> r
                == Ok::<usize, LRError>(16) && final(self).registers == (SharpLR35902Registers {
                pc: imm16v(
                    old(self).mem()[old(self).registers.sp],
                    old(self).mem()[spec_inc16(old(self).registers.sp)],
                ),
                sp: spec_inc16(spec_inc16(old(self).registers.sp)),
                ..old(self).registers
            }) && final(self).mem() == old(self).mem() && (opcode == 0xD9 ==> final(self).interrupts_enabled) && (opcode == 0xC9 ==> Self::spec_same_control(
                *final(self),
                *old(self),
            )),
            op_x(opcode) == 3 && op_z(opcode) == 6 && old(self).mem().dom().contains(
                old(self).registers.pc,
            ) ==> r == Ok::<usize, LRError>(8) && final(self).registers
                == (SharpLR35902Registers {
                a: spec_alu(
                    op_y(opcode),
                    old(self).registers.a,
                    old(self).mem()[old(self).registers.pc],
                    old(self).registers.f,
                ).0,
                f: spec_alu(
                    op_y(opcode),
                    old(self).registers.a,
                    old(self).mem()[old(self).registers.pc],
                    old(self).registers.f,
                ).1,
                pc: spec_inc16(old(self).registers.pc),
                ..old(self).registers
            }) && final(self).mem() == old(self).mem() && Self::spec_same_control(
                *final(self),
                *old(self),
            ),
            opcode == 0xCD && old(self).mem().dom().contains(old(self).registers.pc) && old(self).mem().dom().contains(spec_inc16(old(self).registers.pc)) && old(self).mem().dom().contains(spec_dec16(old(self).registers.sp)) && old(self).mem().dom().contains(
                spec_dec16(spec_dec16(old(self).registers.sp)),
            ) ==> r == Ok::<usize, LRError>(24) && final(self).registers
                == (SharpLR35902Registers {
                pc: imm16v(
                    old(self).mem()[old(self).registers.pc],
                    old(self).mem()[spec_inc16(old(self).registers.pc)],
                ),
                sp: spec_dec16(spec_dec16(old(self).registers.sp)),
                ..old(self).registers
            }) && final(self).mem() == old(self).mem().insert(
                spec_dec16(old(self).registers.sp),
                (spec_inc16(spec_inc16(old(self).registers.pc)) / 256) as u8,
            ).insert(
                spec_dec16(spec_dec16(old(self).registers.sp)),
                (spec_inc16(spec_inc16(old(self).registers.pc)) % 256) as u8,
            ) && Self::spec_same_control(*final(self), *old(self)),
            opcode == 0xE9 ==> r == Ok::<usize, LRError>(4) && final(self).registers
                == (SharpLR35902Registers { pc: old(self).registers.spec_hl(), ..old(self).registers }) && final(self).mem() == old(self).mem() && Self::spec_same_control(
                *final(self),
                *old(self),
            ),
            opcode == 0xF9 ==> r == Ok::<usize, LRError>(8) && final(self).registers
                == (SharpLR35902Registers { sp: old(self).registers.spec_hl(), ..old(self).registers }) && final(self).mem() == old(self).mem() && Self::spec_same_control(
                *final(self),
                *old(self),
            ),
            op_x(opcode) == 1 && op_y(opcode) != 6 && op_z(opcode) != 6 ==> r == Ok::<
                usize,
                LRError,
            >(4) && final(self).registers == old(self).registers.spec_with_reg(
                op_y(opcode),
                old(self).registers.spec_reg(op_z(opcode)),
            ) && final(self).mem() == old(self).mem() && Self::spec_same_control(
                *final(self),
                *old(self),
            ),
            op_x(opcode) == 2 && op_z(opcode) != 6 ==> r == Ok::<usize, LRError>(4) && final(self).registers == (SharpLR35902Registers {
                a: spec_alu(
                    op_y(opcode),
                    old(self).registers.a,
                    old(self).registers.spec_reg(op_z(opcode)),
                    old(self).registers.f,
                ).0,
                f: spec_alu(
                    op_y(opcode),
                    old(self).registers.a,
                    old(self).registers.spec_reg(op_z(opcode)),
                    old(self).registers.f,
                ).1,
                ..old(self).registers
            }) && final(self).mem() == old(self).mem() && Self::spec_same_control(
                *final(self),
                *old(self),
            ),
            spec_is_illegal(opcode) ==> r == Ok::<usize, LRError>(4) && final(self).stopped
                && final(self).registers == old(self).registers && final(self).mem() == old(self).mem(),
            op_x(opcode) == 0 && op_z(opcode) == 6 && op_y(opcode) != 6 && old(self).mem().dom().contains(old(self).registers.pc) ==> r == Ok::<usize, LRError>(8)
                && final(self).registers == (SharpLR35902Registers {
                pc: spec_inc16(old(self).registers.pc),
                ..old(self).registers
            }).spec_with_reg(op_y(opcode), old(self).mem()[old(self).registers.pc]) && final(self).mem() == old(self).mem(),
            op_x(opcode) == 0 && op_z(opcode) == 6 && op_y(opcode) != 6 && !old(self).mem().dom().contains(old(self).registers.pc) ==> r == Err::<usize, LRError>(
                LRError::InvalidMemoryRead(old(self).registers.pc),
            ),
    {
        let bits = OpcodeBits::from(opcode);
        proof {
            crate::opcode::lemma_opcode_fields(opcode);
        }
        if bits.x == 0 {
            self.execute_x0(bits)
        } else if bits.x == 1 {
            if bits.y == 6 && bits.z == 6 {
                self.halted = true;
                Ok(4)
            } else if bits.z == 6 {
                let v = self.read_hl()?;
                self.registers.set_reg(bits.y, v);
                Ok(8)
            } else if bits.y == 6 {
                let v = self.registers.reg(bits.z);
                self.write_hl(v)?;
                Ok(8)
            } else {
                let v = self.registers.reg(bits.z);
                self.registers.set_reg(bits.y, v);
                Ok(4)
            }
        } else if bits.x == 2 {
            let operand = if bits.z == 6 {
                self.read_hl()?
            } else {
                self.registers.reg(bits.z)
            };
            let (v, fl) = alu(bits.y, self.registers.a, operand, self.registers.f);
            self.registers.a = v;
            self.registers.f = fl;
            Ok(if bits.z == 6 {
                8
            } else {
                4
            })
        } else {
            self.execute_x3(bits)
        }
    }

    /// Executes the instruction group with opcode field x = 0.
    fn execute_x0(&mut self, bits: OpcodeBits) -> (r: Result<usize, LRError>)
        requires
            bits.y < 8,
            bits.z < 8,
            bits.p < 4,
            bits.q < 2,
            bits.y == 2 * bits.p + bits.q,
        ensures
            r matches Ok(c) ==> 4 <= c <= 24,
            final(self).halted == old(self).halted,
            bits.z == 6 && bits.y != 6 && old(self).mem().dom().contains(old(self).registers.pc)
                ==> r == Ok::<usize, LRError>(8) && final(self).registers == (SharpLR35902Registers {
                pc: spec_inc16(old(self).registers.pc),
                ..old(self).registers
            }).spec_with_reg(bits.y, old(self).mem()[old(self).registers.pc]) && final(self).mem()
                == old(self).mem(),
            bits.z == 6 && bits.y != 6 && !old(self).mem().dom().contains(old(self).registers.pc)
                ==> r == Err::<usize, LRError>(LRError::InvalidMemoryRead(old(self).registers.pc)),
            bits.z == 4 && bits.y != 6 ==> r == Ok::<usize, LRError>(4) && final(self).registers
                == (SharpLR35902Registers {
                f: crate::alu::spec_inc8(old(self).registers.spec_reg(bits.y), old(self).registers.f).1,
                ..old(self).registers.spec_with_reg(
                    bits.y,
                    crate::alu::spec_inc8(old(self).registers.spec_reg(bits.y), old(self).registers.f).0,
                )
            }) && final(self).mem() == old(self).mem() && Self::spec_same_control(
                *final(self),
                *old(self),
            ),
            bits.z == 5 && bits.y != 6 ==> r == Ok::<usize, LRError>(4) && final(self).registers
                == (SharpLR35902Registers {
                f: crate::alu::spec_dec8(old(self).registers.spec_reg(bits.y), old(self).registers.f).1,
                ..old(self).registers.spec_with_reg(
                    bits.y,
                    crate::alu::spec_dec8(old(self).registers.spec_reg(bits.y), old(self).registers.f).0,
                )
            }) && final(self).mem() == old(self).mem() && Self::spec_same_control(
                *final(self),
                *old(self),
            ),
            bits.z == 0 && bits.y == 0 ==> r == Ok::<usize, LRError>(4) && final(self).registers
                == old(self).registers && final(self).mem() == old(self).mem()
                && Self::spec_same_control(*final(self), *old(self)),
            bits.z == 0 && bits.y == 2 ==> r == Ok::<usize, LRError>(4) && final(self).registers
                == old(self).registers && final(self).mem() == old(self).mem() && final(self).stopped
                && final(self).halted == old(self).halted && final(self).interrupt_pending == old(self).interrupt_pending && final(self).interrupts_enabled == old(self).interrupts_enabled
                && final(self).ei_delay == old(self).ei_delay,
            bits.z == 7 ==> r == Ok::<usize, LRError>(4) && final(self).registers == spec_acc_op(
                bits.y,
                old(self).registers,
            ) && final(self).mem() == old(self).mem() && Self::spec_same_control(
                *final(self),
                *old(self),
            ),
            bits.z == 0 && bits.y == 3 && old(self).mem().dom().contains(old(self).registers.pc)
                ==> r == Ok::<usize, LRError>(12) && final(self).registers
                == (SharpLR35902Registers {
                pc: spec_rel16(
                    spec_inc16(old(self).registers.pc),
                    old(self).mem()[old(self).registers.pc],
                ),
                ..old(self).registers
            }) && final(self).mem() == old(self).mem() && Self::spec_same_control(
                *final(self),
                *old(self),
            ),
            bits.z == 0 && bits.y == 3 && !old(self).mem().dom().contains(old(self).registers.pc)
                ==> r == Err::<usize, LRError>(LRError::InvalidMemoryRead(old(self).registers.pc)),
            bits.z == 1 && bits.q == 0 && old(self).mem().dom().contains(old(self).registers.pc)
                && old(self).mem().dom().contains(spec_inc16(old(self).registers.pc)) ==> r
                == Ok::<usize, LRError>(12) && final(self).registers == (SharpLR35902Registers {
                pc: spec_inc16(spec_inc16(old(self).registers.pc)),
                ..old(self).registers
            }).spec_with_pair(
                bits.p,
                imm16v(
                    old(self).mem()[old(self).registers.pc],
                    old(self).mem()[spec_inc16(old(self).registers.pc)],
                ),
            ) && final(self).mem() == old(self).mem() && Self::spec_same_control(
                *final(self),
                *old(self),
            ),
            bits.z == 3 ==> r == Ok::<usize, LRError>(8) && final(self).registers == old(self).registers.spec_with_pair(
                bits.p,
                if bits.q == 0 {
                    spec_inc16(old(self).registers.spec_pair(bits.p))
                } else {
                    spec_dec16(old(self).registers.spec_pair(bits.p))
                },
            ) && final(self).mem() == old(self).mem() && Self::spec_same_control(
                *final(self),
                *old(self),
            ),
            bits.z == 1 && bits.q == 1 ==> r == Ok::<usize, LRError>(8) && final(self).registers
                == (SharpLR35902Registers {
                f: crate::alu::spec_add16(
                    old(self).registers.spec_hl(),
                    old(self).registers.spec_pair(bits.p),
                    old(self).registers.f,
                ).1,
                ..old(self).registers.spec_with_pair(
                    2,
                    crate::alu::spec_add16(
                        old(self).registers.spec_hl(),
                        old(self).registers.spec_pair(bits.p),
                        old(self).registers.f,
                    ).0,
                )
            }) && final(self).mem() == old(self).mem() && Self::spec_same_control(
                *final(self),
                *old(self),
            ),
    {
        if bits.z == 0 {
            if bits.y == 0 {
                // nop
                Ok(4)
            } else if bits.y == 1 {
                // ld (nn), sp
                let addr = self.read_imm16()?;
                let sp = self.registers.sp;
                self.write(addr, (sp % 256) as u8)?;
                self.write(wrap_inc16(addr), (sp / 256) as u8)?;
                Ok(20)
            } else if bits.y == 2 {
                // stop
                self.stopped = true;
                Ok(4)
            } else if bits.y == 3 {
                // jr d
                let d = self.read_instruction_byte()?;
                self.registers.pc = rel16(self.registers.pc, d);
                Ok(12)
            } else {
                // jr cc, d
                let d = self.read_instruction_byte()?;
                if self.cond(bits.y - 4) {
                    self.registers.pc = rel16(self.registers.pc, d);
                    Ok(12)
                } else {
                    Ok(8)
                }
            }
        } else if bits.z == 1 {
            if bits.q == 0 {
                // ld rp[p], nn
                let v = self.read_imm16()?;
                self.registers.set_pair(bits.p, v);
                Ok(12)
            } else {
                // add hl, rp[p]
                let hl = self.registers.hl();
                let rr = self.registers.pair(bits.p);
                let (v, fl) = add16(hl, rr, self.registers.f);
                self.registers.set_hl(v);
                self.registers.f = fl;
                Ok(8)
            }
        } else if bits.z == 2 {
            if bits.q == 0 {
                // stores of the accumulator
                if bits.p == 0 {
                    let addr = self.registers.bc();
                    let a = self.registers.a;
                    self.write(addr, a)?;
                } else if bits.p == 1 {
                    let addr = self.registers.de();
                    let a = self.registers.a;
                    self.write(addr, a)?;
                } else if bits.p == 2 {
                    // ld (hl+), a
                    let a = self.registers.a;
                    self.write_hl(a)?;
                    let hl = self.registers.hl();
                    self.registers.set_hl(wrap_inc16(hl));
                } else {
                    // ld (hl-), a
                    let a = self.registers.a;
                    self.write_hl(a)?;
                    let hl = self.registers.hl();
                    self.registers.set_hl(wrap_dec16(hl));
                }
                Ok(8)
            } else {
                // loads of the accumulator
                if bits.p == 0 {
                    let addr = self.registers.bc();
                    self.registers.a = self.memory_controller.read(addr)?;
                } else if bits.p == 1 {
                    let addr = self.registers.de();
                    self.registers.a = self.memory_controller.read(addr)?;
                } else if bits.p == 2 {
                    // ld a, (hl+)
                    self.registers.a = self.read_hl()?;
                    let hl = self.registers.hl();
                    self.registers.set_hl(wrap_inc16(hl));
                } else {
                    // ld a, (hl-)
                    self.registers.a = self.read_hl()?;
                    let hl = self.registers.hl();
                    self.registers.set_hl(wrap_dec16(hl));
                }
                Ok(8)
            }
        } else if bits.z == 3 {
            // inc/dec rp[p]; 16-bit inc and dec touch no flags
            let v = self.registers.pair(bits.p);
            if bits.q == 0 {
                self.registers.set_pair(bits.p, wrap_inc16(v));
            } else {
                self.registers.set_pair(bits.p, wrap_dec16(v));
            }
            Ok(8)
        } else if bits.z == 4 {
            // inc r[y]
            if bits.y == 6 {
                let v = self.read_hl()?;
                let (nv, fl) = inc8(v, self.registers.f);
                self.write_hl(nv)?;
                self.registers.f = fl;
                Ok(12)
            } else {
                let v = self.registers.reg(bits.y);
                let (nv, fl) = inc8(v, self.registers.f);
                self.registers.set_reg(bits.y, nv);
                self.registers.f = fl;
                Ok(4)
            }
        } else if bits.z == 5 {
            // dec r[y]
            if bits.y == 6 {
                let v = self.read_hl()?;
                let (nv, fl) = dec8(v, self.registers.f);
                self.write_hl(nv)?;
                self.registers.f = fl;
                Ok(12)
            } else {
                let v = self.registers.reg(bits.y);
                let (nv, fl) = dec8(v, self.registers.f);
                self.registers.set_reg(bits.y, nv);
                self.registers.f = fl;
                Ok(4)
            }
        } else if bits.z == 6 {
            // ld r[y], n
            let n = self.read_instruction_byte()?;
            if bits.y == 6 {
                self.write_hl(n)?;
                Ok(12)
            } else {
                self.registers.set_reg(bits.y, n);
                Ok(8)
            }
        } else {
            // accumulator rotates and flag operations
            if bits.y <= 3 {
                let cf = self.registers.f & F_CARRY == F_CARRY;
                let (v, carry) = rot(bits.y, self.registers.a, cf);
                self.registers.a = v;
                self.registers.f = make_flags(false, false, false, carry);
                Ok(4)
            } else if bits.y == 4 {
                // daa
                let (v, fl) = daa(self.registers.a, self.registers.f);
                self.registers.a = v;
                self.registers.f = fl;
                Ok(4)
            } else if bits.y == 5 {
                // cpl
                let z = self.registers.f & F_ZERO == F_ZERO;
                let cf = self.registers.f & F_CARRY == F_CARRY;
                self.registers.a = !self.registers.a;
                self.registers.f = make_flags(z, true, true, cf);
                Ok(4)
            } else if bits.y == 6 {
                // scf
                let z = self.registers.f & F_ZERO == F_ZERO;
                self.registers.f = make_flags(z, false, false, true);
                Ok(4)
            } else {
                // ccf
                let z = self.registers.f & F_ZERO == F_ZERO;
                let cf = self.registers.f & F_CARRY == F_CARRY;
                self.registers.f = make_flags(z, false, false, !cf);
                Ok(4)
            }
        }
    }

    /// Executes the instruction group with opcode field x = 3. Opcodes in
    /// the undefined slots of this group are a decode error: the core
    /// locks up in the stopped state rather than executing them.
    fn execute_x3(&mut self, bits: OpcodeBits) -> (r: Result<usize, LRError>)
        requires
            bits.y < 8,
            bits.z < 8,
            bits.p < 4,
            bits.q < 2,
            bits.y == 2 * bits.p + bits.q,
        ensures
            r matches Ok(c) ==> 4 <= c <= 24,
            final(self).halted == old(self).halted,
            (bits.z == 3 && 2 <= bits.y <= 5) || (bits.z == 4 && bits.y >= 4) || (bits.z == 5
                && bits.q == 1 && bits.p >= 1) ==> r == Ok::<usize, LRError>(4) && final(self).stopped && final(self).registers == old(self).registers && final(self).mem()
                == old(self).mem(),
            bits.z == 6 && !old(self).mem().dom().contains(old(self).registers.pc) ==> r == Err::<
                usize,
                LRError,
            >(LRError::InvalidMemoryRead(old(self).registers.pc)),
            bits.z == 3 && bits.y == 6 ==> r == Ok::<usize, LRError>(4) && final(self).registers
                == old(self).registers && final(self).mem() == old(self).mem()
                && !final(self).interrupts_enabled && !final(self).ei_delay && final(self).interrupt_pending == old(self).interrupt_pending && final(self).halted == old(self).halted
                && final(self).stopped == old(self).stopped,
            bits.z == 3 && bits.y == 7 ==> r == Ok::<usize, LRError>(4) && final(self).registers
                == old(self).registers && final(self).mem() == old(self).mem() && final(self).ei_delay && final(self).interrupts_enabled == old(self).interrupts_enabled && final(self).interrupt_pending == old(self).interrupt_pending && final(self).halted == old(self).halted
                && final(self).stopped == old(self).stopped,
            bits.z == 3 && bits.y == 1 && old(self).mem().dom().contains(old(self).registers.pc)
                && op_z(old(self).mem()[old(self).registers.pc]) != 6 ==> r == Ok::<usize, LRError>(
                8,
            ) && final(self).registers == spec_cb_regs(
                old(self).mem()[old(self).registers.pc],
                (SharpLR35902Registers { pc: spec_inc16(old(self).registers.pc), ..old(self).registers }),
            ) && final(self).mem() == old(self).mem() && Self::spec_same_control(
                *final(self),
                *old(self),
            ),
            bits.z == 3 && bits.y == 1 && !old(self).mem().dom().contains(old(self).registers.pc)
                ==> r == Err::<usize, LRError>(LRError::InvalidMemoryRead(old(self).registers.pc)),
            bits.z == 3 && bits.y == 0 && old(self).mem().dom().contains(old(self).registers.pc)
                && old(self).mem().dom().contains(spec_inc16(old(self).registers.pc)) ==> r
                == Ok::<usize, LRError>(16) && final(self).registers == (SharpLR35902Registers {
                pc: imm16v(
                    old(self).mem()[old(self).registers.pc],
                    old(self).mem()[spec_inc16(old(self).registers.pc)],
                ),
                ..old(self).registers
            }) && final(self).mem() == old(self).mem() && Self::spec_same_control(
                *final(self),
                *old(self),
            ),
            bits.z == 5 && bits.q == 0 && old(self).mem().dom().contains(
                spec_dec16(old(self).registers.sp),
            ) && old(self).mem().dom().contains(spec_dec16(spec_dec16(old(self).registers.sp)))
                ==> r == Ok::<usize, LRError>(16) && final(self).registers
                == (SharpLR35902Registers {
                sp: spec_dec16(spec_dec16(old(self).registers.sp)),
                ..old(self).registers
            }) && final(self).mem() == old(self).mem().insert(
                spec_dec16(old(self).registers.sp),
                (old(self).registers.spec_pair_stack(bits.p) / 256) as u8,
            ).insert(
                spec_dec16(spec_dec16(old(self).registers.sp)),
                (old(self).registers.spec_pair_stack(bits.p) % 256) as u8,
            ) && Self::spec_same_control(*final(self), *old(self)),
            bits.z == 1 && bits.q == 0 && old(self).mem().dom().contains(old(self).registers.sp)
                && old(self).mem().dom().contains(spec_inc16(old(self).registers.sp)) ==> r
                == Ok::<usize, LRError>(12) && final(self).registers == (SharpLR35902Registers {
                sp: spec_inc16(spec_inc16(old(self).registers.sp)),
                ..old(self).registers
            }).spec_with_pair_stack(
                bits.p,
                imm16v(
                    old(self).mem()[old(self).registers.sp],
                    old(self).mem()[spec_inc16(old(self).registers.sp)],
                ),
            ) && final(self).mem() == old(self).mem() && Self::spec_same_control(
                *final(self),
                *old(self),
            ),
            bits.z == 1 && bits.q == 1 && bits.p == 0 && old(self).mem().dom().contains(
                old(self).registers.sp,
            ) && old(self).mem().dom().contains(spec_inc16(old(self).registers.sp)) ==> r
                == Ok::<usize, LRError>(16) && final(self).registers == (SharpLR35902Registers {
                pc: imm16v(
                    old(self).mem()[old(self).registers.sp],
                    old(self).mem()[spec_inc16(old(self).registers.sp)],
                ),
                sp: spec_inc16(spec_inc16(old(self).registers.sp)),
                ..old(self).registers
            }) && final(self).mem() == old(self).mem() && Self::spec_same_control(
                *final(self),
                *old(self),
            ),
            bits.z == 1 && bits.q == 1 && bits.p == 1 && old(self).mem().dom().contains(
                old(self).registers.sp,
            ) && old(self).mem().dom().contains(spec_inc16(old(self).registers.sp)) ==> r
                == Ok::<usize, LRError>(16) && final(self).registers == (SharpLR35902Registers {
                pc: imm16v(
                    old(self).mem()[old(self).registers.sp],
                    old(self).mem()[spec_inc16(old(self).registers.sp)],
                ),
                sp: spec_inc16(spec_inc16(old(self).registers.sp)),
                ..old(self).registers
            }) && final(self).mem() == old(self).mem() && final(self).interrupts_enabled && final(self).ei_delay == old(self).ei_delay && final(self).interrupt_pending == old(self).interrupt_pending && final(self).halted == old(self).halted && final(self).stopped == old(self).stopped,
            bits.z == 6 && old(self).mem().dom().contains(old(self).registers.pc) ==> r == Ok::<
                usize,
                LRError,
            >(8) && final(self).registers == (SharpLR35902Registers {
                a: spec_alu(
                    bits.y,
                    old(self).registers.a,
                    old(self).mem()[old(self).registers.pc],
                    old(self).registers.f,
                ).0,
                f: spec_alu(
                    bits.y,
                    old(self).registers.a,
                    old(self).mem()[old(self).registers.pc],
                    old(self).registers.f,
                ).1,
                pc: spec_inc16(old(self).registers.pc),
                ..old(self).registers
            }) && final(self).mem() == old(self).mem() && Self::spec_same_control(
                *final(self),
                *old(self),
            ),
            bits.z == 5 && bits.q == 1 && bits.p == 0 && old(self).mem().dom().contains(
                old(self).registers.pc,
            ) && old(self).mem().dom().contains(spec_inc16(old(self).registers.pc)) && old(self).mem().dom().contains(spec_dec16(old(self).registers.sp)) && old(self).mem().dom().contains(spec_dec16(spec_dec16(old(self).registers.sp))) ==> r == Ok::<usize, LRError>(
                24,
            ) && final(self).registers == (SharpLR35902Registers {
                pc: imm16v(
                    old(self).mem()[old(self).registers.pc],
                    old(self).mem()[spec_inc16(old(self).registers.pc)],
                ),
                sp: spec_dec16(spec_dec16(old(self).registers.sp)),
                ..old(self).registers
            }) && final(self).mem() == old(self).mem().insert(
                spec_dec16(old(self).registers.sp),
                (spec_inc16(spec_inc16(old(self).registers.pc)) / 256) as u8,
            ).insert(
                spec_dec16(spec_dec16(old(self).registers.sp)),
                (spec_inc16(spec_inc16(old(self).registers.pc)) % 256) as u8,
            ) && Self::spec_same_control(*final(self), *old(self)),
            bits.z == 7 && old(self).mem().dom().contains(spec_dec16(old(self).registers.sp))
                && old(self).mem().dom().contains(spec_dec16(spec_dec16(old(self).registers.sp)))
                ==> r == Ok::<usize, LRError>(16) && final(self).registers
                == (SharpLR35902Registers {
                pc: (8 * bits.y) as u16,
                sp: spec_dec16(spec_dec16(old(self).registers.sp)),
                ..old(self).registers
            }) && final(self).mem() == old(self).mem().insert(
                spec_dec16(old(self).registers.sp),
                (old(self).registers.pc / 256) as u8,
            ).insert(
                spec_dec16(spec_dec16(old(self).registers.sp)),
                (old(self).registers.pc % 256) as u8,
            ) && Self::spec_same_control(*final(self), *old(self)),
            bits.z == 1 && bits.q == 1 && bits.p == 2 ==> r == Ok::<usize, LRError>(4) && final(self).registers == (SharpLR35902Registers {
                pc: old(self).registers.spec_hl(),
                ..old(self).registers
            }) && final(self).mem() == old(self).mem() && Self::spec_same_control(
                *final(self),
                *old(self),
            ),
            bits.z == 1 && bits.q == 1 && bits.p == 3 ==> r == Ok::<usize, LRError>(8) && final(self).registers == (SharpLR35902Registers {
                sp: old(self).registers.spec_hl(),
                ..old(self).registers
            }) && final(self).mem() == old(self).mem() && Self::spec_same_control(
                *final(self),
                *old(self),
            ),
    {
        if bits.z == 0 {
            if bits.y <= 3 {
                // ret cc
                if self.cond(bits.y) {
                    self.registers.pc = self.pop16()?;
                    Ok(20)
                } else {
                    Ok(8)
                }
            } else if bits.y == 4 {
                // ld (0xff00+n), a
                let n = self.read_instruction_byte()?;
                let a = self.registers.a;
                self.write(0xFF00 + n as u16, a)?;
                Ok(12)
            } else if bits.y == 5 {
                // add sp, e
                let e = self.read_instruction_byte()?;
                let sp = self.registers.sp;
                self.registers.f = sp_flags(sp, e);
                self.registers.sp = rel16(sp, e);
                Ok(16)
            } else if bits.y == 6 {
                // ld a, (0xff00+n)
                let n = self.read_instruction_byte()?;
                self.registers.a = self.memory_controller.read(0xFF00 + n as u16)?;
                Ok(12)
            } else {
                // ld hl, sp+e
                let e = self.read_instruction_byte()?;
                let sp = self.registers.sp;
                self.registers.f = sp_flags(sp, e);
                let v = rel16(sp, e);
                self.registers.set_hl(v);
                Ok(12)
            }
        } else if bits.z == 1 {
            if bits.q == 0 {
                // pop rp2[p]
                let v = self.pop16()?;
                self.registers.set_pair_stack(bits.p, v);
                Ok(12)
            } else if bits.p == 0 {
                // ret
                self.registers.pc = self.pop16()?;
                Ok(16)
            } else if bits.p == 1 {
                // reti
                self.registers.pc = self.pop16()?;
                self.interrupts_enabled = true;
                Ok(16)
            } else if bits.p == 2 {
                // jp (hl)
                self.registers.pc = self.registers.hl();
                Ok(4)
            } else {
                // ld sp, hl
                self.registers.sp = self.registers.hl();
                Ok(8)
            }
        } else if bits.z == 2 {
            if bits.y <= 3 {
                // jp cc, nn
                let addr = self.read_imm16()?;
                if self.cond(bits.y) {
                    self.registers.pc = addr;
                    Ok(16)
                } else {
                    Ok(12)
                }
            } else if bits.y == 4 {
                // ld (0xff00+c), a
                let c = self.registers.c;
                let a = self.registers.a;
                self.write(0xFF00 + c as u16, a)?;
                Ok(8)
            } else if bits.y == 5 {
                // ld (nn), a
                let addr = self.read_imm16()?;
                let a = self.registers.a;
                self.write(addr, a)?;
                Ok(16)
            } else if bits.y == 6 {
                // ld a, (0xff00+c)
                let c = self.registers.c;
                self.registers.a = self.memory_controller.read(0xFF00 + c as u16)?;
                Ok(8)
            } else {
                // ld a, (nn)
                let addr = self.read_imm16()?;
                self.registers.a = self.memory_controller.read(addr)?;
                Ok(16)
            }
        } else if bits.z == 3 {
            if bits.y == 0 {
                // jp nn
                let addr = self.read_imm16()?;
                self.registers.pc = addr;
                Ok(16)
            } else if bits.y == 1 {
                // CB prefix: one further byte selects the extended table
                let cb = self.read_instruction_byte()?;
                self.execute_cb(cb)
            } else if bits.y == 6 {
                // di
                self.interrupts_enabled = false;
                self.ei_delay = false;
                Ok(4)
            } else if bits.y == 7 {
                // ei takes effect after the following instruction
                self.ei_delay = true;
                Ok(4)
            } else {
                // undefined opcode slot: decode error, lock up
                self.stopped = true;
                Ok(4)
            }
        } else if bits.z == 4 {
            if bits.y <= 3 {
                // call cc, nn
                let addr = self.read_imm16()?;
                if self.cond(bits.y) {
                    let pc = self.registers.pc;
                    self.push16(pc)?;
                    self.registers.pc = addr;
                    Ok(24)
                } else {
                    Ok(12)
                }
            } else {
                // undefined opcode slot: decode error, lock up
                self.stopped = true;
                Ok(4)
            }
        } else if bits.z == 5 {
            if bits.q == 0 {
                // push rp2[p]
                let v = self.registers.pair_stack(bits.p);
                self.push16(v)?;
                Ok(16)
            } else if bits.p == 0 {
                // call nn
                let addr = self.read_imm16()?;
                let pc = self.registers.pc;
                self.push16(pc)?;
                self.registers.pc = addr;
                Ok(24)
            } else {
                // undefined opcode slot: decode error, lock up
                self.stopped = true;
                Ok(4)
            }
        } else if bits.z == 6 {
            // alu[y] n
            let n = self.read_instruction_byte()?;
            let (v, fl) = alu(bits.y, self.registers.a, n, self.registers.f);
            self.registers.a = v;
            self.registers.f = fl;
            Ok(8)
        } else {
            // rst y*8
            let pc = self.registers.pc;
            self.push16(pc)?;
            self.registers.pc = (bits.y * 8) as u16;
            Ok(16)
        }
    }

    /// Executes the CB-prefixed instruction selected by the byte after the
    /// prefix: rotates/shifts, bit test, bit clear and bit set over any
    /// 8-bit register or memory at `HL`.
    fn execute_cb(&mut self, cb: u8) -> (r: Result<usize, LRError>)
        ensures
            r matches Ok(c) ==> 4 <= c <= 24,
            final(self).halted == old(self).halted,
            op_z(cb) != 6 ==> r == Ok::<usize, LRError>(8) && final(self).registers
                == spec_cb_regs(cb, old(self).registers) && final(self).mem() == old(self).mem()
                && Self::spec_same_control(*final(self), *old(self)),
    {
        let bits = OpcodeBits::from(cb);
        if bits.x == 0 {
            // rot[y] r[z]
            let cf = self.registers.f & F_CARRY == F_CARRY;
            if bits.z == 6 {
                let v = self.read_hl()?;
                let (nv, carry) = rot(bits.y, v, cf);
                self.write_hl(nv)?;
                self.registers.f = make_flags(nv == 0, false, false, carry);
                Ok(16)
            } else {
                let v = self.registers.reg(bits.z);
                let (nv, carry) = rot(bits.y, v, cf);
                self.registers.set_reg(bits.z, nv);
                self.registers.f = make_flags(nv == 0, false, false, carry);
                Ok(8)
            }
        } else if bits.x == 1 {
            // bit y, r[z]
            let v = if bits.z == 6 {
                self.read_hl()?
            } else {
                self.registers.reg(bits.z)
            };
            self.registers.f = bit_test(v, bits.y, self.registers.f);
            Ok(if bits.z == 6 {
                12
            } else {
                8
            })
        } else if bits.x == 2 {
            // res y, r[z]
            if bits.z == 6 {
                let v = self.read_hl()?;
                let nv = res_bit(v, bits.y);
                self.write_hl(nv)?;
                Ok(16)
            } else {
                let v = self.registers.reg(bits.z);
                self.registers.set_reg(bits.z, res_bit(v, bits.y));
                Ok(8)
            }
        } else {
            // set y, r[z]
            if bits.z == 6 {
                let v = self.read_hl()?;
                let nv = set_bit(v, bits.y);
                self.write_hl(nv)?;
                Ok(16)
            } else {
                let v = self.registers.reg(bits.z);
                self.registers.set_reg(bits.z, set_bit(v, bits.y));
                Ok(8)
            }
        }
    }

    /// Runs steps until the accumulated cycle count reaches `bound`,
    /// returning the cycles consumed and the number of steps taken. The
    /// final instruction may overshoot the bound by at most its own cost;
    /// no instruction is split. A stopped core, or a halted core with no
    /// pending interrupt, idles in place at four cycles per step; a
    /// running core that fetches HALT halts once and then idles. The
    /// exact cycle accounting is stated for every bound the counter can
    /// track without saturating.
    pub fn run_cycles(&mut self, bound: usize) -> (r: Result<(usize, usize), LRError>)
        ensures
            r matches Ok(t) ==> t.0 >= bound && (bound > 0 ==> t.1 >= 1),
            bound == 0 ==> r == Ok::<(usize, usize), LRError>((0, 0)) && *final(self) == *old(self),
            bound <= usize::MAX - 24 ==> (r matches Ok(t) ==> t.0 <= bound + 23 && t.0 >= 4 * t.1),
            old(self).stopped || (old(self).halted && !old(self).interrupt_pending) ==> (
            r matches Ok(t) && *final(self) == *old(self) && (bound <= usize::MAX - 24 ==> t.0 == 4
                * t.1)),
            old(self).spec_running_normal() && !old(self).interrupt_pending && old(self).mem().dom().contains(old(self).registers.pc) && old(self).mem()[old(self).registers.pc]
                == 0x76 && bound > 0 ==> (r matches Ok(t) && final(self).halted && final(self).registers == (SharpLR35902Registers {
                pc: spec_inc16(old(self).registers.pc),
                ..old(self).registers
            }) && final(self).mem() == old(self).mem() && (bound <= usize::MAX - 24 ==> t.0 == 4
                * t.1)),
    {
        if bound == 0 {
            return Ok((0, 0));
        }
        let ghost pre = *self;
        let ghost idle_core = pre.stopped || (pre.halted && !pre.interrupt_pending);
        let ghost halt_next = pre.spec_running_normal() && !pre.interrupt_pending
            && pre.mem().dom().contains(pre.registers.pc) && pre.mem()[pre.registers.pc] == 0x76;
        let mut total: usize = 0;
        let mut steps: usize = 0;
        let mut remaining: usize = bound;
        while remaining > 0
            invariant
                total >= bound - remaining,
                remaining <= bound,
                remaining < bound ==> steps >= 1,
                bound <= usize::MAX - 24 ==> (remaining > 0 ==> total == bound - remaining),
                bound <= usize::MAX - 24 ==> (remaining == 0 ==> bound <= total <= bound + 23),
                bound <= usize::MAX - 24 ==> total >= 4 * steps,
                pre == *old(self),
                idle_core == (pre.stopped || (pre.halted && !pre.interrupt_pending)),
                halt_next == (pre.spec_running_normal() && !pre.interrupt_pending
                    && pre.mem().dom().contains(pre.registers.pc) && pre.mem()[pre.registers.pc]
                    == 0x76),
                idle_core ==> *self == pre && (bound <= usize::MAX - 24 ==> total == 4 * steps),
                halt_next && steps == 0 ==> *self == pre && total == 0,
                halt_next && steps >= 1 ==> self.halted && !self.interrupt_pending && !self.stopped
                    && self.registers == (SharpLR35902Registers {
                    pc: spec_inc16(pre.registers.pc),
                    ..pre.registers
                }) && self.mem() == pre.mem(),
                halt_next ==> (bound <= usize::MAX - 24 ==> total == 4 * steps),
            decreases remaining,
        {
            let c = self.step()?;
            total = if total <= usize::MAX - c {
                total + c
            } else {
                usize::MAX
            };
            remaining = if c >= remaining {
                0
            } else {
                remaining - c
            };
            steps = if steps < usize::MAX {
                steps + 1
            } else {
                steps
            };
        }
        Ok((total, steps))
    }
}

impl<M: MemoryInterconnect> Cpu for SharpLR35902<M> {
    type Error = LRError;

    /// Runs steps until a memory error: the core has no stop condition of
    /// its own, so stopping is driven by the caller. Every loop here must
    /// terminate, so the run is bounded by the cycle counter's ceiling,
    /// which outlasts any real execution.
    fn execute(&mut self) -> (r: Result<(), LRError>)
        ensures
            old(self).stopped || (old(self).halted && !old(self).interrupt_pending) ==> r is Ok
                && *final(self) == *old(self),
            old(self).spec_running_normal() && !old(self).interrupt_pending && old(self).mem().dom().contains(old(self).registers.pc) && old(self).mem()[old(self).registers.pc]
                == 0x76 ==> r is Ok && final(self).halted && final(self).registers
                == (SharpLR35902Registers {
                pc: spec_inc16(old(self).registers.pc),
                ..old(self).registers
            }) && final(self).mem() == old(self).mem(),
    {
        let _ = self.run_cycles(usize::MAX)?;
        Ok(())
    }

    /// Runs steps until at least `cycle_bound` cycles have elapsed.
    /// Runs steps until at least `cycle_bound` cycles have elapsed; the
    /// state guarantees of `run_cycles` carry over.
    fn execute_with_cycles(&mut self, cycle_bound: usize) -> (r: Result<(), LRError>)
        ensures
            cycle_bound == 0 ==> r is Ok && *final(self) == *old(self),
            old(self).stopped || (old(self).halted && !old(self).interrupt_pending) ==> r is Ok
                && *final(self) == *old(self),
            old(self).spec_running_normal() && !old(self).interrupt_pending && old(self).mem().dom().contains(old(self).registers.pc) && old(self).mem()[old(self).registers.pc]
                == 0x76 && cycle_bound > 0 ==> r is Ok && final(self).halted && final(self).registers == (SharpLR35902Registers {
                pc: spec_inc16(old(self).registers.pc),
                ..old(self).registers
            }) && final(self).mem() == old(self).mem(),
    {
        let _ = self.run_cycles(cycle_bound)?;
        Ok(())
    }

    fn step(&mut self) -> (r: Result<usize, LRError>) {
        SharpLR35902::step(self)
    }
}

} // verus!

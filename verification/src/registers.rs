use vstd::prelude::*;

verus! {

/// Zero flag bit (bit 7 of the flags register).
pub const F_ZERO: u8 = 0x80;
/// Subtraction flag bit (bit 6 of the flags register).
pub const F_SUBTRACT: u8 = 0x40;
/// Half-carry flag bit (bit 5 of the flags register).
pub const F_HALFCARRY: u8 = 0x20;
/// Carry flag bit (bit 4 of the flags register).
pub const F_CARRY: u8 = 0x10;

/// Whether the bit selected by `mask` is set in the flags byte `f`.
pub open spec fn has_flag(f: u8, mask: u8) -> bool {
    f & mask == mask
}

/// The Sharp LR35902 register set. Seven 8-bit general purpose registers
/// (`a`, `b`, `c`, `d`, `e`, `h`, `l`), the flags register `f`, a program
/// counter and a stack pointer. Adjacent registers combine into the 16-bit
/// pairs `af`, `bc`, `de` and `hl`; the first-named register holds the top
/// 8 bits. The pair views are computed arithmetically, so they hold on any
/// host. The library's own operations keep the low nibble of `f` at zero,
/// as the hardware does.
#[derive(Debug, Clone, Copy, PartialEq, Eq, Structural)]
pub struct SharpLR35902Registers {
    pub a: u8,
    pub f: u8,
    pub b: u8,
    pub c: u8,
    pub d: u8,
    pub e: u8,
    pub h: u8,
    pub l: u8,
    pub pc: u16,
    pub sp: u16,
}

impl SharpLR35902Registers {
    /// A power-on register file: everything zeroed.
    pub fn new() -> (r: SharpLR35902Registers)
        ensures
            r == (SharpLR35902Registers { a: 0, f: 0, b: 0, c: 0, d: 0, e: 0, h: 0, l: 0, pc: 0, sp: 0 }),
    {
        SharpLR35902Registers { a: 0, f: 0, b: 0, c: 0, d: 0, e: 0, h: 0, l: 0, pc: 0, sp: 0 }
    }

    /// Sets the zero flag.
    pub fn set_z(&mut self)
        ensures
            *final(self) == (SharpLR35902Registers { f: old(self).f | F_ZERO, ..*old(self) }),
    {
        self.f = self.f | F_ZERO;
    }

    /// Sets the subtraction flag.
    pub fn set_s(&mut self)
        ensures
            *final(self) == (SharpLR35902Registers { f: old(self).f | F_SUBTRACT, ..*old(self) }),
    {
        self.f = self.f | F_SUBTRACT;
    }

    /// Sets the half-carry flag.
    pub fn set_h(&mut self)
        ensures
            *final(self) == (SharpLR35902Registers { f: old(self).f | F_HALFCARRY, ..*old(self) }),
    {
        self.f = self.f | F_HALFCARRY;
    }

    /// Sets the carry flag.
    pub fn set_c(&mut self)
        ensures
            *final(self) == (SharpLR35902Registers { f: old(self).f | F_CARRY, ..*old(self) }),
    {
        self.f = self.f | F_CARRY;
    }

    /// Clears the zero flag.
    pub fn clear_z(&mut self)
        ensures
            *final(self) == (SharpLR35902Registers { f: old(self).f & !F_ZERO, ..*old(self) }),
    {
        self.f = self.f & !F_ZERO;
    }

    /// Clears the subtraction flag.
    pub fn clear_s(&mut self)
        ensures
            *final(self) == (SharpLR35902Registers { f: old(self).f & !F_SUBTRACT, ..*old(self) }),
    {
        self.f = self.f & !F_SUBTRACT;
    }

    /// Clears the half-carry flag.
    pub fn clear_h(&mut self)
        ensures
            *final(self) == (SharpLR35902Registers { f: old(self).f & !F_HALFCARRY, ..*old(self) }),
    {
        self.f = self.f & !F_HALFCARRY;
    }

    /// Clears the carry flag.
    pub fn clear_c(&mut self)
        ensures
            *final(self) == (SharpLR35902Registers { f: old(self).f & !F_CARRY, ..*old(self) }),
    {
        self.f = self.f & !F_CARRY;
    }

    /// Whether the zero flag is set.
    pub fn z(&self) -> (r: bool)
        ensures
            r == has_flag(self.f, F_ZERO),
    {
        self.f & F_ZERO == F_ZERO
    }

    /// Whether the subtraction flag is set.
    pub fn s(&self) -> (r: bool)
        ensures
            r == has_flag(self.f, F_SUBTRACT),
    {
        self.f & F_SUBTRACT == F_SUBTRACT
    }

    /// Whether the half-carry flag is set.
    pub fn h(&self) -> (r: bool)
        ensures
            r == has_flag(self.f, F_HALFCARRY),
    {
        self.f & F_HALFCARRY == F_HALFCARRY
    }

    /// Whether the carry flag is set.
    pub fn c(&self) -> (r: bool)
        ensures
            r == has_flag(self.f, F_CARRY),
    {
        self.f & F_CARRY == F_CARRY
    }

    /// The 8-bit register selected by `index`, in the opcode-field order
    /// B, C, D, E, H, L, F, A. Index 6 addresses the flags slot; the
    /// instruction set uses selector 6 to mean memory at `HL` instead, so
    /// the decode never reads a register through it.
    pub open spec fn spec_reg(self, index: u8) -> u8 {
        if index == 0 {
            self.b
        } else if index == 1 {
            self.c
        } else if index == 2 {
            self.d
        } else if index == 3 {
            self.e
        } else if index == 4 {
            self.h
        } else if index == 5 {
            self.l
        } else if index == 6 {
            self.f
        } else {
            self.a
        }
    }

    /// The register file after storing `v` in the 8-bit register selected
    /// by `index`, in the same order as [`Self::spec_reg`].
    pub open spec fn spec_with_reg(self, index: u8, v: u8) -> SharpLR35902Registers {
        if index == 0 {
            SharpLR35902Registers { b: v, ..self }
        } else if index == 1 {
            SharpLR35902Registers { c: v, ..self }
        } else if index == 2 {
            SharpLR35902Registers { d: v, ..self }
        } else if index == 3 {
            SharpLR35902Registers { e: v, ..self }
        } else if index == 4 {
            SharpLR35902Registers { h: v, ..self }
        } else if index == 5 {
            SharpLR35902Registers { l: v, ..self }
        } else if index == 6 {
            SharpLR35902Registers { f: v, ..self }
        } else {
            SharpLR35902Registers { a: v, ..self }
        }
    }

    /// Reads the 8-bit register selected by `index`.
    pub fn reg(&self, index: u8) -> (r: u8)
        requires
            index < 8,
        ensures
            r == self.spec_reg(index),
    {
        match index {
            0 => self.b,
            1 => self.c,
            2 => self.d,
            3 => self.e,
            4 => self.h,
            5 => self.l,
            6 => self.f,
            _ => self.a,
        }
    }

    /// Writes the 8-bit register selected by `index`.
    pub fn set_reg(&mut self, index: u8, v: u8)
        requires
            index < 8,
        ensures
            *final(self) == old(self).spec_with_reg(index, v),
    {
        match index {
            0 => self.b = v,
            1 => self.c = v,
            2 => self.d = v,
            3 => self.e = v,
            4 => self.h = v,
            5 => self.l = v,
            6 => self.f = v,
            _ => self.a = v,
        }
    }

    /// The 16-bit value of the `af` pair: `a` in the high byte, `f` low.
    pub open spec fn spec_af(self) -> u16 {
        (self.a * 256 + self.f) as u16
    }

    /// The 16-bit value of the `bc` pair.
    pub open spec fn spec_bc(self) -> u16 {
        (self.b * 256 + self.c) as u16
    }

    /// The 16-bit value of the `de` pair.
    pub open spec fn spec_de(self) -> u16 {
        (self.d * 256 + self.e) as u16
    }

    /// The 16-bit value of the `hl` pair.
    pub open spec fn spec_hl(self) -> u16 {
        (self.h * 256 + self.l) as u16
    }

    /// Reads the `af` pair.
    pub fn af(&self) -> (r: u16)
        ensures
            r == self.spec_af(),
    {
        (self.a as u16) * 256 + (self.f as u16)
    }

    /// Reads the `bc` pair.
    pub fn bc(&self) -> (r: u16)
        ensures
            r == self.spec_bc(),
    {
        (self.b as u16) * 256 + (self.c as u16)
    }

    /// Reads the `de` pair.
    pub fn de(&self) -> (r: u16)
        ensures
            r == self.spec_de(),
    {
        (self.d as u16) * 256 + (self.e as u16)
    }

    /// Reads the `hl` pair.
    pub fn hl(&self) -> (r: u16)
        ensures
            r == self.spec_hl(),
    {
        (self.h as u16) * 256 + (self.l as u16)
    }

    /// Writes the `af` pair. The low nibble of `f` always reads as zero on
    /// this processor, so it is masked away here.
    pub fn set_af(&mut self, v: u16)
        ensures
            *final(self) == (SharpLR35902Registers {
                a: (v / 256) as u8,
                f: (v % 256 / 16 * 16) as u8,
                ..*old(self)
            }),
    {
        proof {
            assert(v / 256 < 256 && v % 256 / 16 * 16 < 256) by (nonlinear_arith)
                requires
                    v < 65536,
            ;
        }
        self.a = (v / 256) as u8;
        self.f = (v % 256 / 16 * 16) as u8;
    }

    /// Writes the `bc` pair.
    pub fn set_bc(&mut self, v: u16)
        ensures
            *final(self) == (SharpLR35902Registers { b: (v / 256) as u8, c: (v % 256) as u8, ..*old(self) }),
    {
        proof {
            assert(v / 256 < 256) by (nonlinear_arith)
                requires
                    v < 65536,
            ;
        }
        self.b = (v / 256) as u8;
        self.c = (v % 256) as u8;
    }

    /// Writes the `de` pair.
    pub fn set_de(&mut self, v: u16)
        ensures
            *final(self) == (SharpLR35902Registers { d: (v / 256) as u8, e: (v % 256) as u8, ..*old(self) }),
    {
        proof {
            assert(v / 256 < 256) by (nonlinear_arith)
                requires
                    v < 65536,
            ;
        }
        self.d = (v / 256) as u8;
        self.e = (v % 256) as u8;
    }

    /// Writes the `hl` pair.
    pub fn set_hl(&mut self, v: u16)
        ensures
            *final(self) == (SharpLR35902Registers { h: (v / 256) as u8, l: (v % 256) as u8, ..*old(self) }),
    {
        proof {
            assert(v / 256 < 256) by (nonlinear_arith)
                requires
                    v < 65536,
            ;
        }
        self.h = (v / 256) as u8;
        self.l = (v % 256) as u8;
    }

    /// The register file after storing `v` in the pair selected by `index`
    /// in the general pair order BC, DE, HL, SP.
    pub open spec fn spec_with_pair(self, index: u8, v: u16) -> SharpLR35902Registers {
        if index == 0 {
            SharpLR35902Registers { b: (v / 256) as u8, c: (v % 256) as u8, ..self }
        } else if index == 1 {
            SharpLR35902Registers { d: (v / 256) as u8, e: (v % 256) as u8, ..self }
        } else if index == 2 {
            SharpLR35902Registers { h: (v / 256) as u8, l: (v % 256) as u8, ..self }
        } else {
            SharpLR35902Registers { sp: v, ..self }
        }
    }

    /// The register file after storing `v` in the pair selected by `index`
    /// in the push/pop pair order BC, DE, HL, AF. Writing AF masks the low
    /// nibble of the flags register.
    pub open spec fn spec_with_pair_stack(self, index: u8, v: u16) -> SharpLR35902Registers {
        if index == 3 {
            SharpLR35902Registers { a: (v / 256) as u8, f: (v % 256 / 16 * 16) as u8, ..self }
        } else {
            self.spec_with_pair(index, v)
        }
    }

    /// The register pair selected by `index` in the general pair order
    /// BC, DE, HL, SP.
    pub open spec fn spec_pair(self, index: u8) -> u16 {
        if index == 0 {
            self.spec_bc()
        } else if index == 1 {
            self.spec_de()
        } else if index == 2 {
            self.spec_hl()
        } else {
            self.sp
        }
    }

    /// Reads the register pair selected by `index`, order BC, DE, HL, SP.
    pub fn pair(&self, index: u8) -> (r: u16)
        requires
            index < 4,
        ensures
            r == self.spec_pair(index),
    {
        match index {
            0 => self.bc(),
            1 => self.de(),
            2 => self.hl(),
            _ => self.sp,
        }
    }

    /// Writes the register pair selected by `index`, order BC, DE, HL, SP.
    pub fn set_pair(&mut self, index: u8, v: u16)
        requires
            index < 4,
        ensures
            *final(self) == old(self).spec_with_pair(index, v),
            final(self).spec_pair(index) == v,
    {
        proof {
            assert(v / 256 < 256 && v / 256 * 256 + v % 256 == v) by (nonlinear_arith)
                requires
                    v < 65536,
            ;
        }
        match index {
            0 => self.set_bc(v),
            1 => self.set_de(v),
            2 => self.set_hl(v),
            _ => self.sp = v,
        }
    }

    /// The register pair selected by `index` in the push/pop pair order
    /// BC, DE, HL, AF.
    pub open spec fn spec_pair_stack(self, index: u8) -> u16 {
        if index == 0 {
            self.spec_bc()
        } else if index == 1 {
            self.spec_de()
        } else if index == 2 {
            self.spec_hl()
        } else {
            self.spec_af()
        }
    }

    /// Reads the register pair selected by `index`, order BC, DE, HL, AF.
    pub fn pair_stack(&self, index: u8) -> (r: u16)
        requires
            index < 4,
        ensures
            r == self.spec_pair_stack(index),
    {
        match index {
            0 => self.bc(),
            1 => self.de(),
            2 => self.hl(),
            _ => self.af(),
        }
    }

    /// Writes the register pair selected by `index`, order BC, DE, HL, AF.
    /// Writing AF masks the low nibble of `f`, which always reads as zero.
    pub fn set_pair_stack(&mut self, index: u8, v: u16)
        requires
            index < 4,
        ensures
            *final(self) == old(self).spec_with_pair_stack(index, v),
            v % 16 == 0 ==> final(self).spec_pair_stack(index) == v,
    {
        proof {
            assert(v / 256 < 256 && v / 256 * 256 + v % 256 == v) by (nonlinear_arith)
                requires
                    v < 65536,
            ;
            assert(v % 16 == 0 ==> v % 256 / 16 * 16 == v % 256) by (nonlinear_arith)
                requires
                    v < 65536,
            ;
        }
        match index {
            0 => self.set_bc(v),
            1 => self.set_de(v),
            2 => self.set_hl(v),
            _ => self.set_af(v),
        }
    }
}

impl Default for SharpLR35902Registers {
    /// Same power-on state as [`SharpLR35902Registers::new`].
    fn default() -> (r: SharpLR35902Registers)
        ensures
            r == (SharpLR35902Registers { a: 0, f: 0, b: 0, c: 0, d: 0, e: 0, h: 0, l: 0, pc: 0, sp: 0 }),
    {
        SharpLR35902Registers::new()
    }
}

/// Law: every 8-bit value written into a register reads back exactly, and
/// writing one register leaves all the others as they were.
pub proof fn lemma_reg_round_trip(regs: SharpLR35902Registers, index: u8, other: u8, v: u8)
    requires
        index < 8,
        other < 8,
        other != index,
    ensures
        regs.spec_with_reg(index, v).spec_reg(index) == v,
        regs.spec_with_reg(index, v).spec_reg(other) == regs.spec_reg(other),
{
}

/// Law: writing a 16-bit pair then reading it back returns the same value,
/// for the pairs BC, DE, HL and SP of the general pair table. For AF, the
/// fourth entry of the push/pop table, the same holds of every value whose
/// low nibble is zero, the only values the flags register can hold on this
/// processor.
pub proof fn lemma_pair_round_trip(regs: SharpLR35902Registers, index: u8, v: u16)
    requires
        index < 4,
    ensures
        regs.spec_with_pair(index, v).spec_pair(index) == v,
        v % 16 == 0 ==> regs.spec_with_pair_stack(index, v).spec_pair_stack(index) == v,
{
    assert(v / 256 < 256 && v / 256 * 256 + v % 256 == v) by (nonlinear_arith)
        requires
            v < 65536,
    ;
    assert(v % 16 == 0 ==> v % 256 / 16 * 16 == v % 256) by (nonlinear_arith)
        requires
            v < 65536,
    ;
}

/// Law: composing two 8-bit registers into their pair view splits back into
/// exactly those bytes: the first-named register is the high byte and the
/// second the low byte.
pub proof fn lemma_pair_split(hi: u8, lo: u8)
    ensures
        (hi * 256 + lo) / 256 == hi,
        (hi * 256 + lo) % 256 == lo,
{
    assert((hi * 256 + lo) / 256 == hi && (hi * 256 + lo) % 256 == lo) by (nonlinear_arith)
        requires
            hi < 256,
            lo < 256,
    ;
}

/// Law: each of the four flag bits can be set and cleared independently.
/// Setting or clearing one flag makes its own test come out true or false,
/// and leaves each of the other three flags, whatever their prior state,
/// exactly as it was.
pub proof fn lemma_flag_independence(f: u8)
    by (bit_vector)
    ensures
        has_flag(f | F_ZERO, F_ZERO),
        has_flag(f | F_SUBTRACT, F_SUBTRACT),
        has_flag(f | F_HALFCARRY, F_HALFCARRY),
        has_flag(f | F_CARRY, F_CARRY),
        !has_flag(f & !F_ZERO, F_ZERO),
        !has_flag(f & !F_SUBTRACT, F_SUBTRACT),
        !has_flag(f & !F_HALFCARRY, F_HALFCARRY),
        !has_flag(f & !F_CARRY, F_CARRY),
        has_flag(f | F_ZERO, F_SUBTRACT) == has_flag(f, F_SUBTRACT),
        has_flag(f | F_ZERO, F_HALFCARRY) == has_flag(f, F_HALFCARRY),
        has_flag(f | F_ZERO, F_CARRY) == has_flag(f, F_CARRY),
        has_flag(f | F_SUBTRACT, F_ZERO) == has_flag(f, F_ZERO),
        has_flag(f | F_SUBTRACT, F_HALFCARRY) == has_flag(f, F_HALFCARRY),
        has_flag(f | F_SUBTRACT, F_CARRY) == has_flag(f, F_CARRY),
        has_flag(f | F_HALFCARRY, F_ZERO) == has_flag(f, F_ZERO),
        has_flag(f | F_HALFCARRY, F_SUBTRACT) == has_flag(f, F_SUBTRACT),
        has_flag(f | F_HALFCARRY, F_CARRY) == has_flag(f, F_CARRY),
        has_flag(f | F_CARRY, F_ZERO) == has_flag(f, F_ZERO),
        has_flag(f | F_CARRY, F_SUBTRACT) == has_flag(f, F_SUBTRACT),
        has_flag(f | F_CARRY, F_HALFCARRY) == has_flag(f, F_HALFCARRY),
        has_flag(f & !F_ZERO, F_SUBTRACT) == has_flag(f, F_SUBTRACT),
        has_flag(f & !F_ZERO, F_HALFCARRY) == has_flag(f, F_HALFCARRY),
        has_flag(f & !F_ZERO, F_CARRY) == has_flag(f, F_CARRY),
        has_flag(f & !F_SUBTRACT, F_ZERO) == has_flag(f, F_ZERO),
        has_flag(f & !F_SUBTRACT, F_HALFCARRY) == has_flag(f, F_HALFCARRY),
        has_flag(f & !F_SUBTRACT, F_CARRY) == has_flag(f, F_CARRY),
        has_flag(f & !F_HALFCARRY, F_ZERO) == has_flag(f, F_ZERO),
        has_flag(f & !F_HALFCARRY, F_SUBTRACT) == has_flag(f, F_SUBTRACT),
        has_flag(f & !F_HALFCARRY, F_CARRY) == has_flag(f, F_CARRY),
        has_flag(f & !F_CARRY, F_ZERO) == has_flag(f, F_ZERO),
        has_flag(f & !F_CARRY, F_SUBTRACT) == has_flag(f, F_SUBTRACT),
        has_flag(f & !F_CARRY, F_HALFCARRY) == has_flag(f, F_HALFCARRY),
{
}

} // verus!

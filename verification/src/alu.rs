use vstd::prelude::*;
use crate::registers::{has_flag, F_ZERO, F_SUBTRACT, F_HALFCARRY, F_CARRY};

verus! {

/// A flags byte assembled from the four flag bits; the low nibble is zero,
/// as it always is on this processor.
pub open spec fn flags_byte(z: bool, n: bool, h: bool, c: bool) -> u8 {
    ((if z {
        128int
    } else {
        0int
    }) + (if n {
        64int
    } else {
        0int
    }) + (if h {
        32int
    } else {
        0int
    }) + (if c {
        16int
    } else {
        0int
    })) as u8
}

/// Assembles a flags byte from the four flag bits.
pub fn make_flags(z: bool, n: bool, h: bool, c: bool) -> (r: u8)
    ensures
        r == flags_byte(z, n, h, c),
{
    (if z {
        128u8
    } else {
        0u8
    }) + (if n {
        64u8
    } else {
        0u8
    }) + (if h {
        32u8
    } else {
        0u8
    }) + (if c {
        16u8
    } else {
        0u8
    })
}

/// Reading a flags byte built by [`flags_byte`] returns exactly the bits
/// it was built from, and its low nibble is zero.
pub proof fn lemma_flags_byte(z: bool, n: bool, h: bool, c: bool)
    ensures
        has_flag(flags_byte(z, n, h, c), F_ZERO) == z,
        has_flag(flags_byte(z, n, h, c), F_SUBTRACT) == n,
        has_flag(flags_byte(z, n, h, c), F_HALFCARRY) == h,
        has_flag(flags_byte(z, n, h, c), F_CARRY) == c,
        flags_byte(z, n, h, c) % 16 == 0,
{
    let zi: u8 = if z {
        1
    } else {
        0
    };
    let ni: u8 = if n {
        1
    } else {
        0
    };
    let hi: u8 = if h {
        1
    } else {
        0
    };
    let ci: u8 = if c {
        1
    } else {
        0
    };
    assert(zi <= 1 && ni <= 1 && hi <= 1 && ci <= 1 ==> {
        let fb = (128 * zi + 64 * ni + 32 * hi + 16 * ci) as u8;
        &&& (fb & 0x80 == 0x80) == (zi == 1)
        &&& (fb & 0x40 == 0x40) == (ni == 1)
        &&& (fb & 0x20 == 0x20) == (hi == 1)
        &&& (fb & 0x10 == 0x10) == (ci == 1)
        &&& fb % 16 == 0
    }) by (bit_vector);
    assert(flags_byte(z, n, h, c) == (128 * zi + 64 * ni + 32 * hi + 16 * ci) as u8);
}

/// Euclidean remainder by 256 written out for the small range every 8-bit
/// operation stays inside.
pub proof fn lemma_mod256(x: int)
    requires
        -256 <= x < 512,
    ensures
        x % 256 == (if x < 0 {
            x + 256
        } else if x < 256 {
            x
        } else {
            x - 256
        }),
{
    assert(x % 256 == (if x < 0 {
        x + 256
    } else if x < 256 {
        x
    } else {
        x - 256
    })) by (nonlinear_arith)
        requires
            -256 <= x < 512,
    ;
}

/// Euclidean remainder by 65536 written out for the small range every
/// 16-bit operation stays inside.
pub proof fn lemma_mod65536(x: int)
    requires
        -65536 <= x < 131072,
    ensures
        x % 65536 == (if x < 0 {
            x + 65536
        } else if x < 65536 {
            x
        } else {
            x - 65536
        }),
{
    assert(x % 65536 == (if x < 0 {
        x + 65536
    } else if x < 65536 {
        x
    } else {
        x - 65536
    })) by (nonlinear_arith)
        requires
            -65536 <= x < 131072,
    ;
}

/// 8-bit addition with optional carry-in: the wrapped sum, and the flags
/// byte with Zero from the result, Subtract clear, Half-carry from bit 3
/// and Carry from bit 7.
pub open spec fn spec_add(a: u8, b: u8, cin: bool) -> (u8, u8) {
    let carry: int = if cin {
        1
    } else {
        0
    };
    let v = ((a + b + carry) % 256) as u8;
    (v, flags_byte(v == 0, false, a % 16 + b % 16 + carry > 15, a + b + carry > 255))
}

/// 8-bit subtraction with optional borrow-in: the wrapped difference, and
/// the flags byte with Zero from the result, Subtract set, Half-carry from
/// the low-nibble borrow and Carry from the full borrow.
pub open spec fn spec_sub(a: u8, b: u8, cin: bool) -> (u8, u8) {
    let borrow: int = if cin {
        1
    } else {
        0
    };
    let v = ((a - b - borrow) % 256) as u8;
    (v, flags_byte(v == 0, true, a % 16 < b % 16 + borrow, (a as int) < b + borrow))
}

/// The ALU operation selected by opcode field `y`: ADD, ADC, SUB, SBC,
/// AND, XOR, OR, CP in that fixed order. The result is the new accumulator
/// value and the new flags byte; CP leaves the accumulator unchanged and
/// keeps only the comparison flags.
pub open spec fn spec_alu(y: u8, a: u8, d: u8, f: u8) -> (u8, u8) {
    let cf = has_flag(f, F_CARRY);
    if y == 0 {
        spec_add(a, d, false)
    } else if y == 1 {
        spec_add(a, d, cf)
    } else if y == 2 {
        spec_sub(a, d, false)
    } else if y == 3 {
        spec_sub(a, d, cf)
    } else if y == 4 {
        ((a & d), flags_byte((a & d) == 0, false, true, false))
    } else if y == 5 {
        ((a ^ d), flags_byte((a ^ d) == 0, false, false, false))
    } else if y == 6 {
        ((a | d), flags_byte((a | d) == 0, false, false, false))
    } else {
        (a, spec_sub(a, d, false).1)
    }
}

/// Performs the ALU operation selected by `y` on accumulator `a` and
/// operand `d`, under the current flags byte `f`.
pub fn alu(y: u8, a: u8, d: u8, f: u8) -> (r: (u8, u8))
    requires
        y < 8,
    ensures
        r == spec_alu(y, a, d, f),
{
    let cf: bool = f & F_CARRY == F_CARRY;
    match y {
        0 => add8(a, d, false),
        1 => add8(a, d, cf),
        2 => sub8(a, d, false),
        3 => sub8(a, d, cf),
        4 => {
            let v = a & d;
            (v, make_flags(v == 0, false, true, false))
        },
        5 => {
            let v = a ^ d;
            (v, make_flags(v == 0, false, false, false))
        },
        6 => {
            let v = a | d;
            (v, make_flags(v == 0, false, false, false))
        },
        _ => {
            let fl = sub8(a, d, false).1;
            (a, fl)
        },
    }
}

/// 8-bit add with carry-in, wrapped to a byte.
pub fn add8(a: u8, b: u8, cin: bool) -> (r: (u8, u8))
    ensures
        r == spec_add(a, b, cin),
{
    let carry: u16 = if cin {
        1
    } else {
        0
    };
    let s: u16 = a as u16 + b as u16 + carry;
    proof {
        lemma_mod256(s as int);
    }
    let v: u8 = (s % 256) as u8;
    let fl = make_flags(v == 0, false, (a % 16) as u16 + (b % 16) as u16 + carry > 15, s > 255);
    (v, fl)
}

/// 8-bit subtract with borrow-in, wrapped to a byte.
pub fn sub8(a: u8, b: u8, cin: bool) -> (r: (u8, u8))
    ensures
        r == spec_sub(a, b, cin),
{
    let borrow: u16 = if cin {
        1
    } else {
        0
    };
    proof {
        lemma_mod256(a as int - b as int - (if cin {
            1int
        } else {
            0int
        }));
    }
    let v: u8 = if a as u16 >= b as u16 + borrow {
        (a as u16 - b as u16 - borrow) as u8
    } else {
        (a as u16 + 256 - b as u16 - borrow) as u8
    };
    let lo_a: u16 = (a % 16) as u16;
    let lo_b: u16 = (b % 16) as u16;
    let fl = make_flags(v == 0, true, lo_a < lo_b + borrow, (a as u16) < b as u16 + borrow);
    (v, fl)
}

/// 8-bit increment: Zero and Half-carry from the result, Subtract cleared,
/// Carry left as it was.
pub open spec fn spec_inc8(v: u8, f: u8) -> (u8, u8) {
    let r = ((v + 1) % 256) as u8;
    (r, flags_byte(r == 0, false, v % 16 == 15, has_flag(f, F_CARRY)))
}

/// Increments an 8-bit value, preserving the carry flag.
pub fn inc8(v: u8, f: u8) -> (r: (u8, u8))
    ensures
        r == spec_inc8(v, f),
{
    proof {
        lemma_mod256(v as int + 1);
    }
    let nv: u8 = if v == 255 {
        0
    } else {
        v + 1
    };
    (nv, make_flags(nv == 0, false, v % 16 == 15, f & F_CARRY == F_CARRY))
}

/// 8-bit decrement: Zero and Half-carry from the result, Subtract set,
/// Carry left as it was.
pub open spec fn spec_dec8(v: u8, f: u8) -> (u8, u8) {
    let r = ((v - 1) % 256) as u8;
    (r, flags_byte(r == 0, true, v % 16 == 0, has_flag(f, F_CARRY)))
}

/// Decrements an 8-bit value, preserving the carry flag.
pub fn dec8(v: u8, f: u8) -> (r: (u8, u8))
    ensures
        r == spec_dec8(v, f),
{
    proof {
        lemma_mod256(v as int - 1);
    }
    let nv: u8 = if v == 0 {
        255
    } else {
        v - 1
    };
    (nv, make_flags(nv == 0, true, v % 16 == 0, f & F_CARRY == F_CARRY))
}

/// The rotate/shift operation selected by CB opcode field `y`: RLC, RRC,
/// RL, RR, SLA, SRA, SWAP, SRL in that fixed order. Returns the rotated
/// value and the carry bit shifted out (SWAP always shifts out zero).
pub open spec fn spec_rot(y: u8, v: u8, cin: bool) -> (u8, bool) {
    let carry: int = if cin {
        1
    } else {
        0
    };
    if y == 0 {
        ((((2 * v) % 256) + v / 128) as u8, v >= 128)
    } else if y == 1 {
        ((v / 2 + (v % 2) * 128) as u8, v % 2 == 1)
    } else if y == 2 {
        ((((2 * v) % 256) + carry) as u8, v >= 128)
    } else if y == 3 {
        ((v / 2 + carry * 128) as u8, v % 2 == 1)
    } else if y == 4 {
        (((2 * v) % 256) as u8, v >= 128)
    } else if y == 5 {
        ((v / 2 + (v / 128) * 128) as u8, v % 2 == 1)
    } else if y == 6 {
        (((v % 16) * 16 + v / 16) as u8, false)
    } else {
        ((v / 2) as u8, v % 2 == 1)
    }
}

/// Performs the rotate/shift operation selected by `y` with carry-in `cin`.
pub fn rot(y: u8, v: u8, cin: bool) -> (r: (u8, bool))
    requires
        y < 8,
    ensures
        r == spec_rot(y, v, cin),
{
    proof {
        lemma_mod256(2 * v as int);
    }
    let doubled: u8 = ((v as u16 * 2) % 256) as u8;
    let carry: u8 = if cin {
        1
    } else {
        0
    };
    match y {
        0 => (doubled + v / 128, v >= 128),
        1 => (v / 2 + (v % 2) * 128, v % 2 == 1),
        2 => (doubled + carry, v >= 128),
        3 => (v / 2 + carry * 128, v % 2 == 1),
        4 => (doubled, v >= 128),
        5 => (v / 2 + (v / 128) * 128, v % 2 == 1),
        6 => ((v % 16) * 16 + v / 16, false),
        _ => (v / 2, v % 2 == 1),
    }
}

/// The single-bit mask selecting bit `i` of a byte.
pub open spec fn bit_mask(i: u8) -> u8 {
    if i == 0 {
        1
    } else if i == 1 {
        2
    } else if i == 2 {
        4
    } else if i == 3 {
        8
    } else if i == 4 {
        16
    } else if i == 5 {
        32
    } else if i == 6 {
        64
    } else {
        128
    }
}

/// Whether bit `i` of `v` is set.
pub open spec fn spec_bit(v: u8, i: u8) -> bool {
    v & bit_mask(i) != 0
}

/// The mask selecting bit `i`.
pub fn mask_of(i: u8) -> (r: u8)
    requires
        i < 8,
    ensures
        r == bit_mask(i),
{
    match i {
        0 => 1,
        1 => 2,
        2 => 4,
        3 => 8,
        4 => 16,
        5 => 32,
        6 => 64,
        _ => 128,
    }
}

/// Tests bit `i` of `v`: Zero is the complement of the bit, Subtract is
/// cleared, Half-carry is set and Carry is left as it was.
pub fn bit_test(v: u8, i: u8, f: u8) -> (r: u8)
    requires
        i < 8,
    ensures
        r == flags_byte(!spec_bit(v, i), false, true, has_flag(f, F_CARRY)),
{
    let m = mask_of(i);
    make_flags(v & m == 0, false, true, f & F_CARRY == F_CARRY)
}

/// Sets bit `i` of `v`.
pub fn set_bit(v: u8, i: u8) -> (r: u8)
    requires
        i < 8,
    ensures
        r == (v | bit_mask(i)),
{
    v | mask_of(i)
}

/// Clears bit `i` of `v`.
pub fn res_bit(v: u8, i: u8) -> (r: u8)
    requires
        i < 8,
    ensures
        r == (v & !bit_mask(i)),
{
    v & !mask_of(i)
}

/// Binary-coded-decimal adjustment of the accumulator after an addition or
/// subtraction: each correction (0x06 low, 0x60 high) is applied when its
/// nibble overflowed or, after addition, when the digit is out of range.
/// Zero comes from the result, Half-carry is cleared, Subtract is kept, and
/// Carry is set when the high correction was applied after an addition.
pub open spec fn spec_daa(a: u8, f: u8) -> (u8, u8) {
    let n = has_flag(f, F_SUBTRACT);
    let h = has_flag(f, F_HALFCARRY);
    let c = has_flag(f, F_CARRY);
    if !n {
        let lo: int = if h || a % 16 > 9 {
            6
        } else {
            0
        };
        let hi: int = if c || a > 0x99 {
            0x60
        } else {
            0
        };
        let v = ((a + lo + hi) % 256) as u8;
        (v, flags_byte(v == 0, false, false, c || a > 0x99))
    } else {
        let lo: int = if h {
            6
        } else {
            0
        };
        let hi: int = if c {
            0x60
        } else {
            0
        };
        let v = ((a - lo - hi) % 256) as u8;
        (v, flags_byte(v == 0, true, false, c))
    }
}

/// Performs the DAA adjustment on accumulator `a` under flags `f`.
pub fn daa(a: u8, f: u8) -> (r: (u8, u8))
    ensures
        r == spec_daa(a, f),
{
    let n: bool = f & F_SUBTRACT == F_SUBTRACT;
    let h: bool = f & F_HALFCARRY == F_HALFCARRY;
    let c: bool = f & F_CARRY == F_CARRY;
    if !n {
        let lo: u16 = if h || a % 16 > 9 {
            6
        } else {
            0
        };
        let hi: u16 = if c || a > 0x99 {
            0x60
        } else {
            0
        };
        let s: u16 = a as u16 + lo + hi;
        proof {
            lemma_mod256(s as int);
        }
        let v: u8 = (s % 256) as u8;
        (v, make_flags(v == 0, false, false, c || a > 0x99))
    } else {
        let lo: u16 = if h {
            6
        } else {
            0
        };
        let hi: u16 = if c {
            0x60
        } else {
            0
        };
        proof {
            lemma_mod256(a as int - lo - hi);
        }
        let v: u8 = if a as u16 >= lo + hi {
            (a as u16 - lo - hi) as u8
        } else {
            (a as u16 + 256 - lo - hi) as u8
        };
        (v, make_flags(v == 0, true, false, c))
    }
}

/// 16-bit addition onto HL: Subtract cleared, Half-carry from bit 11,
/// Carry from bit 15, Zero left as it was.
pub open spec fn spec_add16(hl: u16, rr: u16, f: u8) -> (u16, u8) {
    let v = ((hl + rr) % 65536) as u16;
    (v, flags_byte(has_flag(f, F_ZERO), false, hl % 4096 + rr % 4096 > 4095, hl + rr > 65535))
}

/// Adds a register pair onto HL, with the 16-bit flag rules.
pub fn add16(hl: u16, rr: u16, f: u8) -> (r: (u16, u8))
    ensures
        r == spec_add16(hl, rr, f),
{
    let s: u32 = hl as u32 + rr as u32;
    proof {
        lemma_mod65536(s as int);
    }
    let v: u16 = (s % 65536) as u16;
    let fl = make_flags(
        f & F_ZERO == F_ZERO,
        false,
        (hl % 4096) as u32 + (rr % 4096) as u32 > 4095,
        s > 65535,
    );
    (v, fl)
}

/// An 8-bit immediate reinterpreted as a signed displacement.
pub open spec fn signed8(e: u8) -> int {
    if e < 128 {
        e as int
    } else {
        e - 256
    }
}

/// A 16-bit base plus a signed 8-bit displacement, wrapped to 16 bits.
pub open spec fn spec_rel16(base: u16, e: u8) -> u16 {
    ((base + signed8(e)) % 65536) as u16
}

/// Adds a signed 8-bit displacement to a 16-bit base, wrapping.
pub fn rel16(base: u16, e: u8) -> (r: u16)
    ensures
        r == spec_rel16(base, e),
{
    let t: u32 = base as u32 + e as u32 + (if e < 128 {
        0
    } else {
        0xFF00
    });
    proof {
        lemma_mod65536(t as int);
        lemma_mod65536(base as int + signed8(e));
    }
    (t % 65536) as u16
}

/// The flags of ADD SP,e and LD HL,SP+e: Zero and Subtract cleared,
/// Half-carry and Carry from the unsigned low-byte addition.
pub open spec fn spec_sp_flags(sp: u16, e: u8) -> u8 {
    flags_byte(false, false, sp % 16 + e % 16 > 15, sp % 256 + (e as int) % 256 > 255)
}

/// Computes the flags of ADD SP,e and LD HL,SP+e.
pub fn sp_flags(sp: u16, e: u8) -> (r: u8)
    ensures
        r == spec_sp_flags(sp, e),
{
    make_flags(false, false, (sp % 16) as u32 + (e % 16) as u32 > 15, (sp % 256) as u32 + e as u32 > 255)
}

/// Law: every ALU-group operation that produces a zero result reports it
/// in the Zero flag, and each operation drives Subtract, Half-carry and
/// Carry exactly as its table entry says: the logical operations clear
/// Carry (AND alone sets Half-carry), additions clear Subtract, and the
/// subtraction family sets it. In particular XOR of the accumulator with
/// itself always yields zero with Zero set and every other flag clear.
pub proof fn lemma_alu_zero_result(y: u8, a: u8, d: u8, f: u8)
    requires
        y < 8,
    ensures
        y != 7 ==> (has_flag(spec_alu(y, a, d, f).1, F_ZERO) <==> spec_alu(y, a, d, f).0 == 0),
        y == 7 ==> (has_flag(spec_alu(y, a, d, f).1, F_ZERO) <==> a == d) && spec_alu(y, a, d, f).0 == a,
        y == 0 || y == 1 ==> !has_flag(spec_alu(y, a, d, f).1, F_SUBTRACT),
        y == 2 || y == 3 || y == 7 ==> has_flag(spec_alu(y, a, d, f).1, F_SUBTRACT),
        y == 4 ==> spec_alu(y, a, d, f).1 == flags_byte(spec_alu(y, a, d, f).0 == 0, false, true, false),
        y == 5 || y == 6 ==> spec_alu(y, a, d, f).1 == flags_byte(spec_alu(y, a, d, f).0 == 0, false, false, false),
        y == 5 && a == d ==> spec_alu(y, a, d, f) == (0u8, flags_byte(true, false, false, false)),
{
    let cf = has_flag(f, F_CARRY);
    lemma_flags_byte(spec_alu(y, a, d, f).0 == 0, false, true, false);
    lemma_flags_byte(spec_add(a, d, false).0 == 0, false, a % 16 + d % 16 > 15, a + d > 255);
    lemma_flags_byte(
        spec_add(a, d, cf).0 == 0,
        false,
        a % 16 + d % 16 + (if cf {
            1int
        } else {
            0int
        }) > 15,
        a + d + (if cf {
            1int
        } else {
            0int
        }) > 255,
    );
    lemma_flags_byte(spec_sub(a, d, false).0 == 0, true, a % 16 < d % 16, (a as int) < d as int);
    lemma_flags_byte(
        spec_sub(a, d, cf).0 == 0,
        true,
        a % 16 < d % 16 + (if cf {
            1int
        } else {
            0int
        }),
        (a as int) < d + (if cf {
            1int
        } else {
            0int
        }),
    );
    lemma_flags_byte(spec_alu(y, a, d, f).0 == 0, false, false, false);
    if y == 7 {
        lemma_mod256(a as int - d as int);
        assert((a - d) % 256 == 0 <==> a == d);
    }
    if y == 5 && a == d {
        assert(a ^ a == 0) by (bit_vector);
    }
}

} // verus!

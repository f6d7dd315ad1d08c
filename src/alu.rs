//! Flag arithmetic of the 8-bit ALU: every operation is a pure function of
//! its operands and the incoming flags.
use vstd::prelude::*;

verus! {

/// The four flags kept in the upper nibble of `F`.
#[derive(Clone, Copy, Debug, PartialEq, Eq, Structural)]
pub struct Flags {
    pub z: bool,
    pub n: bool,
    pub h: bool,
    pub c: bool,
}

/// A result byte with the flags it leaves.
#[derive(Clone, Copy, Debug, PartialEq, Eq, Structural)]
pub struct AluOut {
    pub result: u8,
    pub flags: Flags,
}

/// The eight accumulator operations.
#[derive(Clone, Copy, Debug, PartialEq, Eq, Structural)]
pub enum AluOp {
    Add,
    Adc,
    Sub,
    Sbc,
    And,
    Xor,
    Or,
    Cp,
}

/// The rotate, shift and swap operations of the prefixed page.
#[derive(Clone, Copy, Debug, PartialEq, Eq, Structural)]
pub enum ShiftOp {
    Rlc,
    Rrc,
    Rl,
    Rr,
    Sla,
    Sra,
    Swap,
    Srl,
}

pub open spec fn bit(b: bool) -> int {
    if b {
        1
    } else {
        0
    }
}

/// The `F` register image of a set of flags; its low nibble is zero.
pub open spec fn flags_byte(f: Flags) -> u8 {
    (128 * bit(f.z) + 64 * bit(f.n) + 32 * bit(f.h) + 16 * bit(f.c)) as u8
}

/// The flags that an `F` register image holds (its low nibble is ignored).
pub open spec fn flags_of_byte(b: u8) -> Flags {
    Flags { z: (b / 128) % 2 == 1, n: (b / 64) % 2 == 1, h: (b / 32) % 2 == 1, c: (b / 16) % 2 == 1 }
}

pub open spec fn alu_spec(op: AluOp, a: u8, v: u8, f: Flags) -> AluOut {
    let cin = bit(f.c);
    match op {
        AluOp::Add => AluOut {
            result: ((a + v) % 256) as u8,
            flags: Flags {
                z: (a + v) % 256 == 0,
                n: false,
                h: a % 16 + v % 16 > 15,
                c: a + v > 255,
            },
        },
        AluOp::Adc => AluOut {
            result: ((a + v + cin) % 256) as u8,
            flags: Flags {
                z: (a + v + cin) % 256 == 0,
                n: false,
                h: a % 16 + v % 16 + cin > 15,
                c: a + v + cin > 255,
            },
        },
        AluOp::Sub => AluOut {
            result: ((a - v + 256) % 256) as u8,
            flags: Flags { z: a == v, n: true, h: v % 16 > a % 16, c: v > a },
        },
        AluOp::Sbc => AluOut {
            result: ((a - v - cin + 512) % 256) as u8,
            flags: Flags {
                z: (a - v - cin + 512) % 256 == 0,
                n: true,
                h: v % 16 + cin > a % 16,
                c: v + cin > a,
            },
        },
        AluOp::And => AluOut {
            result: a & v,
            flags: Flags { z: a & v == 0, n: false, h: true, c: false },
        },
        AluOp::Xor => AluOut {
            result: a ^ v,
            flags: Flags { z: a ^ v == 0, n: false, h: false, c: false },
        },
        AluOp::Or => AluOut {
            result: a | v,
            flags: Flags { z: a | v == 0, n: false, h: false, c: false },
        },
        AluOp::Cp => AluOut {
            result: a,
            flags: Flags { z: a == v, n: true, h: v % 16 > a % 16, c: v > a },
        },
    }
}

pub open spec fn inc_spec(v: u8, f: Flags) -> AluOut {
    AluOut {
        result: ((v + 1) % 256) as u8,
        flags: Flags { z: v == 255, n: false, h: v % 16 == 15, c: f.c },
    }
}

pub open spec fn dec_spec(v: u8, f: Flags) -> AluOut {
    AluOut {
        result: ((v + 255) % 256) as u8,
        flags: Flags { z: v == 1, n: true, h: v % 16 == 0, c: f.c },
    }
}

/// Result byte and carry-out of a rotate, shift or swap.
pub open spec fn shift_value(op: ShiftOp, v: u8, cin: bool) -> (u8, bool) {
    match op {
        ShiftOp::Rlc => (((v * 2) % 256 + v / 128) as u8, v >= 128),
        ShiftOp::Rrc => ((v / 2 + (v % 2) * 128) as u8, v % 2 == 1),
        ShiftOp::Rl => (((v * 2) % 256 + bit(cin)) as u8, v >= 128),
        ShiftOp::Rr => ((v / 2 + bit(cin) * 128) as u8, v % 2 == 1),
        ShiftOp::Sla => (((v * 2) % 256) as u8, v >= 128),
        ShiftOp::Sra => ((v / 2 + (v / 128) * 128) as u8, v % 2 == 1),
        ShiftOp::Swap => (((v % 16) * 16 + v / 16) as u8, false),
        ShiftOp::Srl => ((v / 2) as u8, v % 2 == 1),
    }
}

/// A prefixed rotate/shift/swap: `Z` from the result, `N = H = 0`.
pub open spec fn shift_spec(op: ShiftOp, v: u8, f: Flags) -> AluOut {
    let (r, c) = shift_value(op, v, f.c);
    AluOut { result: r, flags: Flags { z: r == 0, n: false, h: false, c } }
}

/// The accumulator rotates `RLCA/RRCA/RLA/RRA`: as the prefixed ones, but
/// `Z` is always cleared.
pub open spec fn rotate_a_spec(op: ShiftOp, v: u8, f: Flags) -> AluOut {
    let (r, c) = shift_value(op, v, f.c);
    AluOut { result: r, flags: Flags { z: false, n: false, h: false, c } }
}

/// `BIT n,v`: `Z` set when bit `n` is clear; `C` kept.
pub open spec fn bit_test_spec(n: u8, v: u8, f: Flags) -> Flags {
    Flags { z: (v >> n) & 1 == 0, n: false, h: true, c: f.c }
}

pub open spec fn add16_spec(x: u16, y: u16, f: Flags) -> (u16, Flags) {
    (
        ((x + y) % 65536) as u16,
        Flags { z: f.z, n: false, h: x % 4096 + y % 4096 > 4095, c: x + y > 65535 },
    )
}

/// `ADD SP,e` and `LD HL,SP+e`: `e` is sign-extended for the sum; `H` and `C`
/// come from the unsigned low-byte sum.
pub open spec fn add_sp_spec(sp: u16, e: u8) -> (u16, Flags) {
    let delta: int = if e >= 128 {
        e - 256
    } else {
        e as int
    };
    (
        ((sp + delta + 65536) % 65536) as u16,
        Flags { z: false, n: false, h: sp % 16 + e % 16 > 15, c: sp % 256 + e > 255 },
    )
}

/// Decimal adjust of the accumulator after a BCD addition or subtraction.
pub open spec fn daa_spec(a: u8, f: Flags) -> AluOut {
    if !f.n {
        let hi_fix = f.c || a > 0x99;
        let a1: int = if hi_fix {
            (a + 0x60) % 256
        } else {
            a as int
        };
        let a2: int = if f.h || a1 % 16 > 9 {
            (a1 + 0x06) % 256
        } else {
            a1
        };
        AluOut { result: a2 as u8, flags: Flags { z: a2 == 0, n: false, h: false, c: hi_fix } }
    } else {
        let a1: int = if f.c {
            (a + 256 - 0x60) % 256
        } else {
            a as int
        };
        let a2: int = if f.h {
            (a1 + 256 - 0x06) % 256
        } else {
            a1
        };
        AluOut { result: a2 as u8, flags: Flags { z: a2 == 0, n: true, h: false, c: f.c } }
    }
}

pub fn flags_to_byte(f: Flags) -> (r: u8)
    ensures
        r == flags_byte(f),
        r % 16 == 0,
{
    let mut r: u8 = 0;
    if f.z {
        r = r + 128;
    }
    if f.n {
        r = r + 64;
    }
    if f.h {
        r = r + 32;
    }
    if f.c {
        r = r + 16;
    }
    r
}

pub fn flags_from_byte(b: u8) -> (r: Flags)
    ensures
        r == flags_of_byte(b),
{
    Flags { z: (b / 128) % 2 == 1, n: (b / 64) % 2 == 1, h: (b / 32) % 2 == 1, c: (b / 16) % 2 == 1 }
}

/// Reading the flags back from their `F` image gives the same flags.
pub proof fn lemma_flags_byte_round_trip(f: Flags)
    ensures
        flags_of_byte(flags_byte(f)) == f,
        flags_byte(f) % 16 == 0,
{
}

fn carry_in(f: Flags) -> (r: u16)
    ensures
        r == bit(f.c),
{
    if f.c {
        1
    } else {
        0
    }
}

pub fn alu(op: AluOp, a: u8, v: u8, f: Flags) -> (r: AluOut)
    ensures
        r == alu_spec(op, a, v, f),
{
    let cin: u16 = carry_in(f);
    let aw: u16 = a as u16;
    let vw: u16 = v as u16;
    match op {
        AluOp::Add => {
            let s: u16 = aw + vw;
            AluOut {
                result: (s % 256) as u8,
                flags: Flags { z: s % 256 == 0, n: false, h: aw % 16 + vw % 16 > 15, c: s > 255 },
            }
        },
        AluOp::Adc => {
            let s: u16 = aw + vw + cin;
            AluOut {
                result: (s % 256) as u8,
                flags: Flags {
                    z: s % 256 == 0,
                    n: false,
                    h: aw % 16 + vw % 16 + cin > 15,
                    c: s > 255,
                },
            }
        },
        AluOp::Sub => {
            let d: u16 = aw + 256 - vw;
            AluOut {
                result: (d % 256) as u8,
                flags: Flags { z: a == v, n: true, h: vw % 16 > aw % 16, c: vw > aw },
            }
        },
        AluOp::Sbc => {
            let d: u16 = aw + 512 - vw - cin;
            AluOut {
                result: (d % 256) as u8,
                flags: Flags {
                    z: d % 256 == 0,
                    n: true,
                    h: vw % 16 + cin > aw % 16,
                    c: vw + cin > aw,
                },
            }
        },
        AluOp::And => AluOut {
            result: a & v,
            flags: Flags { z: a & v == 0, n: false, h: true, c: false },
        },
        AluOp::Xor => AluOut {
            result: a ^ v,
            flags: Flags { z: a ^ v == 0, n: false, h: false, c: false },
        },
        AluOp::Or => AluOut {
            result: a | v,
            flags: Flags { z: a | v == 0, n: false, h: false, c: false },
        },
        AluOp::Cp => AluOut {
            result: a,
            flags: Flags { z: a == v, n: true, h: vw % 16 > aw % 16, c: vw > aw },
        },
    }
}

pub fn inc8(v: u8, f: Flags) -> (r: AluOut)
    ensures
        r == inc_spec(v, f),
{
    let result: u8 = if v == 255 {
        0
    } else {
        v + 1
    };
    AluOut { result, flags: Flags { z: v == 255, n: false, h: v % 16 == 15, c: f.c } }
}

pub fn dec8(v: u8, f: Flags) -> (r: AluOut)
    ensures
        r == dec_spec(v, f),
{
    let result: u8 = if v == 0 {
        255
    } else {
        v - 1
    };
    AluOut { result, flags: Flags { z: v == 1, n: true, h: v % 16 == 0, c: f.c } }
}

fn shift_raw(op: ShiftOp, v: u8, cin: bool) -> (r: (u8, bool))
    ensures
        r == shift_value(op, v, cin),
{
    let w: u16 = v as u16;
    let ci: u16 = if cin {
        1
    } else {
        0
    };
    match op {
        ShiftOp::Rlc => (((w * 2) % 256 + w / 128) as u8, v >= 128),
        ShiftOp::Rrc => ((w / 2 + (w % 2) * 128) as u8, v % 2 == 1),
        ShiftOp::Rl => (((w * 2) % 256 + ci) as u8, v >= 128),
        ShiftOp::Rr => ((w / 2 + ci * 128) as u8, v % 2 == 1),
        ShiftOp::Sla => (((w * 2) % 256) as u8, v >= 128),
        ShiftOp::Sra => ((w / 2 + (w / 128) * 128) as u8, v % 2 == 1),
        ShiftOp::Swap => (((w % 16) * 16 + w / 16) as u8, false),
        ShiftOp::Srl => ((w / 2) as u8, v % 2 == 1),
    }
}

pub fn shift(op: ShiftOp, v: u8, f: Flags) -> (r: AluOut)
    ensures
        r == shift_spec(op, v, f),
{
    let (res, c) = shift_raw(op, v, f.c);
    AluOut { result: res, flags: Flags { z: res == 0, n: false, h: false, c } }
}

pub fn rotate_a(op: ShiftOp, v: u8, f: Flags) -> (r: AluOut)
    ensures
        r == rotate_a_spec(op, v, f),
{
    let (res, c) = shift_raw(op, v, f.c);
    AluOut { result: res, flags: Flags { z: false, n: false, h: false, c } }
}

pub fn bit_test(n: u8, v: u8, f: Flags) -> (r: Flags)
    requires
        n < 8,
    ensures
        r == bit_test_spec(n, v, f),
{
    Flags { z: (v >> n) & 1 == 0, n: false, h: true, c: f.c }
}

pub fn add16(x: u16, y: u16, f: Flags) -> (r: (u16, Flags))
    ensures
        r == add16_spec(x, y, f),
{
    let s: u32 = x as u32 + y as u32;
    (
        (s % 65536) as u16,
        Flags { z: f.z, n: false, h: x % 4096 + y % 4096 > 4095, c: s > 65535 },
    )
}

pub fn add_sp(sp: u16, e: u8) -> (r: (u16, Flags))
    ensures
        r == add_sp_spec(sp, e),
{
    let w: u32 = sp as u32 + 65536 + e as u32;
    let s: u32 = if e >= 128 {
        w - 256
    } else {
        w
    };
    (
        (s % 65536) as u16,
        Flags { z: false, n: false, h: sp % 16 + (e as u16) % 16 > 15, c: sp % 256 + e as u16 > 255 },
    )
}

pub fn daa(a: u8, f: Flags) -> (r: AluOut)
    ensures
        r == daa_spec(a, f),
{
    let w: u16 = a as u16;
    if !f.n {
        let hi_fix: bool = f.c || a > 0x99;
        let a1: u16 = if hi_fix {
            (w + 0x60) % 256
        } else {
            w
        };
        let a2: u16 = if f.h || a1 % 16 > 9 {
            (a1 + 0x06) % 256
        } else {
            a1
        };
        AluOut { result: a2 as u8, flags: Flags { z: a2 == 0, n: false, h: false, c: hi_fix } }
    } else {
        let a1: u16 = if f.c {
            (w + 256 - 0x60) % 256
        } else {
            w
        };
        let a2: u16 = if f.h {
            (a1 + 256 - 0x06) % 256
        } else {
            a1
        };
        AluOut { result: a2 as u8, flags: Flags { z: a2 == 0, n: true, h: false, c: f.c } }
    }
}

/// Subtracting the accumulator from itself leaves zero with `Z` and `N`
/// set and `H`, `C` clear, whatever the flags before.
pub proof fn lemma_sub_self(a: u8, f: Flags)
    ensures
        alu_spec(AluOp::Sub, a, a, f) == (AluOut {
            result: 0,
            flags: Flags { z: true, n: true, h: false, c: false },
        }),
{
}

/// XOR of the accumulator with itself leaves zero with only `Z` set,
/// whatever the flags before.
pub proof fn lemma_xor_self(a: u8, f: Flags)
    ensures
        alu_spec(AluOp::Xor, a, a, f) == (AluOut {
            result: 0,
            flags: Flags { z: true, n: false, h: false, c: false },
        }),
{
    assert(a ^ a == 0) by (bit_vector);
}

} // verus!

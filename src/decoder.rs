//! Instruction decoding: each opcode becomes an ordered list of sub-steps.
//! A Standard step takes one machine cycle; Instant and InstantConditional
//! steps take none and run right after the Standard step before them.
use vstd::prelude::*;
use crate::alu::{AluOp, ShiftOp};

verus! {

/// The 8-bit registers an opcode can name (the memory operand `(HL)` is
/// decoded into separate steps).
#[derive(Clone, Copy, Debug, PartialEq, Eq, Structural)]
pub enum R8 {
    B,
    C,
    D,
    E,
    H,
    L,
    A,
}

/// Register pairs for loads and 16-bit arithmetic.
#[derive(Clone, Copy, Debug, PartialEq, Eq, Structural)]
pub enum R16 {
    BC,
    DE,
    HL,
    SP,
}

/// Register pairs for the stack.
#[derive(Clone, Copy, Debug, PartialEq, Eq, Structural)]
pub enum StackPair {
    BC,
    DE,
    HL,
    AF,
}

/// Branch conditions.
#[derive(Clone, Copy, Debug, PartialEq, Eq, Structural)]
pub enum Cond {
    NZ,
    Z,
    NC,
    C,
}

/// The work one sub-step does.
#[derive(Clone, Copy, Debug, PartialEq, Eq, Structural)]
pub enum Op {
    Nop,
    /// `operand8 <- (PC)`, `PC += 1`.
    ReadImm8,
    /// `operand16 <- (PC)`, `PC += 1`.
    ReadImm16Lo,
    /// High byte of `operand16 <- (PC)`, `PC += 1`.
    ReadImm16Hi,
    LdR8R8(R8, R8),
    /// `r <- operand8`.
    LdR8Imm(R8),
    /// `r <- (HL)`.
    LdR8Mem(R8),
    /// `(HL) <- r`.
    StMemR8(R8),
    /// `(HL) <- operand8`.
    StMemImm,
    /// `rr <- operand16`.
    LdR16Imm(R16),
    /// `A <- (rr)`.
    LdAInd(R16),
    /// `(rr) <- A`.
    StIndA(R16),
    /// `A <- (operand16)`.
    LdAAbs,
    /// `(operand16) <- A`.
    StAbsA,
    /// `A <- (FF00 + operand8)`.
    LdhLoadA,
    /// `(FF00 + operand8) <- A`.
    LdhStoreA,
    /// `A <- (FF00 + C)`.
    LdhLoadAC,
    /// `(FF00 + C) <- A`.
    LdhStoreAC,
    /// Word `(operand16) <- SP`.
    StAbsSp,
    IncHlReg,
    DecHlReg,
    Alu(AluOp, R8),
    /// ALU operation on `A` and `operand8`.
    AluImm(AluOp),
    /// `operand8 <- (HL)`.
    ReadHlOperand,
    IncR8(R8),
    DecR8(R8),
    /// `(HL) <- operand8 + 1`, with INC flags.
    IncMemOperand,
    /// `(HL) <- operand8 - 1`, with DEC flags.
    DecMemOperand,
    IncR16(R16),
    DecR16(R16),
    AddHl(R16),
    AddSpImm,
    LdHlSpImm,
    LdSpHl,
    /// `SP -= 1`, then `(SP) <-` high byte of the pair.
    PushHigh(StackPair),
    /// `SP -= 1`, then `(SP) <-` low byte of the pair.
    PushLow(StackPair),
    /// `SP -= 1`, then `(SP) <-` high byte of `PC`.
    PushPcHigh,
    /// `SP -= 1`, then `(SP) <-` low byte of `PC`.
    PushPcLow,
    /// `operand16 <- (SP)`, `SP += 1`.
    PopLow,
    /// High byte of `operand16 <- (SP)`, `SP += 1`.
    PopHigh,
    /// Pair `<- operand16`.
    LdStackPair(StackPair),
    /// `PC <- operand16`.
    JumpAbs,
    JumpHl,
    /// `PC <- PC + operand8` (signed).
    JumpRel,
    /// `PC <- vector`.
    Rst(u8),
    /// Clear IME, `PC <- vector`.
    ServiceInterrupt(u8),
    RotA(ShiftOp),
    Daa,
    Cpl,
    Scf,
    Ccf,
    Di,
    Ei,
    /// Fetch the second byte of a `CB` opcode and queue its steps.
    FetchPrefixed,
    Shift(ShiftOp, R8),
    /// `(HL) <- shift(operand8)`.
    ShiftMem(ShiftOp),
    Bit(u8, R8),
    /// `BIT n` on `operand8`.
    BitMem(u8),
    ResBit(u8, R8),
    SetBit(u8, R8),
    /// `(HL) <- operand8` with bit `n` cleared.
    ResBitMem(u8),
    /// `(HL) <- operand8` with bit `n` set.
    SetBitMem(u8),
}

#[derive(Clone, Copy, Debug, PartialEq, Eq, Structural)]
pub enum Step {
    Standard(Op),
    Instant(Op),
    InstantConditional(Cond),
}

pub open spec fn bit_index_ok(op: Op) -> bool {
    match op {
        Op::Bit(n, _) | Op::BitMem(n) | Op::ResBit(n, _) | Op::SetBit(n, _) | Op::ResBitMem(n) | Op::SetBitMem(
            n,
        ) => n < 8,
        Op::Rst(v) | Op::ServiceInterrupt(v) => v % 8 == 0,
        _ => true,
    }
}

pub open spec fn step_ok(s: Step) -> bool {
    match s {
        Step::Standard(op) | Step::Instant(op) => bit_index_ok(op),
        Step::InstantConditional(_) => true,
    }
}

pub open spec fn is_standard(s: Step) -> bool {
    s is Standard
}

/// A list of steps the tick pump can run: non-empty, led by a Standard
/// step, every operand index in range.
pub open spec fn steps_wf(s: Seq<Step>) -> bool {
    &&& s.len() >= 1
    &&& is_standard(s[0])
    &&& forall|i: int| 0 <= i < s.len() ==> step_ok(#[trigger] s[i])
}

/// Machine cycles a step list takes when every branch is taken: one per
/// Standard step.
pub open spec fn cycles(s: Seq<Step>) -> nat
    decreases s.len(),
{
    if s.len() == 0 {
        0
    } else {
        (if is_standard(s[0]) {
            1nat
        } else {
            0nat
        }) + cycles(s.drop_first())
    }
}

/// Machine cycles a step list takes when its first condition fails: the
/// Standard steps before the first InstantConditional step.
pub open spec fn cycles_not_taken(s: Seq<Step>) -> nat
    decreases s.len(),
{
    if s.len() == 0 {
        0
    } else if s[0] is InstantConditional {
        0
    } else {
        (if is_standard(s[0]) {
            1nat
        } else {
            0nat
        }) + cycles_not_taken(s.drop_first())
    }
}

/// The published machine-cycle counts of the primary opcodes, as (branch
/// taken, branch not taken); both are equal for an opcode without a branch.
pub open spec fn published_cycles(opcode: u8) -> (nat, nat) {
    let x = opcode / 64;
    let y = (opcode / 8) % 8;
    let z = opcode % 8;
    if x == 1 {
        if y == 6 || z == 6 {
            (2, 2)
        } else {
            (1, 1)
        }
    } else if x == 2 {
        if z == 6 {
            (2, 2)
        } else {
            (1, 1)
        }
    } else if x == 0 {
        if z == 0 {
            if y == 0 {
                (1, 1)
            } else if y == 1 {
                (5, 5)
            } else if y == 3 {
                (3, 3)
            } else {
                (3, 2)
            }
        } else if z == 1 {
            if y % 2 == 0 {
                (3, 3)
            } else {
                (2, 2)
            }
        } else if z == 2 || z == 3 {
            (2, 2)
        } else if z == 4 || z == 5 {
            if y == 6 {
                (3, 3)
            } else {
                (1, 1)
            }
        } else if z == 6 {
            if y == 6 {
                (3, 3)
            } else {
                (2, 2)
            }
        } else {
            (1, 1)
        }
    } else {
        if z == 0 {
            if y < 4 {
                (5, 2)
            } else if y == 5 {
                (4, 4)
            } else {
                (3, 3)
            }
        } else if z == 1 {
            if y % 2 == 0 {
                (3, 3)
            } else if y == 5 {
                (1, 1)
            } else if y == 7 {
                (2, 2)
            } else {
                (4, 4)
            }
        } else if z == 2 {
            if y < 4 {
                (4, 3)
            } else if y == 4 || y == 6 {
                (2, 2)
            } else {
                (4, 4)
            }
        } else if z == 3 {
            if y == 0 {
                (4, 4)
            } else {
                (1, 1)
            }
        } else if z == 4 {
            (6, 3)
        } else if z == 5 {
            if y % 2 == 0 {
                (4, 4)
            } else {
                (6, 6)
            }
        } else if z == 6 {
            (2, 2)
        } else {
            (4, 4)
        }
    }
}

/// Published machine cycles of a `CB`-prefixed opcode, prefix included.
pub open spec fn published_prefixed_cycles(opcode: u8) -> nat {
    if opcode % 8 == 6 {
        if opcode / 64 == 1 {
            3
        } else {
            4
        }
    } else {
        2
    }
}

/// The steps of `opcode` take the published number of machine cycles.
pub open spec fn timing_ok(opcode: u8, s: Seq<Step>) -> bool {
    &&& cycles(s) == published_cycles(opcode).0
    &&& cycles_not_taken(s) == published_cycles(opcode).1
}

/// An instruction in flight: its steps and the index of the next one.
#[derive(Debug)]
pub struct Instruction {
    pub steps: Vec<Step>,
    pub next: usize,
}

impl Instruction {
    /// Between ticks the next step exists and is a Standard step.
    pub open spec fn wf(&self) -> bool {
        &&& self.next < self.steps@.len()
        &&& is_standard(self.steps@[self.next as int])
        &&& forall|i: int| 0 <= i < self.steps@.len() ==> step_ok(#[trigger] self.steps@[i])
    }
}

/// The register an operand field `0..8` names; `6` is `(HL)`.
fn reg_of(i: u8) -> (r: Option<R8>)
    requires
        i < 8,
    ensures
        r is None <==> i == 6,
        r == reg_field(i),
{
    if i == 0 {
        Some(R8::B)
    } else if i == 1 {
        Some(R8::C)
    } else if i == 2 {
        Some(R8::D)
    } else if i == 3 {
        Some(R8::E)
    } else if i == 4 {
        Some(R8::H)
    } else if i == 5 {
        Some(R8::L)
    } else if i == 6 {
        None
    } else {
        Some(R8::A)
    }
}

fn r16_of(i: u8) -> (r: R16)
    ensures
        r == r16_field(i),
{
    if i == 0 {
        R16::BC
    } else if i == 1 {
        R16::DE
    } else if i == 2 {
        R16::HL
    } else {
        R16::SP
    }
}

fn stack_pair_of(i: u8) -> (r: StackPair)
    ensures
        r == stack_pair_field(i),
{
    if i == 0 {
        StackPair::BC
    } else if i == 1 {
        StackPair::DE
    } else if i == 2 {
        StackPair::HL
    } else {
        StackPair::AF
    }
}

fn cond_of(i: u8) -> (r: Cond)
    ensures
        r == cond_field(i),
{
    if i == 0 {
        Cond::NZ
    } else if i == 1 {
        Cond::Z
    } else if i == 2 {
        Cond::NC
    } else {
        Cond::C
    }
}

fn alu_of(i: u8) -> (r: AluOp)
    ensures
        r == alu_field(i),
{
    if i == 0 {
        AluOp::Add
    } else if i == 1 {
        AluOp::Adc
    } else if i == 2 {
        AluOp::Sub
    } else if i == 3 {
        AluOp::Sbc
    } else if i == 4 {
        AluOp::And
    } else if i == 5 {
        AluOp::Xor
    } else if i == 6 {
        AluOp::Or
    } else {
        AluOp::Cp
    }
}

fn shift_of(i: u8) -> (r: ShiftOp)
    ensures
        r == shift_field(i),
{
    if i == 0 {
        ShiftOp::Rlc
    } else if i == 1 {
        ShiftOp::Rrc
    } else if i == 2 {
        ShiftOp::Rl
    } else if i == 3 {
        ShiftOp::Rr
    } else if i == 4 {
        ShiftOp::Sla
    } else if i == 5 {
        ShiftOp::Sra
    } else if i == 6 {
        ShiftOp::Swap
    } else {
        ShiftOp::Srl
    }
}

/// Opcodes with no decoding: HALT, STOP and the unused slots.
pub open spec fn is_hole(opcode: u8) -> bool {
    opcode == 0x10 || opcode == 0x76 || opcode == 0xD3 || opcode == 0xDB || opcode == 0xDD
        || opcode == 0xE3 || opcode == 0xE4 || opcode == 0xEB || opcode == 0xEC || opcode == 0xED
        || opcode == 0xF4 || opcode == 0xFC || opcode == 0xFD
}

fn s(op: Op) -> (r: Step)
    ensures
        r == Step::Standard(op),
{
    Step::Standard(op)
}

pub open spec fn std_step(op: Op) -> Step {
    Step::Standard(op)
}

pub open spec fn reg_field(i: u8) -> Option<R8> {
    if i == 0 {
        Some(R8::B)
    } else if i == 1 {
        Some(R8::C)
    } else if i == 2 {
        Some(R8::D)
    } else if i == 3 {
        Some(R8::E)
    } else if i == 4 {
        Some(R8::H)
    } else if i == 5 {
        Some(R8::L)
    } else if i == 6 {
        None
    } else {
        Some(R8::A)
    }
}

pub open spec fn r16_field(i: u8) -> R16 {
    if i == 0 {
        R16::BC
    } else if i == 1 {
        R16::DE
    } else if i == 2 {
        R16::HL
    } else {
        R16::SP
    }
}

pub open spec fn stack_pair_field(i: u8) -> StackPair {
    if i == 0 {
        StackPair::BC
    } else if i == 1 {
        StackPair::DE
    } else if i == 2 {
        StackPair::HL
    } else {
        StackPair::AF
    }
}

pub open spec fn cond_field(i: u8) -> Cond {
    if i == 0 {
        Cond::NZ
    } else if i == 1 {
        Cond::Z
    } else if i == 2 {
        Cond::NC
    } else {
        Cond::C
    }
}

pub open spec fn alu_field(i: u8) -> AluOp {
    if i == 0 {
        AluOp::Add
    } else if i == 1 {
        AluOp::Adc
    } else if i == 2 {
        AluOp::Sub
    } else if i == 3 {
        AluOp::Sbc
    } else if i == 4 {
        AluOp::And
    } else if i == 5 {
        AluOp::Xor
    } else if i == 6 {
        AluOp::Or
    } else {
        AluOp::Cp
    }
}

pub open spec fn shift_field(i: u8) -> ShiftOp {
    if i == 0 {
        ShiftOp::Rlc
    } else if i == 1 {
        ShiftOp::Rrc
    } else if i == 2 {
        ShiftOp::Rl
    } else if i == 3 {
        ShiftOp::Rr
    } else if i == 4 {
        ShiftOp::Sla
    } else if i == 5 {
        ShiftOp::Sra
    } else if i == 6 {
        ShiftOp::Swap
    } else {
        ShiftOp::Srl
    }
}

/// The steps of opcodes `00–3F`.
pub open spec fn block0_spec(opcode: u8) -> Option<Seq<Step>> {
    let y: u8 = opcode / 8;
    let z: u8 = opcode % 8;
    let p: u8 = y / 2;
    let q: bool = y % 2 == 1;
    let v: Seq<Step> = if opcode == 0x00 {
        seq![std_step(Op::Nop)]
    } else if opcode == 0x08 {
        seq![std_step(Op::ReadImm16Lo), std_step(Op::ReadImm16Hi), std_step(Op::Nop), std_step(Op::Nop), std_step(Op::StAbsSp)]
    } else if opcode == 0x10 {
        Seq::empty()
    } else if opcode == 0x18 {
        seq![std_step(Op::ReadImm8), std_step(Op::Nop), std_step(Op::JumpRel)]
    } else if z == 0 {
        seq![
            std_step(Op::ReadImm8),
            std_step(Op::Nop),
            Step::InstantConditional(cond_field((y - 4) as u8)),
            std_step(Op::JumpRel),
        ]
    } else if z == 1 && !q {
        seq![std_step(Op::ReadImm16Lo), std_step(Op::ReadImm16Hi), std_step(Op::LdR16Imm(r16_field(p)))]
    } else if z == 1 {
        seq![std_step(Op::Nop), std_step(Op::AddHl(r16_field(p)))]
    } else if z == 2 {
        if p == 0 || p == 1 {
            let rr = r16_field(p);
            if q {
                seq![std_step(Op::Nop), std_step(Op::LdAInd(rr))]
            } else {
                seq![std_step(Op::Nop), std_step(Op::StIndA(rr))]
            }
        } else {
            let adjust = if p == 2 {
                Op::IncHlReg
            } else {
                Op::DecHlReg
            };
            if q {
                seq![std_step(Op::Nop), std_step(Op::LdR8Mem(R8::A)), Step::Instant(adjust)]
            } else {
                seq![std_step(Op::Nop), std_step(Op::StMemR8(R8::A)), Step::Instant(adjust)]
            }
        }
    } else if z == 3 {
        if q {
            seq![std_step(Op::Nop), std_step(Op::DecR16(r16_field(p)))]
        } else {
            seq![std_step(Op::Nop), std_step(Op::IncR16(r16_field(p)))]
        }
    } else if z == 4 {
        match reg_field(y) {
            Some(r) => seq![std_step(Op::IncR8(r))],
            None => seq![std_step(Op::Nop), std_step(Op::ReadHlOperand), std_step(Op::IncMemOperand)],
        }
    } else if z == 5 {
        match reg_field(y) {
            Some(r) => seq![std_step(Op::DecR8(r))],
            None => seq![std_step(Op::Nop), std_step(Op::ReadHlOperand), std_step(Op::DecMemOperand)],
        }
    } else if z == 6 {
        match reg_field(y) {
            Some(r) => seq![std_step(Op::ReadImm8), std_step(Op::LdR8Imm(r))],
            None => seq![std_step(Op::ReadImm8), std_step(Op::Nop), std_step(Op::StMemImm)],
        }
    } else {
        let op = if y < 4 {
            Op::RotA(shift_field(y))
        } else if y == 4 {
            Op::Daa
        } else if y == 5 {
            Op::Cpl
        } else if y == 6 {
            Op::Scf
        } else {
            Op::Ccf
        };
        seq![std_step(op)]
    };
    if is_hole(opcode) {
        None
    } else {
        Some(v)
    }
}

/// The steps of opcodes `40–BF`.
pub open spec fn block12_spec(opcode: u8) -> Option<Seq<Step>> {
    if opcode == 0x76 {
        None
    } else {
    let y: u8 = (opcode / 8) % 8;
    let z: u8 = opcode % 8;
    let v: Seq<Step> = if opcode < 0x80 {
        match (reg_field(y), reg_field(z)) {
            (Some(d), Some(src)) => seq![std_step(Op::LdR8R8(d, src))],
            (Some(d), None) => seq![std_step(Op::Nop), std_step(Op::LdR8Mem(d))],
            (None, Some(src)) => seq![std_step(Op::Nop), std_step(Op::StMemR8(src))],
            (None, None) => seq![std_step(Op::Nop)],
        }
    } else {
        let op = alu_field(y);
        match reg_field(z) {
            Some(src) => seq![std_step(Op::Alu(op, src))],
            None => seq![std_step(Op::ReadHlOperand), std_step(Op::AluImm(op))],
        }
    };
    Some(v)
    }
}

/// The steps of the opcodes of `C0–FF` with a decoding of their own.
pub open spec fn block3_special_spec(opcode: u8) -> Seq<Step> {
    let v: Seq<Step> = if opcode == 0xC9 {
        seq![std_step(Op::PopLow), std_step(Op::PopHigh), std_step(Op::Nop), std_step(Op::JumpAbs)]
    } else if opcode == 0xD9 {
        seq![std_step(Op::PopLow), std_step(Op::PopHigh), std_step(Op::Nop), std_step(Op::JumpAbs), Step::Instant(Op::Ei)]
    } else if opcode == 0xC3 {
        seq![std_step(Op::ReadImm16Lo), std_step(Op::ReadImm16Hi), std_step(Op::Nop), std_step(Op::JumpAbs)]
    } else if opcode == 0xCD {
        seq![
            std_step(Op::ReadImm16Lo),
            std_step(Op::ReadImm16Hi),
            std_step(Op::Nop),
            std_step(Op::Nop),
            std_step(Op::PushPcHigh),
            std_step(Op::PushPcLow),
            Step::Instant(Op::JumpAbs),
        ]
    } else if opcode == 0xCB {
        seq![std_step(Op::FetchPrefixed)]
    } else if opcode == 0xE9 {
        seq![std_step(Op::JumpHl)]
    } else if opcode == 0xF9 {
        seq![std_step(Op::Nop), std_step(Op::LdSpHl)]
    } else if opcode == 0xE8 {
        seq![std_step(Op::ReadImm8), std_step(Op::Nop), std_step(Op::Nop), std_step(Op::AddSpImm)]
    } else if opcode == 0xF8 {
        seq![std_step(Op::ReadImm8), std_step(Op::Nop), std_step(Op::LdHlSpImm)]
    } else if opcode == 0xE0 {
        seq![std_step(Op::ReadImm8), std_step(Op::Nop), std_step(Op::LdhStoreA)]
    } else if opcode == 0xF0 {
        seq![std_step(Op::ReadImm8), std_step(Op::Nop), std_step(Op::LdhLoadA)]
    } else if opcode == 0xE2 {
        seq![std_step(Op::Nop), std_step(Op::LdhStoreAC)]
    } else if opcode == 0xF2 {
        seq![std_step(Op::Nop), std_step(Op::LdhLoadAC)]
    } else if opcode == 0xEA {
        seq![std_step(Op::ReadImm16Lo), std_step(Op::ReadImm16Hi), std_step(Op::Nop), std_step(Op::StAbsA)]
    } else if opcode == 0xFA {
        seq![std_step(Op::ReadImm16Lo), std_step(Op::ReadImm16Hi), std_step(Op::Nop), std_step(Op::LdAAbs)]
    } else if opcode == 0xF3 {
        seq![std_step(Op::Di)]
    } else if opcode == 0xFB {
        seq![std_step(Op::Ei)]
    } else {
        seq![std_step(Op::Ei)]
    };
    v
}

/// The steps of the other decodable opcodes of `C0–FF`.
pub open spec fn block3_regular_spec(opcode: u8) -> Seq<Step> {
    let y: u8 = (opcode / 8) % 8;
    let z: u8 = opcode % 8;
    let p: u8 = y / 2;
    let v: Seq<Step> = if z == 0 {
        seq![
            std_step(Op::Nop),
            std_step(Op::Nop),
            Step::InstantConditional(cond_field(y)),
            std_step(Op::PopLow),
            std_step(Op::PopHigh),
            std_step(Op::JumpAbs),
        ]
    } else if z == 1 {
        seq![std_step(Op::Nop), std_step(Op::PopLow), std_step(Op::PopHigh), Step::Instant(Op::LdStackPair(stack_pair_field(p)))]
    } else if z == 2 {
        seq![
            std_step(Op::ReadImm16Lo),
            std_step(Op::ReadImm16Hi),
            std_step(Op::Nop),
            Step::InstantConditional(cond_field(y)),
            std_step(Op::JumpAbs),
        ]
    } else if z == 4 {
        seq![
            std_step(Op::ReadImm16Lo),
            std_step(Op::ReadImm16Hi),
            std_step(Op::Nop),
            Step::InstantConditional(cond_field(y)),
            std_step(Op::Nop),
            std_step(Op::PushPcHigh),
            std_step(Op::PushPcLow),
            Step::Instant(Op::JumpAbs),
        ]
    } else if z == 5 {
        seq![std_step(Op::Nop), std_step(Op::Nop), std_step(Op::PushHigh(stack_pair_field(p))), std_step(Op::PushLow(stack_pair_field(p)))]
    } else if z == 6 {
        seq![std_step(Op::ReadImm8), std_step(Op::AluImm(alu_field(y)))]
    } else {
        seq![
            std_step(Op::Nop),
            std_step(Op::Nop),
            std_step(Op::PushPcHigh),
            std_step(Op::PushPcLow),
            Step::Instant(Op::Rst((y * 8) as u8)),
        ]
    };
    v
}

/// The steps that follow the fetch of the second byte of a `CB` opcode.
pub open spec fn decode_prefixed_spec(opcode: u8) -> Seq<Step> {
    let x: u8 = opcode / 64;
    let y: u8 = (opcode / 8) % 8;
    let z: u8 = opcode % 8;
    match reg_field(z) {
        Some(r) => {
            let op = if x == 0 {
                Op::Shift(shift_field(y), r)
            } else if x == 1 {
                Op::Bit(y, r)
            } else if x == 2 {
                Op::ResBit(y, r)
            } else {
                Op::SetBit(y, r)
            };
            seq![std_step(op)]
        },
        None => {
            if x == 0 {
                seq![std_step(Op::ReadHlOperand), std_step(Op::Nop), std_step(Op::ShiftMem(shift_field(y)))]
            } else if x == 1 {
                seq![std_step(Op::ReadHlOperand), std_step(Op::BitMem(y))]
            } else if x == 2 {
                seq![std_step(Op::ReadHlOperand), std_step(Op::Nop), std_step(Op::ResBitMem(y))]
            } else {
                seq![std_step(Op::ReadHlOperand), std_step(Op::Nop), std_step(Op::SetBitMem(y))]
            }
        },
    }
}

/// The steps of a primary opcode, `None` for a decoder hole.
pub open spec fn decode_spec(opcode: u8) -> Option<Seq<Step>> {
    if opcode < 0x40 {
        block0_spec(opcode)
    } else if opcode < 0xC0 {
        block12_spec(opcode)
    } else if is_hole(opcode) {
        None
    } else if is_special(opcode) {
        Some(block3_special_spec(opcode))
    } else {
        Some(block3_regular_spec(opcode))
    }
}

/// Opcodes `00–3F`.
#[verifier::rlimit(60)]
fn decode_block0(opcode: u8) -> (r: Option<Vec<Step>>)
    requires
        opcode < 0x40,
    ensures
        r matches Some(v) ==> block0_spec(opcode) == Some(v@),
        r is None <==> is_hole(opcode),
        r matches Some(v) ==> steps_wf(v@) && timing_ok(opcode, v@),
{
    let y: u8 = opcode / 8;
    let z: u8 = opcode % 8;
    let p: u8 = y / 2;
    let q: bool = y % 2 == 1;
    let v: Vec<Step> = if opcode == 0x00 {
        vec![s(Op::Nop)]
    } else if opcode == 0x08 {
        vec![s(Op::ReadImm16Lo), s(Op::ReadImm16Hi), s(Op::Nop), s(Op::Nop), s(Op::StAbsSp)]
    } else if opcode == 0x10 {
        return None;
    } else if opcode == 0x18 {
        vec![s(Op::ReadImm8), s(Op::Nop), s(Op::JumpRel)]
    } else if z == 0 {
        vec![
            s(Op::ReadImm8),
            s(Op::Nop),
            Step::InstantConditional(cond_of(y - 4)),
            s(Op::JumpRel),
        ]
    } else if z == 1 && !q {
        vec![s(Op::ReadImm16Lo), s(Op::ReadImm16Hi), s(Op::LdR16Imm(r16_of(p)))]
    } else if z == 1 {
        vec![s(Op::Nop), s(Op::AddHl(r16_of(p)))]
    } else if z == 2 {
        if p == 0 || p == 1 {
            let rr = r16_of(p);
            if q {
                vec![s(Op::Nop), s(Op::LdAInd(rr))]
            } else {
                vec![s(Op::Nop), s(Op::StIndA(rr))]
            }
        } else {
            let adjust = if p == 2 {
                Op::IncHlReg
            } else {
                Op::DecHlReg
            };
            if q {
                vec![s(Op::Nop), s(Op::LdR8Mem(R8::A)), Step::Instant(adjust)]
            } else {
                vec![s(Op::Nop), s(Op::StMemR8(R8::A)), Step::Instant(adjust)]
            }
        }
    } else if z == 3 {
        if q {
            vec![s(Op::Nop), s(Op::DecR16(r16_of(p)))]
        } else {
            vec![s(Op::Nop), s(Op::IncR16(r16_of(p)))]
        }
    } else if z == 4 {
        match reg_of(y) {
            Some(r) => vec![s(Op::IncR8(r))],
            None => vec![s(Op::Nop), s(Op::ReadHlOperand), s(Op::IncMemOperand)],
        }
    } else if z == 5 {
        match reg_of(y) {
            Some(r) => vec![s(Op::DecR8(r))],
            None => vec![s(Op::Nop), s(Op::ReadHlOperand), s(Op::DecMemOperand)],
        }
    } else if z == 6 {
        match reg_of(y) {
            Some(r) => vec![s(Op::ReadImm8), s(Op::LdR8Imm(r))],
            None => vec![s(Op::ReadImm8), s(Op::Nop), s(Op::StMemImm)],
        }
    } else {
        let op = if y < 4 {
            Op::RotA(shift_of(y))
        } else if y == 4 {
            Op::Daa
        } else if y == 5 {
            Op::Cpl
        } else if y == 6 {
            Op::Scf
        } else {
            Op::Ccf
        };
        vec![s(op)]
    };
    proof {
        reveal_with_fuel(cycles, 10);
        reveal_with_fuel(cycles_not_taken, 10);
    }
    Some(v)
}

/// Opcodes `40–BF`: register loads and accumulator arithmetic.
#[verifier::rlimit(60)]
fn decode_block12(opcode: u8) -> (r: Option<Vec<Step>>)
    requires
        0x40 <= opcode < 0xC0,
    ensures
        r matches Some(v) ==> block12_spec(opcode) == Some(v@),
        r is None <==> is_hole(opcode),
        r matches Some(v) ==> steps_wf(v@) && timing_ok(opcode, v@),
{
    if opcode == 0x76 {
        return None;
    }
    let y: u8 = (opcode / 8) % 8;
    let z: u8 = opcode % 8;
    let v: Vec<Step> = if opcode < 0x80 {
        match (reg_of(y), reg_of(z)) {
            (Some(d), Some(src)) => vec![s(Op::LdR8R8(d, src))],
            (Some(d), None) => vec![s(Op::Nop), s(Op::LdR8Mem(d))],
            (None, Some(src)) => vec![s(Op::Nop), s(Op::StMemR8(src))],
            (None, None) => vec![s(Op::Nop)],
        }
    } else {
        let op = alu_of(y);
        match reg_of(z) {
            Some(src) => vec![s(Op::Alu(op, src))],
            None => vec![s(Op::ReadHlOperand), s(Op::AluImm(op))],
        }
    };
    proof {
        reveal_with_fuel(cycles, 10);
        reveal_with_fuel(cycles_not_taken, 10);
    }
    Some(v)
}

/// The opcodes of `C0–FF` that have a decoding of their own.
pub open spec fn is_special(opcode: u8) -> bool {
    opcode == 0xC9 || opcode == 0xD9 || opcode == 0xC3 || opcode == 0xCD || opcode == 0xCB
        || opcode == 0xE9 || opcode == 0xF9 || opcode == 0xE8 || opcode == 0xF8 || opcode == 0xE0
        || opcode == 0xF0 || opcode == 0xE2 || opcode == 0xF2 || opcode == 0xEA || opcode == 0xFA
        || opcode == 0xF3 || opcode == 0xFB
}

fn is_special_exec(opcode: u8) -> (r: bool)
    ensures
        r == is_special(opcode),
{
    opcode == 0xC9 || opcode == 0xD9 || opcode == 0xC3 || opcode == 0xCD || opcode == 0xCB
        || opcode == 0xE9 || opcode == 0xF9 || opcode == 0xE8 || opcode == 0xF8 || opcode == 0xE0
        || opcode == 0xF0 || opcode == 0xE2 || opcode == 0xF2 || opcode == 0xEA || opcode == 0xFA
        || opcode == 0xF3 || opcode == 0xFB
}

/// Jumps, returns, high-page and absolute loads, SP arithmetic, DI/EI and
/// the `CB` prefix.
#[verifier::rlimit(60)]
fn decode_block3_special(opcode: u8) -> (r: Vec<Step>)
    requires
        is_special(opcode),
    ensures
        steps_wf(r@) && timing_ok(opcode, r@),
        r@ == block3_special_spec(opcode),
{
    let v: Vec<Step> = if opcode == 0xC9 {
        vec![s(Op::PopLow), s(Op::PopHigh), s(Op::Nop), s(Op::JumpAbs)]
    } else if opcode == 0xD9 {
        vec![s(Op::PopLow), s(Op::PopHigh), s(Op::Nop), s(Op::JumpAbs), Step::Instant(Op::Ei)]
    } else if opcode == 0xC3 {
        vec![s(Op::ReadImm16Lo), s(Op::ReadImm16Hi), s(Op::Nop), s(Op::JumpAbs)]
    } else if opcode == 0xCD {
        vec![
            s(Op::ReadImm16Lo),
            s(Op::ReadImm16Hi),
            s(Op::Nop),
            s(Op::Nop),
            s(Op::PushPcHigh),
            s(Op::PushPcLow),
            Step::Instant(Op::JumpAbs),
        ]
    } else if opcode == 0xCB {
        vec![s(Op::FetchPrefixed)]
    } else if opcode == 0xE9 {
        vec![s(Op::JumpHl)]
    } else if opcode == 0xF9 {
        vec![s(Op::Nop), s(Op::LdSpHl)]
    } else if opcode == 0xE8 {
        vec![s(Op::ReadImm8), s(Op::Nop), s(Op::Nop), s(Op::AddSpImm)]
    } else if opcode == 0xF8 {
        vec![s(Op::ReadImm8), s(Op::Nop), s(Op::LdHlSpImm)]
    } else if opcode == 0xE0 {
        vec![s(Op::ReadImm8), s(Op::Nop), s(Op::LdhStoreA)]
    } else if opcode == 0xF0 {
        vec![s(Op::ReadImm8), s(Op::Nop), s(Op::LdhLoadA)]
    } else if opcode == 0xE2 {
        vec![s(Op::Nop), s(Op::LdhStoreAC)]
    } else if opcode == 0xF2 {
        vec![s(Op::Nop), s(Op::LdhLoadAC)]
    } else if opcode == 0xEA {
        vec![s(Op::ReadImm16Lo), s(Op::ReadImm16Hi), s(Op::Nop), s(Op::StAbsA)]
    } else if opcode == 0xFA {
        vec![s(Op::ReadImm16Lo), s(Op::ReadImm16Hi), s(Op::Nop), s(Op::LdAAbs)]
    } else if opcode == 0xF3 {
        vec![s(Op::Di)]
    } else if opcode == 0xFB {
        vec![s(Op::Ei)]
    } else {
        vec![s(Op::Ei)]
    };
    proof {
        reveal_with_fuel(cycles, 10);
        reveal_with_fuel(cycles_not_taken, 10);
    }
    v
}

/// Conditional returns, jumps and calls, POP, PUSH, immediate arithmetic
/// and RST.
#[verifier::rlimit(60)]
fn decode_block3_regular(opcode: u8) -> (r: Vec<Step>)
    requires
        0xC0 <= opcode,
        !is_special(opcode),
        !is_hole(opcode),
    ensures
        steps_wf(r@) && timing_ok(opcode, r@),
        r@ == block3_regular_spec(opcode),
{
    let y: u8 = (opcode / 8) % 8;
    let z: u8 = opcode % 8;
    let p: u8 = y / 2;
    let v: Vec<Step> = if z == 0 {
        vec![
            s(Op::Nop),
            s(Op::Nop),
            Step::InstantConditional(cond_of(y)),
            s(Op::PopLow),
            s(Op::PopHigh),
            s(Op::JumpAbs),
        ]
    } else if z == 1 {
        vec![s(Op::Nop), s(Op::PopLow), s(Op::PopHigh), Step::Instant(Op::LdStackPair(stack_pair_of(p)))]
    } else if z == 2 {
        vec![
            s(Op::ReadImm16Lo),
            s(Op::ReadImm16Hi),
            s(Op::Nop),
            Step::InstantConditional(cond_of(y)),
            s(Op::JumpAbs),
        ]
    } else if z == 4 {
        vec![
            s(Op::ReadImm16Lo),
            s(Op::ReadImm16Hi),
            s(Op::Nop),
            Step::InstantConditional(cond_of(y)),
            s(Op::Nop),
            s(Op::PushPcHigh),
            s(Op::PushPcLow),
            Step::Instant(Op::JumpAbs),
        ]
    } else if z == 5 {
        vec![s(Op::Nop), s(Op::Nop), s(Op::PushHigh(stack_pair_of(p))), s(Op::PushLow(stack_pair_of(p)))]
    } else if z == 6 {
        vec![s(Op::ReadImm8), s(Op::AluImm(alu_of(y)))]
    } else {
        vec![
            s(Op::Nop),
            s(Op::Nop),
            s(Op::PushPcHigh),
            s(Op::PushPcLow),
            Step::Instant(Op::Rst(y * 8)),
        ]
    };
    proof {
        reveal_with_fuel(cycles, 10);
        reveal_with_fuel(cycles_not_taken, 10);
    }
    v
}

/// Opcodes `C0–FF`: control flow, stack, high-page loads and immediates.
fn decode_block3(opcode: u8) -> (r: Option<Vec<Step>>)
    requires
        0xC0 <= opcode,
    ensures
        r is None <==> is_hole(opcode),
        r matches Some(v) ==> steps_wf(v@) && timing_ok(opcode, v@),
        r matches Some(v) ==> decode_spec(opcode) == Some(v@),
{
    if is_hole_exec(opcode) {
        None
    } else if is_special_exec(opcode) {
        Some(decode_block3_special(opcode))
    } else {
        Some(decode_block3_regular(opcode))
    }
}

fn is_hole_exec(opcode: u8) -> (r: bool)
    ensures
        r == is_hole(opcode),
{
    opcode == 0x10 || opcode == 0x76 || opcode == 0xD3 || opcode == 0xDB || opcode == 0xDD
        || opcode == 0xE3 || opcode == 0xE4 || opcode == 0xEB || opcode == 0xEC || opcode == 0xED
        || opcode == 0xF4 || opcode == 0xFC || opcode == 0xFD
}

/// The steps of a primary opcode, or `None` for a decoder hole.
pub fn decode(opcode: u8) -> (r: Option<Vec<Step>>)
    ensures
        r is None <==> is_hole(opcode),
        r matches Some(v) ==> decode_spec(opcode) == Some(v@),
        r matches Some(v) ==> steps_wf(v@) && timing_ok(opcode, v@),
{
    if opcode < 0x40 {
        decode_block0(opcode)
    } else if opcode < 0xC0 {
        decode_block12(opcode)
    } else {
        decode_block3(opcode)
    }
}

/// The steps that follow the fetch of the second byte of a `CB` opcode;
/// the prefixed page has no holes.
pub fn decode_prefixed(opcode: u8) -> (r: Vec<Step>)
    ensures
        r@ == decode_prefixed_spec(opcode),
        steps_wf(r@),
        1 + cycles(r@) == published_prefixed_cycles(opcode),
        cycles_not_taken(r@) == cycles(r@),
{
    proof {
        reveal_with_fuel(cycles, 4);
        reveal_with_fuel(cycles_not_taken, 4);
    }
    let x: u8 = opcode / 64;
    let y: u8 = (opcode / 8) % 8;
    let z: u8 = opcode % 8;
    match reg_of(z) {
        Some(r) => {
            let op = if x == 0 {
                Op::Shift(shift_of(y), r)
            } else if x == 1 {
                Op::Bit(y, r)
            } else if x == 2 {
                Op::ResBit(y, r)
            } else {
                Op::SetBit(y, r)
            };
            vec![s(op)]
        },
        None => {
            if x == 0 {
                vec![s(Op::ReadHlOperand), s(Op::Nop), s(Op::ShiftMem(shift_of(y)))]
            } else if x == 1 {
                vec![s(Op::ReadHlOperand), s(Op::BitMem(y))]
            } else if x == 2 {
                vec![s(Op::ReadHlOperand), s(Op::Nop), s(Op::ResBitMem(y))]
            } else {
                vec![s(Op::ReadHlOperand), s(Op::Nop), s(Op::SetBitMem(y))]
            }
        },
    }
}

/// The sequence the interrupt controller installs in an idle CPU: five
/// machine cycles, the last two of which push `PC` a byte at a time; then
/// IME is cleared and `PC` jumps to `vector`.
pub fn service_routine(vector: u8) -> (r: Instruction)
    requires
        vector % 8 == 0,
    ensures
        r.wf(),
        r.next == 0,
        r.steps@ == seq![
            Step::Standard(Op::Nop),
            Step::Standard(Op::Nop),
            Step::Standard(Op::Nop),
            Step::Standard(Op::PushPcHigh),
            Step::Standard(Op::PushPcLow),
            Step::Instant(Op::ServiceInterrupt(vector)),
        ],
{
    let steps = vec![
        s(Op::Nop),
        s(Op::Nop),
        s(Op::Nop),
        s(Op::PushPcHigh),
        s(Op::PushPcLow),
        Step::Instant(Op::ServiceInterrupt(vector)),
    ];
    assert(steps@ =~= seq![
        Step::Standard(Op::Nop),
        Step::Standard(Op::Nop),
        Step::Standard(Op::Nop),
        Step::Standard(Op::PushPcHigh),
        Step::Standard(Op::PushPcLow),
        Step::Instant(Op::ServiceInterrupt(vector)),
    ]);
    Instruction { steps, next: 0 }
}

} // verus!

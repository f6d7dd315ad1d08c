//! The CPU: register file, flags, execution scratchpad and the T-state tick
//! pump that runs the decoded steps of one instruction after another.
use vstd::prelude::*;
use crate::alu::{
    add16, add16_spec, add_sp, add_sp_spec, alu, alu_spec, bit_test, bit_test_spec, daa, daa_spec,
    dec8, dec_spec, flags_byte, flags_from_byte, flags_of_byte, flags_to_byte, inc8, inc_spec,
    rotate_a, rotate_a_spec, shift, shift_spec, AluOp, Flags,
};
use crate::decoder::{
    bit_index_ok, decode, decode_prefixed, decode_prefixed_spec, decode_spec, is_hole, is_standard, step_ok, Cond, Instruction, Op, R16,
    R8, StackPair, Step,
};
use crate::mmu::{
    lemma_bytes_read_back_as_word, next_addr, read_spec, read_word_spec, state_wf, word_of, writable_ram,
    write_spec, write_word_spec, Mmu, MmuState,
};

verus! {

/// The architectural state of the CPU.
pub ghost struct CpuState {
    pub a: u8,
    pub b: u8,
    pub c: u8,
    pub d: u8,
    pub e: u8,
    pub h: u8,
    pub l: u8,
    pub flags: Flags,
    pub pc: u16,
    pub sp: u16,
    pub operand8: u8,
    pub operand16: u16,
    pub ime: bool,
}

/// A fault the core hands to the emulator host.
#[derive(Clone, Copy, Debug, PartialEq, Eq, Structural)]
pub enum CpuFault {
    /// `opcode`, fetched at `pc`, has no decoding.
    DecoderHole { opcode: u8, pc: u16 },
}

/// One flag of `F`.
#[derive(Clone, Copy, Debug, PartialEq, Eq, Structural)]
pub enum Flag {
    Z,
    N,
    H,
    C,
}

pub open spec fn flag_value(f: Flags, flag: Flag) -> bool {
    match flag {
        Flag::Z => f.z,
        Flag::N => f.n,
        Flag::H => f.h,
        Flag::C => f.c,
    }
}

pub open spec fn with_flag(f: Flags, flag: Flag, v: bool) -> Flags {
    match flag {
        Flag::Z => Flags { z: v, ..f },
        Flag::N => Flags { n: v, ..f },
        Flag::H => Flags { h: v, ..f },
        Flag::C => Flags { c: v, ..f },
    }
}

/// The post-boot register values.
pub open spec fn boot_state() -> CpuState {
    CpuState {
        a: 0x01,
        b: 0x00,
        c: 0x13,
        d: 0x00,
        e: 0xD8,
        h: 0x01,
        l: 0x4D,
        flags: flags_of_byte(0xB0),
        pc: 0x0100,
        sp: 0xFFFE,
        operand8: 0,
        operand16: 0,
        ime: false,
    }
}

pub open spec fn reg8(s: CpuState, r: R8) -> u8 {
    match r {
        R8::B => s.b,
        R8::C => s.c,
        R8::D => s.d,
        R8::E => s.e,
        R8::H => s.h,
        R8::L => s.l,
        R8::A => s.a,
    }
}

pub open spec fn with_reg8(s: CpuState, r: R8, v: u8) -> CpuState {
    match r {
        R8::B => CpuState { b: v, ..s },
        R8::C => CpuState { c: v, ..s },
        R8::D => CpuState { d: v, ..s },
        R8::E => CpuState { e: v, ..s },
        R8::H => CpuState { h: v, ..s },
        R8::L => CpuState { l: v, ..s },
        R8::A => CpuState { a: v, ..s },
    }
}

pub open spec fn hl_of(s: CpuState) -> u16 {
    word_of(s.l, s.h)
}

pub open spec fn reg16(s: CpuState, rr: R16) -> u16 {
    match rr {
        R16::BC => word_of(s.c, s.b),
        R16::DE => word_of(s.e, s.d),
        R16::HL => word_of(s.l, s.h),
        R16::SP => s.sp,
    }
}

pub open spec fn with_reg16(s: CpuState, rr: R16, v: u16) -> CpuState {
    let hi = (v / 256) as u8;
    let lo = (v % 256) as u8;
    match rr {
        R16::BC => CpuState { b: hi, c: lo, ..s },
        R16::DE => CpuState { d: hi, e: lo, ..s },
        R16::HL => CpuState { h: hi, l: lo, ..s },
        R16::SP => CpuState { sp: v, ..s },
    }
}

pub open spec fn stack_pair_value(s: CpuState, pp: StackPair) -> u16 {
    match pp {
        StackPair::BC => word_of(s.c, s.b),
        StackPair::DE => word_of(s.e, s.d),
        StackPair::HL => word_of(s.l, s.h),
        StackPair::AF => word_of(flags_byte(s.flags), s.a),
    }
}

pub open spec fn with_stack_pair(s: CpuState, pp: StackPair, v: u16) -> CpuState {
    let hi = (v / 256) as u8;
    let lo = (v % 256) as u8;
    match pp {
        StackPair::BC => CpuState { b: hi, c: lo, ..s },
        StackPair::DE => CpuState { d: hi, e: lo, ..s },
        StackPair::HL => CpuState { h: hi, l: lo, ..s },
        StackPair::AF => CpuState { a: hi, flags: flags_of_byte(lo), ..s },
    }
}

pub open spec fn cond_holds(f: Flags, c: Cond) -> bool {
    match c {
        Cond::NZ => !f.z,
        Cond::Z => f.z,
        Cond::NC => !f.c,
        Cond::C => f.c,
    }
}

pub open spec fn wrap16(x: int) -> u16 {
    ((x + 0x20000) % 65536) as u16
}

/// Pushing `v`: the new stack pointer and memory.
pub open spec fn push_spec(sp: u16, m: MmuState, v: u16) -> (u16, MmuState) {
    let nsp = wrap16(sp - 2);
    (nsp, write_word_spec(m, nsp, v))
}

pub open spec fn sign_extend(e: u8) -> int {
    if e >= 128 {
        e - 256
    } else {
        e as int
    }
}

/// The ops whose effect includes a new stack pointer.
pub open spec fn writes_sp(op: Op) -> bool {
    match op {
        Op::LdR16Imm(R16::SP) | Op::IncR16(R16::SP) | Op::DecR16(R16::SP) | Op::AddSpImm
        | Op::LdSpHl | Op::PushHigh(_) | Op::PushLow(_) | Op::PushPcHigh | Op::PushPcLow
        | Op::PopLow | Op::PopHigh => true,
        _ => false,
    }
}

/// Which executor group an op belongs to.
pub open spec fn op_group(op: Op) -> int {
    match op {
        Op::Nop | Op::ReadImm8 | Op::ReadImm16Lo | Op::ReadImm16Hi | Op::LdR8R8(..)
        | Op::LdR8Imm(..) | Op::LdR8Mem(..) | Op::StMemR8(..) | Op::StMemImm | Op::LdR16Imm(..)
        | Op::LdAInd(..) | Op::StIndA(..) | Op::LdAAbs | Op::StAbsA | Op::LdhLoadA
        | Op::LdhStoreA | Op::LdhLoadAC | Op::LdhStoreAC | Op::StAbsSp | Op::IncHlReg
        | Op::DecHlReg | Op::ReadHlOperand | Op::LdSpHl | Op::FetchPrefixed => 0,
        Op::Alu(..) | Op::AluImm(..) | Op::IncR8(..) | Op::DecR8(..) | Op::IncMemOperand
        | Op::DecMemOperand | Op::RotA(..) | Op::Daa | Op::Cpl | Op::Scf | Op::Ccf => 1,
        Op::PushHigh(..) | Op::PushLow(..) | Op::PushPcHigh | Op::PushPcLow | Op::PopLow
        | Op::PopHigh | Op::LdStackPair(..) | Op::JumpAbs | Op::JumpHl | Op::JumpRel | Op::Rst(..)
        | Op::ServiceInterrupt(..) | Op::Di | Op::Ei => 2,
        Op::IncR16(..) | Op::DecR16(..) | Op::AddHl(..) | Op::AddSpImm | Op::LdHlSpImm => 4,
        _ => 3,
    }
}

/// The op of the next step.
pub open spec fn head_op(p: Seq<Step>) -> Op {
    match p[0] {
        Step::Standard(op) | Step::Instant(op) => op,
        Step::InstantConditional(_) => Op::Nop,
    }
}

/// Runs the Instant and InstantConditional steps at the front of `p`:
/// the state after them and the steps left (none once a condition fails).
pub open spec fn run_instants(s: CpuState, m: MmuState, p: Seq<Step>) -> (
    CpuState,
    MmuState,
    Seq<Step>,
)
    decreases p.len(),
{
    if p.len() == 0 {
        (s, m, p)
    } else {
        match p[0] {
            Step::Standard(_) => (s, m, p),
            Step::Instant(op) => {
                let (s2, m2) = op_spec(s, m, op);
                run_instants(s2, m2, p.drop_first())
            },
            Step::InstantConditional(c) => if cond_holds(s.flags, c) {
                run_instants(s, m, p.drop_first())
            } else {
                (s, m, Seq::empty())
            },
        }
    }
}

/// What a firing tick does when the next step is a Standard step other
/// than the prefix fetch: that op, then the instant steps after it.
pub open spec fn fire_spec(s: CpuState, m: MmuState, p: Seq<Step>) -> (
    CpuState,
    MmuState,
    Seq<Step>,
) {
    let (s1, m1) = op_spec(s, m, head_op(p));
    run_instants(s1, m1, p.drop_first())
}

/// The next step is the fetch of the second byte of a `CB` opcode.
pub open spec fn fires_prefix(p: Seq<Step>) -> bool {
    p.len() >= 1 && p[0] == Step::Standard(Op::FetchPrefixed)
}

/// What a firing tick does when the next step is the prefix fetch: the
/// fetch, then the steps of the fetched prefixed opcode are queued after
/// the remaining ones, and the instant steps at the front run.
pub open spec fn fire_prefix_spec(s: CpuState, m: MmuState, p: Seq<Step>) -> (
    CpuState,
    MmuState,
    Seq<Step>,
) {
    let (s1, m1) = op_spec(s, m, Op::FetchPrefixed);
    run_instants(s1, m1, p.drop_first() + decode_prefixed_spec(s1.operand8))
}

pub open spec fn fires_plain(p: Seq<Step>) -> bool {
    &&& p.len() >= 1
    &&& is_standard(p[0])
    &&& head_op(p) != Op::FetchPrefixed
}

/// Register and memory effect of one step op.
pub open spec fn op_spec(s: CpuState, m: MmuState, op: Op) -> (CpuState, MmuState) {
    let hl = hl_of(s);
    match op {
        Op::Nop => (s, m),
        Op::ReadImm8 | Op::FetchPrefixed => (
            CpuState { operand8: read_spec(m, s.pc), pc: next_addr(s.pc), ..s },
            m,
        ),
        Op::ReadImm16Lo => (
            CpuState { operand16: read_spec(m, s.pc) as u16, pc: next_addr(s.pc), ..s },
            m,
        ),
        Op::ReadImm16Hi => (
            CpuState {
                operand16: word_of((s.operand16 % 256) as u8, read_spec(m, s.pc)),
                pc: next_addr(s.pc),
                ..s
            },
            m,
        ),
        Op::LdR8R8(d, src) => (with_reg8(s, d, reg8(s, src)), m),
        Op::LdR8Imm(r) => (with_reg8(s, r, s.operand8), m),
        Op::LdR8Mem(r) => (with_reg8(s, r, read_spec(m, hl)), m),
        Op::StMemR8(r) => (s, write_spec(m, hl, reg8(s, r))),
        Op::StMemImm => (s, write_spec(m, hl, s.operand8)),
        Op::LdR16Imm(rr) => (with_reg16(s, rr, s.operand16), m),
        Op::LdAInd(rr) => (CpuState { a: read_spec(m, reg16(s, rr)), ..s }, m),
        Op::StIndA(rr) => (s, write_spec(m, reg16(s, rr), s.a)),
        Op::LdAAbs => (CpuState { a: read_spec(m, s.operand16), ..s }, m),
        Op::StAbsA => (s, write_spec(m, s.operand16, s.a)),
        Op::LdhLoadA => (CpuState { a: read_spec(m, (0xFF00 + s.operand8) as u16), ..s }, m),
        Op::LdhStoreA => (s, write_spec(m, (0xFF00 + s.operand8) as u16, s.a)),
        Op::LdhLoadAC => (CpuState { a: read_spec(m, (0xFF00 + s.c) as u16), ..s }, m),
        Op::LdhStoreAC => (s, write_spec(m, (0xFF00 + s.c) as u16, s.a)),
        Op::StAbsSp => (s, write_word_spec(m, s.operand16, s.sp)),
        Op::IncHlReg => (with_reg16(s, R16::HL, wrap16(hl + 1)), m),
        Op::DecHlReg => (with_reg16(s, R16::HL, wrap16(hl - 1)), m),
        Op::Alu(k, r) => {
            let o = alu_spec(k, s.a, reg8(s, r), s.flags);
            (CpuState { a: o.result, flags: o.flags, ..s }, m)
        },
        Op::AluImm(k) => {
            let o = alu_spec(k, s.a, s.operand8, s.flags);
            (CpuState { a: o.result, flags: o.flags, ..s }, m)
        },
        Op::ReadHlOperand => (CpuState { operand8: read_spec(m, hl), ..s }, m),
        Op::IncR8(r) => {
            let o = inc_spec(reg8(s, r), s.flags);
            (CpuState { flags: o.flags, ..with_reg8(s, r, o.result) }, m)
        },
        Op::DecR8(r) => {
            let o = dec_spec(reg8(s, r), s.flags);
            (CpuState { flags: o.flags, ..with_reg8(s, r, o.result) }, m)
        },
        Op::IncMemOperand => {
            let o = inc_spec(s.operand8, s.flags);
            (CpuState { flags: o.flags, ..s }, write_spec(m, hl, o.result))
        },
        Op::DecMemOperand => {
            let o = dec_spec(s.operand8, s.flags);
            (CpuState { flags: o.flags, ..s }, write_spec(m, hl, o.result))
        },
        Op::IncR16(rr) => (with_reg16(s, rr, wrap16(reg16(s, rr) + 1)), m),
        Op::DecR16(rr) => (with_reg16(s, rr, wrap16(reg16(s, rr) - 1)), m),
        Op::AddHl(rr) => {
            let (r, f) = add16_spec(hl, reg16(s, rr), s.flags);
            (CpuState { flags: f, ..with_reg16(s, R16::HL, r) }, m)
        },
        Op::AddSpImm => {
            let (r, f) = add_sp_spec(s.sp, s.operand8);
            (CpuState { sp: r, flags: f, ..s }, m)
        },
        Op::LdHlSpImm => {
            let (r, f) = add_sp_spec(s.sp, s.operand8);
            (CpuState { flags: f, ..with_reg16(s, R16::HL, r) }, m)
        },
        Op::LdSpHl => (CpuState { sp: hl, ..s }, m),
        Op::PushHigh(pp) => {
            let nsp = wrap16(s.sp - 1);
            (CpuState { sp: nsp, ..s }, write_spec(m, nsp, (stack_pair_value(s, pp) / 256) as u8))
        },
        Op::PushLow(pp) => {
            let nsp = wrap16(s.sp - 1);
            (CpuState { sp: nsp, ..s }, write_spec(m, nsp, (stack_pair_value(s, pp) % 256) as u8))
        },
        Op::PushPcHigh => {
            let nsp = wrap16(s.sp - 1);
            (CpuState { sp: nsp, ..s }, write_spec(m, nsp, (s.pc / 256) as u8))
        },
        Op::PushPcLow => {
            let nsp = wrap16(s.sp - 1);
            (CpuState { sp: nsp, ..s }, write_spec(m, nsp, (s.pc % 256) as u8))
        },
        Op::PopLow => (
            CpuState { operand16: read_spec(m, s.sp) as u16, sp: wrap16(s.sp + 1), ..s },
            m,
        ),
        Op::PopHigh => (
            CpuState {
                operand16: word_of((s.operand16 % 256) as u8, read_spec(m, s.sp)),
                sp: wrap16(s.sp + 1),
                ..s
            },
            m,
        ),
        Op::LdStackPair(pp) => (with_stack_pair(s, pp, s.operand16), m),
        Op::JumpAbs => (CpuState { pc: s.operand16, ..s }, m),
        Op::JumpHl => (CpuState { pc: hl, ..s }, m),
        Op::JumpRel => (CpuState { pc: wrap16(s.pc + sign_extend(s.operand8)), ..s }, m),
        Op::Rst(v) => (CpuState { pc: v as u16, ..s }, m),
        Op::ServiceInterrupt(v) => (CpuState { pc: v as u16, ime: false, ..s }, m),
        Op::RotA(k) => {
            let o = rotate_a_spec(k, s.a, s.flags);
            (CpuState { a: o.result, flags: o.flags, ..s }, m)
        },
        Op::Daa => {
            let o = daa_spec(s.a, s.flags);
            (CpuState { a: o.result, flags: o.flags, ..s }, m)
        },
        Op::Cpl => (
            CpuState { a: (255 - s.a) as u8, flags: Flags { n: true, h: true, ..s.flags }, ..s },
            m,
        ),
        Op::Scf => (CpuState { flags: Flags { n: false, h: false, c: true, ..s.flags }, ..s }, m),
        Op::Ccf => (
            CpuState { flags: Flags { n: false, h: false, c: !s.flags.c, ..s.flags }, ..s },
            m,
        ),
        Op::Di => (CpuState { ime: false, ..s }, m),
        Op::Ei => (CpuState { ime: true, ..s }, m),
        Op::Shift(k, r) => {
            let o = shift_spec(k, reg8(s, r), s.flags);
            (CpuState { flags: o.flags, ..with_reg8(s, r, o.result) }, m)
        },
        Op::ShiftMem(k) => {
            let o = shift_spec(k, s.operand8, s.flags);
            (CpuState { flags: o.flags, ..s }, write_spec(m, hl, o.result))
        },
        Op::Bit(n, r) => (CpuState { flags: bit_test_spec(n, reg8(s, r), s.flags), ..s }, m),
        Op::BitMem(n) => (CpuState { flags: bit_test_spec(n, s.operand8, s.flags), ..s }, m),
        Op::ResBit(n, r) => (with_reg8(s, r, reg8(s, r) & !(1u8 << n)), m),
        Op::SetBit(n, r) => (with_reg8(s, r, reg8(s, r) | (1u8 << n)), m),
        Op::ResBitMem(n) => (s, write_spec(m, hl, s.operand8 & !(1u8 << n))),
        Op::SetBitMem(n) => (s, write_spec(m, hl, s.operand8 | (1u8 << n))),
    }
}

#[derive(Debug)]
pub struct Cpu {
    a: u8,
    b: u8,
    c: u8,
    d: u8,
    e: u8,
    flags: Flags,
    h: u8,
    l: u8,
    pc: u16,
    sp: u16,
    operand8: u8,
    operand16: u16,
    ime: bool,
    instruction: Option<Instruction>,
    t_in_mcycle: u8,
}

impl View for Cpu {
    type V = CpuState;

    closed spec fn view(&self) -> CpuState {
        CpuState {
            a: self.a,
            b: self.b,
            c: self.c,
            d: self.d,
            e: self.e,
            h: self.h,
            l: self.l,
            flags: self.flags,
            pc: self.pc,
            sp: self.sp,
            operand8: self.operand8,
            operand16: self.operand16,
            ime: self.ime,
        }
    }
}

impl Cpu {
    /// The cursor invariant: T-states within the machine cycle stay below 4,
    /// and an instruction in flight always has a Standard step next.
    pub closed spec fn wf(&self) -> bool {
        &&& self.t_in_mcycle < 4
        &&& self.instruction matches Some(ins) ==> ins.wf()
    }

    /// No instruction is in flight.
    pub closed spec fn idle(&self) -> bool {
        self.instruction is None
    }

    /// T-states counted in the current machine cycle.
    pub closed spec fn t_state(&self) -> u8 {
        self.t_in_mcycle
    }

    pub fn new() -> (r: Cpu)
        ensures
            r.wf(),
            r.idle(),
            r.t_state() == 0,
            r@ == boot_state(),
    {
        Cpu {
            a: 0x01,
            b: 0x00,
            c: 0x13,
            d: 0x00,
            e: 0xD8,
            flags: flags_from_byte(0xB0),
            h: 0x01,
            l: 0x4D,
            pc: 0x100,
            sp: 0xFFFE,
            operand8: 0,
            operand16: 0,
            ime: false,
            instruction: None,
            t_in_mcycle: 0,
        }
    }

    pub fn is_processing_instruction(&self) -> (r: bool)
        ensures
            r == !self.idle(),
    {
        self.instruction.is_some()
    }

    /// Installs an instruction from outside (the interrupt controller) while
    /// the CPU is idle.
    pub fn set_interrupt_instruction(&mut self, instruction: Instruction)
        requires
            old(self).wf(),
            old(self).idle(),
            instruction.wf(),
        ensures
            final(self).wf(),
            !final(self).idle(),
            final(self).pending() == instruction.steps@.subrange(
                instruction.next as int,
                instruction.steps@.len() as int,
            ),
            final(self)@ == old(self)@,
            final(self).t_state() == old(self).t_state(),
    {
        self.instruction = Some(instruction);
    }

    // Flags

    fn set_flag(&mut self, flag: Flag)
        ensures
            final(self).flags == with_flag(old(self).flags, flag, true),
            final(self)@ == (CpuState { flags: final(self).flags, ..old(self)@ }),
            final(self).instruction == old(self).instruction,
            final(self).t_in_mcycle == old(self).t_in_mcycle,
    {
        self.set_flag_if_cond_else_clear(true, flag);
    }

    fn clear_flag(&mut self, flag: Flag)
        ensures
            final(self).flags == with_flag(old(self).flags, flag, false),
            final(self)@ == (CpuState { flags: final(self).flags, ..old(self)@ }),
            final(self).instruction == old(self).instruction,
            final(self).t_in_mcycle == old(self).t_in_mcycle,
    {
        self.set_flag_if_cond_else_clear(false, flag);
    }

    fn is_flag_set(&self, flag: Flag) -> (r: bool)
        ensures
            r == flag_value(self.flags, flag),
    {
        match flag {
            Flag::Z => self.flags.z,
            Flag::N => self.flags.n,
            Flag::H => self.flags.h,
            Flag::C => self.flags.c,
        }
    }

    fn set_flag_if_cond_else_clear(&mut self, cond: bool, flag: Flag)
        ensures
            final(self).flags == with_flag(old(self).flags, flag, cond),
            final(self)@ == (CpuState { flags: final(self).flags, ..old(self)@ }),
            final(self).instruction == old(self).instruction,
            final(self).t_in_mcycle == old(self).t_in_mcycle,
    {
        match flag {
            Flag::Z => self.flags.z = cond,
            Flag::N => self.flags.n = cond,
            Flag::H => self.flags.h = cond,
            Flag::C => self.flags.c = cond,
        }
    }

    fn handle_zero_flag(&mut self, register: u8)
        ensures
            final(self).flags == with_flag(old(self).flags, Flag::Z, register == 0),
            final(self)@ == (CpuState { flags: final(self).flags, ..old(self)@ }),
            final(self).instruction == old(self).instruction,
            final(self).t_in_mcycle == old(self).t_in_mcycle,
    {
        self.set_flag_if_cond_else_clear(register == 0, Flag::Z);
    }

    // Registers

    pub fn a(&self) -> (r: u8)
        ensures
            r == self@.a,
    {
        self.a
    }

    /// The `F` register: the flags in the upper nibble, the low nibble zero.
    pub fn f(&self) -> (r: u8)
        ensures
            r == flags_byte(self@.flags),
            r % 16 == 0,
    {
        flags_to_byte(self.flags)
    }

    pub fn flags(&self) -> (r: Flags)
        ensures
            r == self@.flags,
    {
        self.flags
    }

    pub fn pc(&self) -> (r: u16)
        ensures
            r == self@.pc,
    {
        self.pc
    }

    pub fn sp(&self) -> (r: u16)
        ensures
            r == self@.sp,
    {
        self.sp
    }

    /// The interrupt master enable latch.
    pub fn ime(&self) -> (r: bool)
        ensures
            r == self@.ime,
    {
        self.ime
    }

    pub fn set_ime(&mut self, v: bool)
        ensures
            final(self)@ == (CpuState { ime: v, ..old(self)@ }),
            final(self).wf() == old(self).wf(),
            final(self).idle() == old(self).idle(),
            final(self).t_state() == old(self).t_state(),
    {
        self.ime = v;
    }

    fn join(hi: u8, lo: u8) -> (r: u16)
        ensures
            r == word_of(lo, hi),
    {
        lo as u16 + (hi as u16) * 256
    }

    pub fn af(&self) -> (r: u16)
        ensures
            r == stack_pair_value(self@, StackPair::AF),
    {
        Cpu::join(self.a, flags_to_byte(self.flags))
    }

    pub fn bc(&self) -> (r: u16)
        ensures
            r == reg16(self@, R16::BC),
    {
        Cpu::join(self.b, self.c)
    }

    pub fn de(&self) -> (r: u16)
        ensures
            r == reg16(self@, R16::DE),
    {
        Cpu::join(self.d, self.e)
    }

    pub fn hl(&self) -> (r: u16)
        ensures
            r == reg16(self@, R16::HL),
    {
        Cpu::join(self.h, self.l)
    }

    fn set_af(&mut self, val: u16)
        ensures
            final(self)@ == with_stack_pair(old(self)@, StackPair::AF, val),
            final(self).instruction == old(self).instruction,
            final(self).t_in_mcycle == old(self).t_in_mcycle,
    {
        self.a = (val / 256) as u8;
        self.flags = flags_from_byte((val % 256) as u8);
    }

    fn set_bc(&mut self, val: u16)
        ensures
            final(self)@ == with_reg16(old(self)@, R16::BC, val),
            final(self).instruction == old(self).instruction,
            final(self).t_in_mcycle == old(self).t_in_mcycle,
    {
        self.b = (val / 256) as u8;
        self.c = (val % 256) as u8;
    }

    fn set_de(&mut self, val: u16)
        ensures
            final(self)@ == with_reg16(old(self)@, R16::DE, val),
            final(self).instruction == old(self).instruction,
            final(self).t_in_mcycle == old(self).t_in_mcycle,
    {
        self.d = (val / 256) as u8;
        self.e = (val % 256) as u8;
    }

    fn set_hl(&mut self, val: u16)
        ensures
            final(self)@ == with_reg16(old(self)@, R16::HL, val),
            final(self).instruction == old(self).instruction,
            final(self).t_in_mcycle == old(self).t_in_mcycle,
    {
        self.h = (val / 256) as u8;
        self.l = (val % 256) as u8;
    }

    // Arithmetic

    pub closed spec fn keeps_cursor(&self, other: &Cpu) -> bool {
        &&& self.instruction == other.instruction
        &&& self.t_in_mcycle == other.t_in_mcycle
    }

    fn inc(&mut self, val: u8) -> (r: u8)
        ensures
            r == inc_spec(val, old(self).flags).result,
            final(self)@ == (CpuState { flags: inc_spec(val, old(self).flags).flags, ..old(self)@ }),
            final(self).keeps_cursor(old(self)),
    {
        let o = inc8(val, self.flags);
        self.flags = o.flags;
        o.result
    }

    fn dec(&mut self, val: u8) -> (r: u8)
        ensures
            r == dec_spec(val, old(self).flags).result,
            final(self)@ == (CpuState { flags: dec_spec(val, old(self).flags).flags, ..old(self)@ }),
            final(self).keeps_cursor(old(self)),
    {
        let o = dec8(val, self.flags);
        self.flags = o.flags;
        o.result
    }

    fn cp(&mut self, val: u8)
        ensures
            final(self)@ == (CpuState {
                flags: alu_spec(AluOp::Cp, old(self).a, val, old(self).flags).flags,
                ..old(self)@
            }),
            final(self).keeps_cursor(old(self)),
    {
        self.set_flag_if_cond_else_clear(self.a == val, Flag::Z);
        self.set_flag_if_cond_else_clear(val > self.a, Flag::C);
        self.set_flag_if_cond_else_clear(val % 16 > self.a % 16, Flag::H);
        self.set_flag(Flag::N);
    }

    fn or(&mut self, val: u8)
        ensures
            final(self)@ == (CpuState {
                a: alu_spec(AluOp::Or, old(self).a, val, old(self).flags).result,
                flags: alu_spec(AluOp::Or, old(self).a, val, old(self).flags).flags,
                ..old(self)@
            }),
            final(self).keeps_cursor(old(self)),
    {
        self.a = self.a | val;
        self.handle_zero_flag(self.a);
        self.clear_flag(Flag::C);
        self.clear_flag(Flag::N);
        self.clear_flag(Flag::H);
    }

    fn xor(&mut self, val: u8)
        ensures
            final(self)@ == (CpuState {
                a: alu_spec(AluOp::Xor, old(self).a, val, old(self).flags).result,
                flags: alu_spec(AluOp::Xor, old(self).a, val, old(self).flags).flags,
                ..old(self)@
            }),
            final(self).keeps_cursor(old(self)),
    {
        self.a = self.a ^ val;
        self.handle_zero_flag(self.a);
        self.clear_flag(Flag::C);
        self.clear_flag(Flag::N);
        self.clear_flag(Flag::H);
    }

    fn and(&mut self, val: u8)
        ensures
            final(self)@ == (CpuState {
                a: alu_spec(AluOp::And, old(self).a, val, old(self).flags).result,
                flags: alu_spec(AluOp::And, old(self).a, val, old(self).flags).flags,
                ..old(self)@
            }),
            final(self).keeps_cursor(old(self)),
    {
        self.a = self.a & val;
        self.handle_zero_flag(self.a);
        self.clear_flag(Flag::C);
        self.clear_flag(Flag::N);
        self.set_flag(Flag::H);
    }

    /// `val1 + val2` with the ADD flags; the caller stores the result.
    fn add(&mut self, val1: u8, val2: u8) -> (r: u8)
        ensures
            r == alu_spec(AluOp::Add, val1, val2, old(self).flags).result,
            final(self)@ == (CpuState {
                flags: alu_spec(AluOp::Add, val1, val2, old(self).flags).flags,
                ..old(self)@
            }),
            final(self).keeps_cursor(old(self)),
    {
        let o = alu(AluOp::Add, val1, val2, self.flags);
        self.flags = o.flags;
        o.result
    }

    /// Applies an accumulator operation that writes `A`.
    fn alu_to_a(&mut self, op: AluOp, val: u8)
        ensures
            final(self)@ == (CpuState {
                a: alu_spec(op, old(self).a, val, old(self).flags).result,
                flags: alu_spec(op, old(self).a, val, old(self).flags).flags,
                ..old(self)@
            }),
            final(self).keeps_cursor(old(self)),
    {
        let o = alu(op, self.a, val, self.flags);
        self.a = o.result;
        self.flags = o.flags;
    }

    fn adc(&mut self, val: u8)
        ensures
            final(self)@ == (CpuState {
                a: alu_spec(AluOp::Adc, old(self).a, val, old(self).flags).result,
                flags: alu_spec(AluOp::Adc, old(self).a, val, old(self).flags).flags,
                ..old(self)@
            }),
            final(self).keeps_cursor(old(self)),
    {
        self.alu_to_a(AluOp::Adc, val);
    }

    #[verifier::rlimit(30)]
    fn sub(&mut self, val: u8)
        ensures
            final(self)@ == (CpuState {
                a: alu_spec(AluOp::Sub, old(self).a, val, old(self).flags).result,
                flags: alu_spec(AluOp::Sub, old(self).a, val, old(self).flags).flags,
                ..old(self)@
            }),
            final(self).keeps_cursor(old(self)),
    {
        self.set_flag_if_cond_else_clear(val > self.a, Flag::C);
        self.set_flag_if_cond_else_clear(val % 16 > self.a % 16, Flag::H);
        self.set_flag_if_cond_else_clear(self.a == val, Flag::Z);
        self.a = self.a.wrapping_sub(val);
        self.set_flag(Flag::N);
    }

    fn alu_dispatch(&mut self, op: AluOp, val: u8)
        ensures
            final(self)@ == (CpuState {
                a: alu_spec(op, old(self).a, val, old(self).flags).result,
                flags: alu_spec(op, old(self).a, val, old(self).flags).flags,
                ..old(self)@
            }),
            final(self).keeps_cursor(old(self)),
    {
        match op {
            AluOp::Add => {
                let r = self.add(self.a, val);
                self.a = r;
            },
            AluOp::Adc => self.adc(val),
            AluOp::Sub => self.sub(val),
            AluOp::Sbc => self.alu_to_a(AluOp::Sbc, val),
            AluOp::And => self.and(val),
            AluOp::Xor => self.xor(val),
            AluOp::Or => self.or(val),
            AluOp::Cp => self.cp(val),
        }
    }

    /// `val1 + val2` with the 16-bit ADD flags; the caller stores the result.
    fn add_two_reg_u16(&mut self, val1: u16, val2: u16) -> (r: u16)
        ensures
            r == add16_spec(val1, val2, old(self).flags).0,
            final(self)@ == (CpuState { flags: add16_spec(val1, val2, old(self).flags).1, ..old(self)@ }),
            final(self).keeps_cursor(old(self)),
    {
        let (r, f) = add16(val1, val2, self.flags);
        self.flags = f;
        r
    }

    // Register selection

    fn get_reg8(&self, r: R8) -> (v: u8)
        ensures
            v == reg8(self@, r),
    {
        match r {
            R8::B => self.b,
            R8::C => self.c,
            R8::D => self.d,
            R8::E => self.e,
            R8::H => self.h,
            R8::L => self.l,
            R8::A => self.a,
        }
    }

    fn set_reg8(&mut self, r: R8, v: u8)
        ensures
            final(self)@ == with_reg8(old(self)@, r, v),
            final(self).keeps_cursor(old(self)),
    {
        match r {
            R8::B => self.b = v,
            R8::C => self.c = v,
            R8::D => self.d = v,
            R8::E => self.e = v,
            R8::H => self.h = v,
            R8::L => self.l = v,
            R8::A => self.a = v,
        }
    }

    fn get_reg16(&self, rr: R16) -> (v: u16)
        ensures
            v == reg16(self@, rr),
    {
        match rr {
            R16::BC => self.bc(),
            R16::DE => self.de(),
            R16::HL => self.hl(),
            R16::SP => self.sp,
        }
    }

    fn set_reg16(&mut self, rr: R16, v: u16)
        ensures
            final(self)@ == with_reg16(old(self)@, rr, v),
            final(self).keeps_cursor(old(self)),
    {
        match rr {
            R16::BC => self.set_bc(v),
            R16::DE => self.set_de(v),
            R16::HL => self.set_hl(v),
            R16::SP => self.sp = v,
        }
    }

    fn get_stack_pair(&self, pp: StackPair) -> (v: u16)
        ensures
            v == stack_pair_value(self@, pp),
    {
        match pp {
            StackPair::BC => self.bc(),
            StackPair::DE => self.de(),
            StackPair::HL => self.hl(),
            StackPair::AF => self.af(),
        }
    }

    fn set_stack_pair(&mut self, pp: StackPair, v: u16)
        ensures
            final(self)@ == with_stack_pair(old(self)@, pp, v),
            final(self).keeps_cursor(old(self)),
    {
        match pp {
            StackPair::BC => self.set_bc(v),
            StackPair::DE => self.set_de(v),
            StackPair::HL => self.set_hl(v),
            StackPair::AF => self.set_af(v),
        }
    }

    fn check_cond(&self, c: Cond) -> (r: bool)
        ensures
            r == cond_holds(self@.flags, c),
    {
        match c {
            Cond::NZ => !self.is_flag_set(Flag::Z),
            Cond::Z => self.is_flag_set(Flag::Z),
            Cond::NC => !self.is_flag_set(Flag::C),
            Cond::C => self.is_flag_set(Flag::C),
        }
    }

    // Memory and stack

    fn fetch(&mut self, mmu: &Mmu) -> (r: u8)
        requires
            mmu.wf(),
        ensures
            r == read_spec(mmu@, old(self)@.pc),
            final(self)@ == (CpuState { pc: next_addr(old(self)@.pc), ..old(self)@ }),
            final(self).keeps_cursor(old(self)),
    {
        let op = mmu.read_byte(self.pc);
        self.pc = if self.pc == 0xFFFF {
            0
        } else {
            self.pc + 1
        };
        op
    }

    /// Pushes `PC` (used by the interrupt controller before a jump to a
    /// vector).
    pub fn push_pc_to_stack(&mut self, mmu: &mut Mmu)
        requires
            old(mmu).wf(),
        ensures
            final(mmu).wf(),
            (final(self)@.sp, final(mmu)@) == push_spec(old(self)@.sp, old(mmu)@, old(self)@.pc),
            final(self)@ == (CpuState { sp: final(self)@.sp, ..old(self)@ }),
            final(self).keeps_cursor(old(self)),
    {
        self.write_word_to_stack(mmu, self.pc);
    }

    fn write_word_to_stack(&mut self, mmu: &mut Mmu, val: u16)
        requires
            old(mmu).wf(),
        ensures
            final(mmu).wf(),
            (final(self)@.sp, final(mmu)@) == push_spec(old(self)@.sp, old(mmu)@, val),
            final(self)@ == (CpuState { sp: final(self)@.sp, ..old(self)@ }),
            final(self).keeps_cursor(old(self)),
    {
        self.sp = if self.sp >= 2 {
            self.sp - 2
        } else {
            self.sp + 65534
        };
        mmu.write_word(self.sp, val);
    }

    pub fn set_pc(&mut self, pc: u16)
        ensures
            final(self)@ == (CpuState { pc, ..old(self)@ }),
            final(self).keeps_cursor(old(self)),
    {
        self.pc = pc;
    }

    // Execution

    fn wrapped_add(x: u16, delta: u16) -> (r: u16)
        ensures
            r == wrap16(x + delta),
    {
        ((x as u32 + delta as u32) % 65536) as u16
    }

    fn wrapped_sub(x: u16, delta: u16) -> (r: u16)
        ensures
            r == wrap16(x - delta),
    {
        ((x as u32 + 65536 - delta as u32) % 65536) as u16
    }

    fn exec_load(&mut self, mmu: &mut Mmu, op: Op)
        requires
            old(mmu).wf(),
            bit_index_ok(op),
            op_group(op) == 0,
        ensures
            final(mmu).wf(),
            (final(self)@, final(mmu)@) == op_spec(old(self)@, old(mmu)@, op),
            final(self).keeps_cursor(old(self)),
    {
        match op {
            Op::Nop => {},
            Op::ReadImm8 | Op::FetchPrefixed => {
                self.operand8 = self.fetch(mmu);
            },
            Op::ReadImm16Lo => {
                self.operand16 = self.fetch(mmu) as u16;
            },
            Op::ReadImm16Hi => {
                let hi = self.fetch(mmu);
                self.operand16 = Cpu::join(hi, (self.operand16 % 256) as u8);
            },
            Op::LdR8R8(d, src) => {
                let v = self.get_reg8(src);
                self.set_reg8(d, v);
            },
            Op::LdR8Imm(r) => {
                let v = self.operand8;
                self.set_reg8(r, v);
            },
            Op::LdR8Mem(r) => {
                let v = mmu.read_byte(self.hl());
                self.set_reg8(r, v);
            },
            Op::StMemR8(r) => {
                let v = self.get_reg8(r);
                mmu.write_byte(self.hl(), v);
            },
            Op::StMemImm => {
                mmu.write_byte(self.hl(), self.operand8);
            },
            Op::LdR16Imm(rr) => {
                let v = self.operand16;
                self.set_reg16(rr, v);
            },
            Op::LdAInd(rr) => {
                self.a = mmu.read_byte(self.get_reg16(rr));
            },
            Op::StIndA(rr) => {
                mmu.write_byte(self.get_reg16(rr), self.a);
            },
            Op::LdAAbs => {
                self.a = mmu.read_byte(self.operand16);
            },
            Op::StAbsA => {
                mmu.write_byte(self.operand16, self.a);
            },
            Op::LdhLoadA => {
                self.a = mmu.read_byte(0xFF00 + self.operand8 as u16);
            },
            Op::LdhStoreA => {
                mmu.write_byte(0xFF00 + self.operand8 as u16, self.a);
            },
            Op::LdhLoadAC => {
                self.a = mmu.read_byte(0xFF00 + self.c as u16);
            },
            Op::LdhStoreAC => {
                mmu.write_byte(0xFF00 + self.c as u16, self.a);
            },
            Op::StAbsSp => {
                mmu.write_word(self.operand16, self.sp);
            },
            Op::IncHlReg => {
                let v = Cpu::wrapped_add(self.hl(), 1);
                self.set_hl(v);
            },
            Op::DecHlReg => {
                let v = Cpu::wrapped_sub(self.hl(), 1);
                self.set_hl(v);
            },
            Op::ReadHlOperand => {
                self.operand8 = mmu.read_byte(self.hl());
            },
            Op::LdSpHl => {
                self.sp = self.hl();
            },
            _ => {},
        }
    }

    #[verifier::rlimit(80)]
    fn exec_arith(&mut self, mmu: &mut Mmu, op: Op)
        requires
            old(mmu).wf(),
            bit_index_ok(op),
            op_group(op) == 1,
        ensures
            final(mmu).wf(),
            (final(self)@, final(mmu)@) == op_spec(old(self)@, old(mmu)@, op),
            final(self).keeps_cursor(old(self)),
    {
        match op {
            Op::Alu(k, r) => {
                let v = self.get_reg8(r);
                self.alu_dispatch(k, v);
            },
            Op::AluImm(k) => {
                let v = self.operand8;
                self.alu_dispatch(k, v);
            },
            Op::IncR8(r) => {
                let v = self.get_reg8(r);
                let n = self.inc(v);
                self.set_reg8(r, n);
            },
            Op::DecR8(r) => {
                let v = self.get_reg8(r);
                let n = self.dec(v);
                self.set_reg8(r, n);
            },
            Op::IncMemOperand => {
                let n = self.inc(self.operand8);
                mmu.write_byte(self.hl(), n);
            },
            Op::DecMemOperand => {
                let n = self.dec(self.operand8);
                mmu.write_byte(self.hl(), n);
            },
            Op::RotA(k) => {
                let o = rotate_a(k, self.a, self.flags);
                self.a = o.result;
                self.flags = o.flags;
            },
            Op::Daa => {
                let o = daa(self.a, self.flags);
                self.a = o.result;
                self.flags = o.flags;
            },
            Op::Cpl => {
                self.a = 255 - self.a;
                self.set_flag(Flag::N);
                self.set_flag(Flag::H);
            },
            Op::Scf => {
                self.clear_flag(Flag::N);
                self.clear_flag(Flag::H);
                self.set_flag(Flag::C);
            },
            Op::Ccf => {
                let c = self.is_flag_set(Flag::C);
                self.clear_flag(Flag::N);
                self.clear_flag(Flag::H);
                self.set_flag_if_cond_else_clear(!c, Flag::C);
            },
            _ => {},
        }
    }

    #[verifier::rlimit(60)]
    fn exec_arith16(&mut self, mmu: &mut Mmu, op: Op)
        requires
            old(mmu).wf(),
            bit_index_ok(op),
            op_group(op) == 4,
        ensures
            final(mmu).wf(),
            (final(self)@, final(mmu)@) == op_spec(old(self)@, old(mmu)@, op),
            final(self).keeps_cursor(old(self)),
    {
        match op {
            Op::IncR16(rr) => {
                let v = Cpu::wrapped_add(self.get_reg16(rr), 1);
                self.set_reg16(rr, v);
            },
            Op::DecR16(rr) => {
                let v = Cpu::wrapped_sub(self.get_reg16(rr), 1);
                self.set_reg16(rr, v);
            },
            Op::AddHl(rr) => {
                let x = self.hl();
                let y = self.get_reg16(rr);
                let r = self.add_two_reg_u16(x, y);
                self.set_hl(r);
            },
            Op::AddSpImm => {
                let (r, f) = add_sp(self.sp, self.operand8);
                self.sp = r;
                self.flags = f;
            },
            Op::LdHlSpImm => {
                let (r, f) = add_sp(self.sp, self.operand8);
                self.set_hl(r);
                self.flags = f;
            },
            _ => {},
        }
    }

    fn exec_control(&mut self, mmu: &mut Mmu, op: Op)
        requires
            old(mmu).wf(),
            bit_index_ok(op),
            op_group(op) == 2,
        ensures
            final(mmu).wf(),
            (final(self)@, final(mmu)@) == op_spec(old(self)@, old(mmu)@, op),
            final(self).keeps_cursor(old(self)),
    {
        match op {
            Op::PushHigh(pp) => {
                let v = self.get_stack_pair(pp);
                self.sp = Cpu::wrapped_sub(self.sp, 1);
                mmu.write_byte(self.sp, (v / 256) as u8);
            },
            Op::PushLow(pp) => {
                let v = self.get_stack_pair(pp);
                self.sp = Cpu::wrapped_sub(self.sp, 1);
                mmu.write_byte(self.sp, (v % 256) as u8);
            },
            Op::PushPcHigh => {
                self.sp = Cpu::wrapped_sub(self.sp, 1);
                mmu.write_byte(self.sp, (self.pc / 256) as u8);
            },
            Op::PushPcLow => {
                self.sp = Cpu::wrapped_sub(self.sp, 1);
                mmu.write_byte(self.sp, (self.pc % 256) as u8);
            },
            Op::PopLow => {
                self.operand16 = mmu.read_byte(self.sp) as u16;
                self.sp = Cpu::wrapped_add(self.sp, 1);
            },
            Op::PopHigh => {
                let hi = mmu.read_byte(self.sp);
                self.operand16 = Cpu::join(hi, (self.operand16 % 256) as u8);
                self.sp = Cpu::wrapped_add(self.sp, 1);
            },
            Op::LdStackPair(pp) => {
                let v = self.operand16;
                self.set_stack_pair(pp, v);
            },
            Op::JumpAbs => {
                self.pc = self.operand16;
            },
            Op::JumpHl => {
                self.pc = self.hl();
            },
            Op::JumpRel => {
                let e = self.operand8;
                self.pc = if e >= 128 {
                    Cpu::wrapped_sub(self.pc, 256 - e as u16)
                } else {
                    Cpu::wrapped_add(self.pc, e as u16)
                };
            },
            Op::Rst(v) => {
                self.pc = v as u16;
            },
            Op::ServiceInterrupt(v) => {
                self.ime = false;
                self.pc = v as u16;
            },
            Op::Di => {
                self.ime = false;
            },
            Op::Ei => {
                self.ime = true;
            },
            _ => {},
        }
    }

    fn exec_prefixed(&mut self, mmu: &mut Mmu, op: Op)
        requires
            old(mmu).wf(),
            bit_index_ok(op),
            op_group(op) == 3,
        ensures
            final(mmu).wf(),
            (final(self)@, final(mmu)@) == op_spec(old(self)@, old(mmu)@, op),
            final(self).keeps_cursor(old(self)),
    {
        match op {
            Op::Shift(k, r) => {
                let v = self.get_reg8(r);
                let o = shift(k, v, self.flags);
                self.set_reg8(r, o.result);
                self.flags = o.flags;
            },
            Op::ShiftMem(k) => {
                let o = shift(k, self.operand8, self.flags);
                self.flags = o.flags;
                mmu.write_byte(self.hl(), o.result);
            },
            Op::Bit(n, r) => {
                let v = self.get_reg8(r);
                self.flags = bit_test(n, v, self.flags);
            },
            Op::BitMem(n) => {
                self.flags = bit_test(n, self.operand8, self.flags);
            },
            Op::ResBit(n, r) => {
                let v = self.get_reg8(r);
                self.set_reg8(r, v & !(1u8 << n));
            },
            Op::SetBit(n, r) => {
                let v = self.get_reg8(r);
                self.set_reg8(r, v | (1u8 << n));
            },
            Op::ResBitMem(n) => {
                mmu.write_byte(self.hl(), self.operand8 & !(1u8 << n));
            },
            Op::SetBitMem(n) => {
                mmu.write_byte(self.hl(), self.operand8 | (1u8 << n));
            },
            _ => {},
        }
    }

    /// Runs the work of one step op.
    fn exec_op(&mut self, mmu: &mut Mmu, op: Op)
        requires
            old(mmu).wf(),
            bit_index_ok(op),
        ensures
            final(mmu).wf(),
            (final(self)@, final(mmu)@) == op_spec(old(self)@, old(mmu)@, op),
            final(self).keeps_cursor(old(self)),
    {
        match op {
            Op::Nop | Op::ReadImm8 | Op::ReadImm16Lo | Op::ReadImm16Hi | Op::LdR8R8(..)
            | Op::LdR8Imm(..) | Op::LdR8Mem(..) | Op::StMemR8(..) | Op::StMemImm
            | Op::LdR16Imm(..) | Op::LdAInd(..) | Op::StIndA(..) | Op::LdAAbs | Op::StAbsA
            | Op::LdhLoadA | Op::LdhStoreA | Op::LdhLoadAC | Op::LdhStoreAC | Op::StAbsSp
            | Op::IncHlReg | Op::DecHlReg | Op::ReadHlOperand | Op::LdSpHl | Op::FetchPrefixed => self.exec_load(mmu, op),
            Op::Alu(..) | Op::AluImm(..) | Op::IncR8(..) | Op::DecR8(..) | Op::IncMemOperand
            | Op::DecMemOperand | Op::RotA(..) | Op::Daa | Op::Cpl | Op::Scf | Op::Ccf => self.exec_arith(mmu, op),
            Op::PushHigh(..) | Op::PushLow(..) | Op::PushPcHigh | Op::PushPcLow | Op::PopLow
            | Op::PopHigh | Op::LdStackPair(..) | Op::JumpAbs | Op::JumpHl | Op::JumpRel
            | Op::Rst(..) | Op::ServiceInterrupt(..) | Op::Di | Op::Ei => self.exec_control(mmu, op),
            Op::IncR16(..) | Op::DecR16(..) | Op::AddHl(..) | Op::AddSpImm | Op::LdHlSpImm => self.exec_arith16(mmu, op),
            _ => self.exec_prefixed(mmu, op),
        }
    }

    /// The steps still to run of the instruction in flight, the next first.
    pub closed spec fn pending(&self) -> Seq<Step> {
        match self.instruction {
            Some(ins) => ins.steps@.subrange(ins.next as int, ins.steps@.len() as int),
            None => Seq::empty(),
        }
    }

    /// After a Standard step: runs the Instant and InstantConditional steps
    /// that follow it, then keeps the instruction if a Standard step is
    /// left, or goes idle.
    fn handle_next_step(&mut self, mmu: &mut Mmu, start: Instruction)
        requires
            old(self).instruction is None,
            old(self).t_in_mcycle < 4,
            old(mmu).wf(),
            start.next <= start.steps@.len(),
            forall|i: int| 0 <= i < start.steps@.len() ==> step_ok(#[trigger] start.steps@[i]),
        ensures
            final(self).wf(),
            final(mmu).wf(),
            final(self).t_in_mcycle == old(self).t_in_mcycle,
            (final(self)@, final(mmu)@, final(self).pending()) == run_instants(
                old(self)@,
                old(mmu)@,
                start.steps@.subrange(start.next as int, start.steps@.len() as int),
            ),
    {
        let ghost init = start;
        let mut ins = start;
        while ins.next < ins.steps.len()
            invariant
                self.instruction is None,
                self.t_in_mcycle == old(self).t_in_mcycle,
                self.t_in_mcycle < 4,
                mmu.wf(),
                ins.next <= ins.steps@.len(),
                forall|i: int| 0 <= i < ins.steps@.len() ==> step_ok(#[trigger] ins.steps@[i]),
                init == start,
                run_instants(self@, mmu@, ins.steps@.subrange(ins.next as int, ins.steps@.len() as int))
                    == run_instants(
                    old(self)@,
                    old(mmu)@,
                    init.steps@.subrange(init.next as int, init.steps@.len() as int),
                ),
            decreases ins.steps@.len() - ins.next,
        {
            let ghost rest = ins.steps@.subrange(ins.next as int, ins.steps@.len() as int);
            let step = ins.steps[ins.next];
            assert(rest[0] == step);
            assert(rest.drop_first() =~= ins.steps@.subrange(ins.next + 1, ins.steps@.len() as int));
            match step {
                Step::Standard(_) => {
                    self.instruction = Some(ins);
                    return;
                },
                Step::Instant(op) => {
                    assert(step_ok(ins.steps@[ins.next as int]));
                    ins.next = ins.next + 1;
                    self.exec_op(mmu, op);
                },
                Step::InstantConditional(c) => {
                    ins.next = ins.next + 1;
                    if !self.check_cond(c) {
                        return;
                    }
                },
            }
        }
    }

    /// Idle: fetch the opcode at `PC` and install its steps.
    fn fetch_instruction(&mut self, mmu: &mut Mmu) -> (r: Result<(), CpuFault>)
        requires
            old(self).wf(),
            old(self).instruction is None,
            old(mmu).wf(),
        ensures
            final(self).wf(),
            final(mmu).wf(),
            final(mmu)@ == old(mmu)@,
            final(self)@ == (CpuState { pc: next_addr(old(self)@.pc), ..old(self)@ }),
            is_hole(read_spec(old(mmu)@, old(self)@.pc)) ==> final(self).idle() && r == Err::<
                (),
                CpuFault,
            >(CpuFault::DecoderHole { opcode: read_spec(old(mmu)@, old(self)@.pc), pc: old(self)@.pc }),
            !is_hole(read_spec(old(mmu)@, old(self)@.pc)) ==> r is Ok && !final(self).idle()
                && final(self).t_state() == 1 && decode_spec(read_spec(old(mmu)@, old(self)@.pc))
                == Some(final(self).pending()),
    {
        let pc = self.pc;
        let opcode = self.fetch(mmu);
        match decode(opcode) {
            Some(steps) => {
                assert(steps@.subrange(0, steps@.len() as int) =~= steps@);
                self.instruction = Some(Instruction { steps, next: 0 });
                self.t_in_mcycle = 1;
                Ok(())
            },
            None => Err(CpuFault::DecoderHole { opcode, pc }),
        }
    }

    /// Queues the steps of the prefixed opcode `cb` after those of `ins`.
    fn queue_prefixed(ins: &mut Instruction, cb: u8)
        requires
            forall|i: int| 0 <= i < old(ins).steps@.len() ==> step_ok(#[trigger] old(ins).steps@[i]),
        ensures
            final(ins).next == old(ins).next,
            final(ins).steps@.len() > old(ins).steps@.len(),
            final(ins).steps@ == old(ins).steps@ + decode_prefixed_spec(cb),
            final(ins).steps@.subrange(0, old(ins).steps@.len() as int) == old(ins).steps@,
            is_standard(final(ins).steps@[old(ins).steps@.len() as int]),
            forall|i: int| 0 <= i < final(ins).steps@.len() ==> step_ok(#[trigger] final(ins).steps@[i]),
    {
        let mut extra = decode_prefixed(cb);
        let ghost before = ins.steps@;
        let ghost added = extra@;
        ins.steps.append(&mut extra);
        assert(ins.steps@ == before + added);
        assert(ins.steps@.subrange(0, before.len() as int) =~= before);
        assert forall|i: int| 0 <= i < ins.steps@.len() implies step_ok(#[trigger] ins.steps@[i]) by {
            if i >= before.len() {
                assert(ins.steps@[i] == added[i - before.len()]);
            } else {
                assert(ins.steps@[i] == before[i]);
            }
        }
    }

    /// The fourth T-state of a machine cycle: run the next Standard step and
    /// the instant steps after it.
    fn run_machine_cycle(&mut self, mmu: &mut Mmu)
        requires
            old(self).wf(),
            old(self).instruction is Some,
            old(self).t_in_mcycle == 0,
            old(mmu).wf(),
        ensures
            final(self).wf(),
            final(mmu).wf(),
            final(self).t_in_mcycle == 0,
            fires_plain(old(self).pending()) ==> (final(self)@, final(mmu)@, final(self).pending())
                == fire_spec(old(self)@, old(mmu)@, old(self).pending()),
            fires_prefix(old(self).pending()) ==> (final(self)@, final(mmu)@, final(self).pending())
                == fire_prefix_spec(old(self)@, old(mmu)@, old(self).pending()),
    {
        let taken = self.instruction.take();
        match taken {
            Some(ins) => {
                let mut ins = ins;
                assert(ins.wf());
                let step = ins.steps[ins.next];
                assert(step_ok(ins.steps@[ins.next as int]));
                assert(step == old(self).pending()[0]);
                assert(ins.next < ins.steps.len());
                ins.next = ins.next + 1;
                let ghost rest = ins.steps@.subrange(ins.next as int, ins.steps@.len() as int);
                assert(rest =~= old(self).pending().drop_first());
                match step {
                    Step::Standard(op) => {
                        self.exec_op(mmu, op);
                        if matches!(op, Op::FetchPrefixed) {
                            let ghost before = ins.steps@;
                            Cpu::queue_prefixed(&mut ins, self.operand8);
                            assert(ins.steps@.subrange(ins.next as int, ins.steps@.len() as int)
                                =~= rest + decode_prefixed_spec(self.operand8));
                        }
                    },
                    _ => {},
                }
                proof {
                    if fires_plain(old(self).pending()) {
                        assert(ins.steps@.subrange(ins.next as int, ins.steps@.len() as int)
                            =~= old(self).pending().drop_first());
                    }
                }
                self.handle_next_step(mmu, ins);
            },
            None => {},
        }
    }

    /// One T-state. Idle: fetch and decode the opcode at `PC`. Otherwise
    /// count the T-state, and on the fourth run the next Standard step and
    /// the instant steps after it.
    pub fn tick(&mut self, mmu: &mut Mmu) -> (r: Result<(), CpuFault>)
        requires
            old(self).wf(),
            old(mmu).wf(),
        ensures
            final(self).wf(),
            final(mmu).wf(),
            old(self).idle() ==> final(mmu)@ == old(mmu)@ && final(self)@ == (CpuState {
                pc: next_addr(old(self)@.pc),
                ..old(self)@
            }),
            old(self).idle() && is_hole(read_spec(old(mmu)@, old(self)@.pc)) ==> final(self).idle()
                && r == Err::<(), CpuFault>(
                CpuFault::DecoderHole {
                    opcode: read_spec(old(mmu)@, old(self)@.pc),
                    pc: old(self)@.pc,
                },
            ),
            old(self).idle() && !is_hole(read_spec(old(mmu)@, old(self)@.pc)) ==> r is Ok
                && !final(self).idle() && final(self).t_state() == 1 && decode_spec(
                read_spec(old(mmu)@, old(self)@.pc),
            ) == Some(final(self).pending()),
            final(self).idle() == (final(self).pending().len() == 0),
            !old(self).idle() ==> r is Ok,
            !old(self).idle() && old(self).t_state() < 3 ==> final(self)@ == old(self)@
                && final(mmu)@ == old(mmu)@ && final(self).pending() == old(self).pending()
                && final(self).t_state() == old(self).t_state() + 1,
            !old(self).idle() && old(self).t_state() == 3 ==> final(self).t_state() == 0,
            !old(self).idle() && old(self).t_state() == 3 && fires_plain(old(self).pending())
                ==> (final(self)@, final(mmu)@, final(self).pending()) == fire_spec(
                old(self)@,
                old(mmu)@,
                old(self).pending(),
            ),
            !old(self).idle() && old(self).t_state() == 3 && fires_prefix(old(self).pending())
                ==> (final(self)@, final(mmu)@, final(self).pending()) == fire_prefix_spec(
                old(self)@,
                old(mmu)@,
                old(self).pending(),
            ),
    {
        if self.instruction.is_none() {
            self.fetch_instruction(mmu)
        } else {
            self.t_in_mcycle = self.t_in_mcycle + 1;
            if self.t_in_mcycle < 4 {
                return Ok(());
            }
            self.t_in_mcycle = 0;
            self.run_machine_cycle(mmu);
            Ok(())
        }
    }
}

/// In every state the `F` register's low nibble is zero.
pub proof fn lemma_f_low_nibble_zero(s: CpuState)
    ensures
        flags_byte(s.flags) % 16 == 0,
{
}

/// Only the stack, call/return and stack-pointer arithmetic ops change
/// `SP`; every other op leaves it as it was.
pub proof fn lemma_sp_kept_by_other_ops(s: CpuState, m: MmuState, op: Op)
    requires
        !writes_sp(op),
    ensures
        op_spec(s, m, op).0.sp == s.sp,
{
}

/// After the two steps of `PUSH rr` onto RAM, the word read back at the
/// new `SP` is the value of `rr`.
pub proof fn lemma_push_reads_back(s: CpuState, m: MmuState, pp: StackPair)
    requires
        state_wf(m),
        writable_ram(wrap16(s.sp - 2)),
        writable_ram(wrap16(s.sp - 1)),
    ensures
        ({
            let (s1, m1) = op_spec(s, m, Op::PushHigh(pp));
            let (s2, m2) = op_spec(s1, m1, Op::PushLow(pp));
            read_word_spec(m2, s2.sp) == stack_pair_value(s, pp)
        }),
{
    let v = stack_pair_value(s, pp);
    let lo_addr = wrap16(s.sp - 2);
    assert(next_addr(lo_addr) == wrap16(s.sp - 1));
    assert(wrap16(wrap16(s.sp - 1) - 1) == lo_addr);
    lemma_bytes_read_back_as_word(m, lo_addr, v);
}

/// A well-formed CPU is idle exactly when no step of an instruction is
/// left to run.
pub proof fn lemma_idle_iff_nothing_pending(cpu: &Cpu)
    requires
        cpu.wf(),
    ensures
        cpu.idle() == (cpu.pending().len() == 0),
{
}

} // verus!

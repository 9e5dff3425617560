//! Instruction decoding and execution.
//!
//! `execute` states, over the register and memory models, what one
//! instruction does: the state after it and the machine cycles it takes.
//! `call` runs it on a real register file and bus.

use crate::bitwise::{isset_bit, set_bit, unset_bit};
use crate::cpu::{CpuState, Flags, Reg16, Reg8, LR35902};
use crate::hardware::bus::{next_addr, with_word, word_at, Bus};
use crate::bitwise::{high_byte, low_byte, word_of};
use crate::hardware::mmu::{MmuState, RomOnlyState};
use vstd::prelude::*;

verus! {

/// An opcode with no handler: the coverage gap it reveals. `pc` is the
/// address of the instruction's first byte, and `prefixed` tells an opcode
/// of the `0xCB` table from one of the main table.
#[derive(Debug, Clone, Copy, PartialEq, Eq, Structural)]
pub struct UnimplementedInstruction {
    pub opcode: u8,
    pub prefixed: bool,
    pub pc: u16,
}

/// The state after an instruction and the machine cycles it took.
pub struct Transition {
    pub cpu: CpuState,
    pub mem: MmuState,
    pub cycles: u16,
}

/// Where an operation reads or writes its byte: a register, or memory at HL.
#[derive(Debug, Clone, Copy, PartialEq, Eq, Structural)]
pub enum Operand {
    Reg(Reg8),
    AtHl,
}

/// The operand that three opcode bits select: B, C, D, E, H, L, memory at
/// HL, A.
pub open spec fn operand_of(bits: u8) -> Operand {
    let k = bits % 8;
    if k == 0 {
        Operand::Reg(Reg8::B)
    } else if k == 1 {
        Operand::Reg(Reg8::C)
    } else if k == 2 {
        Operand::Reg(Reg8::D)
    } else if k == 3 {
        Operand::Reg(Reg8::E)
    } else if k == 4 {
        Operand::Reg(Reg8::H)
    } else if k == 5 {
        Operand::Reg(Reg8::L)
    } else if k == 6 {
        Operand::AtHl
    } else {
        Operand::Reg(Reg8::A)
    }
}

pub open spec fn operand_value(s: CpuState, m: MmuState, o: Operand) -> u8 {
    match o {
        Operand::Reg(r) => s.reg(r),
        Operand::AtHl => m.read(s.hl),
    }
}

pub open spec fn with_operand(s: CpuState, m: MmuState, o: Operand, v: u8) -> (CpuState, MmuState) {
    match o {
        Operand::Reg(r) => (s.with_reg(r, v), m),
        Operand::AtHl => (s, m.write(s.hl, v)),
    }
}

/// Cycles of an operation whose memory-at-HL form costs `mem` and whose
/// register form costs `reg`.
pub open spec fn cost(o: Operand, reg: u16, mem: u16) -> u16 {
    if o is AtHl {
        mem
    } else {
        reg
    }
}

/// The address two bytes past `addr`, wrapping.
pub open spec fn skip2(addr: u16) -> u16 {
    next_addr(next_addr(addr))
}

/// `a + d` on 16 bits, wrapping.
pub open spec fn add16(a: u16, d: int) -> u16 {
    ((a as int + d) % 0x10000) as u16
}

/// The value of a displacement byte read as a signed two's-complement number.
pub open spec fn signed_offset(d: u8) -> int {
    if d < 128 {
        d as int
    } else {
        d as int - 256
    }
}

/// Whether adding `x` and `y` carries out of the low nibble.
pub open spec fn nibble_carry(x: u8, y: u8) -> bool {
    x % 16 + y % 16 > 15
}

/// Whether subtracting `y` from `x` borrows from the high nibble.
pub open spec fn nibble_borrow(x: u8, y: u8) -> bool {
    x % 16 < y % 16
}

/// The flags of `x - y`, as a subtraction or a comparison sets them.
pub open spec fn sub_flags(x: u8, y: u8) -> Flags {
    Flags { zero: x == y, sub: true, half_carry: nibble_borrow(x, y), carry: x < y }
}

/// The logical result flags: zero from the result, half-carry as given.
pub open spec fn logic_flags(r: u8, half_carry: bool) -> Flags {
    Flags { zero: r == 0, sub: false, half_carry, carry: false }
}

/// An 8-bit operation on the accumulator.
#[derive(Debug, Clone, Copy, PartialEq, Eq, Structural)]
pub enum AluOp {
    Add,
    Sub,
    And,
    Xor,
    Or,
    Cp,
}

/// The state after an accumulator operation with operand `v`.
pub open spec fn alu(s: CpuState, op: AluOp, v: u8) -> CpuState {
    let a = s.a;
    match op {
        AluOp::Add => s.with_reg(Reg8::A, ((a + v) % 256) as u8).with_flags(
            Flags {
                zero: (a + v) % 256 == 0,
                sub: false,
                half_carry: nibble_carry(a, v),
                carry: a + v > 0xFF,
            },
        ),
        AluOp::Sub => s.with_reg(Reg8::A, ((a - v) % 256) as u8).with_flags(sub_flags(a, v)),
        AluOp::And => s.with_reg(Reg8::A, a & v).with_flags(logic_flags(a & v, true)),
        AluOp::Xor => s.with_reg(Reg8::A, a ^ v).with_flags(logic_flags(a ^ v, false)),
        AluOp::Or => s.with_reg(Reg8::A, a | v).with_flags(logic_flags(a | v, false)),
        AluOp::Cp => s.with_flags(sub_flags(a, v)),
    }
}

/// INC r: carry kept.
pub open spec fn increment(s: CpuState, r: Reg8) -> CpuState {
    let v = s.reg(r);
    let res = ((v + 1) % 256) as u8;
    s.with_reg(r, res).with_flags(
        Flags { zero: res == 0, sub: false, half_carry: nibble_carry(v, 1), carry: s.flags.carry },
    )
}

/// DEC r: carry kept.
pub open spec fn decrement(s: CpuState, r: Reg8) -> CpuState {
    let v = s.reg(r);
    let res = ((v - 1) % 256) as u8;
    s.with_reg(r, res).with_flags(
        Flags { zero: res == 0, sub: true, half_carry: nibble_borrow(v, 1), carry: s.flags.carry },
    )
}

/// ADD HL,v: half-carry out of bit 11, carry out of bit 15, zero kept.
pub open spec fn add_to_hl(s: CpuState, v: u16) -> CpuState {
    let hl = s.hl;
    s.with_pair(Reg16::HL, ((hl + v) % 0x10000) as u16).with_flags(
        Flags {
            zero: s.flags.zero,
            sub: false,
            half_carry: hl % 0x1000 + v % 0x1000 > 0x0FFF,
            carry: hl + v > 0xFFFF,
        },
    )
}

/// PUSH: SP drops by two, then the word goes to memory at the new SP.
pub open spec fn push_word(s: CpuState, m: MmuState, v: u16) -> (CpuState, MmuState) {
    let sp = add16(s.sp, -2);
    (s.with_pair(Reg16::SP, sp), with_word(m, sp, v))
}

/// POP: the word at SP, and the state with SP raised by two.
pub open spec fn pop_word(s: CpuState, m: MmuState) -> (u16, CpuState) {
    (word_at(m, s.sp), s.with_pair(Reg16::SP, add16(s.sp, 2)))
}

/// The state after fetching an instruction's byte: PC past it.
pub open spec fn fetched(s: CpuState) -> CpuState {
    s.with_pc(next_addr(s.pc))
}

// In the functions below `s` is the state after the opcode was fetched: PC
// points at the instruction's first operand byte.

/// LD r,n
pub open spec fn load_imm8(s: CpuState, m: MmuState, r: Reg8) -> Transition {
    Transition { cpu: fetched(s).with_reg(r, m.read(s.pc)), mem: m, cycles: 8 }
}

/// LD rr,nn
pub open spec fn load_imm16(s: CpuState, m: MmuState, p: Reg16) -> Transition {
    Transition { cpu: s.with_pc(skip2(s.pc)).with_pair(p, word_at(m, s.pc)), mem: m, cycles: 12 }
}

/// LD r,r'
pub open spec fn load_reg(s: CpuState, dst: Reg8, src: Reg8) -> CpuState {
    s.with_reg(dst, s.reg(src))
}

/// LD r,(HL)
pub open spec fn load_from_hl(s: CpuState, m: MmuState, dst: Reg8) -> Transition {
    Transition { cpu: s.with_reg(dst, m.read(s.hl)), mem: m, cycles: 8 }
}

/// LD (HL),r
pub open spec fn store_to_hl(s: CpuState, m: MmuState, src: Reg8) -> Transition {
    Transition { cpu: s, mem: m.write(s.hl, s.reg(src)), cycles: 8 }
}

/// LD (HL),n
pub open spec fn store_imm_to_hl(s: CpuState, m: MmuState) -> Transition {
    Transition { cpu: fetched(s), mem: m.write(s.hl, m.read(s.pc)), cycles: 12 }
}

/// LD A,(rr)
pub open spec fn load_a_from(s: CpuState, m: MmuState, addr: u16) -> Transition {
    Transition { cpu: s.with_reg(Reg8::A, m.read(addr)), mem: m, cycles: 8 }
}

/// LD (rr),A
pub open spec fn store_a_to(s: CpuState, m: MmuState, addr: u16) -> Transition {
    Transition { cpu: s, mem: m.write(addr, s.a), cycles: 8 }
}

/// LD (HL+),A and LD (HL-),A: store A at HL, then step HL by `d`.
pub open spec fn store_a_step_hl(s: CpuState, m: MmuState, d: int) -> Transition {
    Transition { cpu: s.with_pair(Reg16::HL, add16(s.hl, d)), mem: m.write(s.hl, s.a), cycles: 8 }
}

/// LD A,(HL+) and LD A,(HL-): load A from HL, then step HL by `d`.
pub open spec fn load_a_step_hl(s: CpuState, m: MmuState, d: int) -> Transition {
    Transition {
        cpu: s.with_reg(Reg8::A, m.read(s.hl)).with_pair(Reg16::HL, add16(s.hl, d)),
        mem: m,
        cycles: 8,
    }
}

/// An accumulator operation on the operand that the opcode's low bits select.
pub open spec fn alu_operand(s: CpuState, m: MmuState, op: AluOp, opcode: u8) -> Transition {
    let o = operand_of(opcode);
    Transition { cpu: alu(s, op, operand_value(s, m, o)), mem: m, cycles: cost(o, 4, 8) }
}

/// JR cc,n: the displacement counts from the byte after it.
pub open spec fn jump_relative(s: CpuState, m: MmuState, cond: bool) -> Transition {
    let after = next_addr(s.pc);
    if cond {
        Transition {
            cpu: s.with_pc(add16(after, signed_offset(m.read(s.pc)))),
            mem: m,
            cycles: 12,
        }
    } else {
        Transition { cpu: s.with_pc(after), mem: m, cycles: 8 }
    }
}

/// JP cc,nn
pub open spec fn jump_absolute(s: CpuState, m: MmuState, cond: bool) -> Transition {
    if cond {
        Transition { cpu: s.with_pc(word_at(m, s.pc)), mem: m, cycles: 16 }
    } else {
        Transition { cpu: s.with_pc(skip2(s.pc)), mem: m, cycles: 12 }
    }
}

/// CALL cc,nn: push the address after the instruction, then jump.
pub open spec fn call_absolute(s: CpuState, m: MmuState, cond: bool) -> Transition {
    if cond {
        let back = skip2(s.pc);
        let (s2, m2) = push_word(s.with_pc(back), m, back);
        Transition { cpu: s2.with_pc(word_at(m, s.pc)), mem: m2, cycles: 24 }
    } else {
        Transition { cpu: s.with_pc(skip2(s.pc)), mem: m, cycles: 12 }
    }
}

/// RET cc: pop the return address.
pub open spec fn return_from(s: CpuState, m: MmuState, cond: bool) -> Transition {
    if cond {
        let (addr, s2) = pop_word(s, m);
        Transition { cpu: s2.with_pc(addr), mem: m, cycles: 16 }
    } else {
        Transition { cpu: s, mem: m, cycles: 8 }
    }
}

/// PUSH rr
pub open spec fn push_pair(s: CpuState, m: MmuState, p: Reg16) -> Transition {
    let (s2, m2) = push_word(s, m, s.pair(p));
    Transition { cpu: s2, mem: m2, cycles: 16 }
}

/// POP rr
pub open spec fn pop_pair(s: CpuState, m: MmuState, p: Reg16) -> Transition {
    let (v, s2) = pop_word(s, m);
    Transition { cpu: s2.with_pair(p, v), mem: m, cycles: 12 }
}

/// A transition that changes only the processor.
pub open spec fn only_cpu(s: CpuState, m: MmuState, cycles: u16) -> Transition {
    Transition { cpu: s, mem: m, cycles }
}

/// LD between the operands that the opcode's bits 5-3 (destination) and
/// 2-0 (source) select; `None` for the memory-to-memory slot.
pub open spec fn load_operands(s: CpuState, m: MmuState, opcode: u8) -> Option<Transition> {
    let dst = operand_of(opcode / 8);
    let src = operand_of(opcode);
    match (dst, src) {
        (Operand::Reg(d), Operand::Reg(r)) => Some(only_cpu(load_reg(s, d, r), m, 4)),
        (Operand::Reg(d), Operand::AtHl) => Some(load_from_hl(s, m, d)),
        (Operand::AtHl, Operand::Reg(r)) => Some(store_to_hl(s, m, r)),
        (Operand::AtHl, Operand::AtHl) => None,
    }
}

/// The main opcode table. `s` is the state after the opcode was fetched;
/// `None` marks an opcode without a handler.
#[verifier::opaque]
pub open spec fn primary(opcode: u8, s: CpuState, m: MmuState) -> Option<Transition> {
    let z = s.flags.zero;
    let c = s.flags.carry;
    if 0x40 <= opcode < 0x80 {
        load_operands(s, m, opcode)
    } else if 0x80 <= opcode < 0xC0 {
        match alu_of(opcode) {
            Some(op) => Some(alu_operand(s, m, op, opcode)),
            None => None,
        }
    } else {
        primary_single(opcode, s, m)
    }
}

/// The accumulator operation that an opcode of `0x80..=0xBF` names by its
/// bits 5-3; `None` for the two with carry in, which have no handler.
pub open spec fn alu_of(opcode: u8) -> Option<AluOp> {
    let k = (opcode / 8) % 8;
    if k == 0 {
        Some(AluOp::Add)
    } else if k == 2 {
        Some(AluOp::Sub)
    } else if k == 4 {
        Some(AluOp::And)
    } else if k == 5 {
        Some(AluOp::Xor)
    } else if k == 6 {
        Some(AluOp::Or)
    } else if k == 7 {
        Some(AluOp::Cp)
    } else {
        None
    }
}

/// The opcodes of the main table outside the load and accumulator blocks.
#[verifier::opaque]
pub open spec fn primary_single(opcode: u8, s: CpuState, m: MmuState) -> Option<Transition> {
    if opcode < 0x20 {
        primary_low(opcode, s, m)
    } else if opcode < 0x40 {
        primary_mid(opcode, s, m)
    } else {
        primary_high(opcode, s, m)
    }
}

/// Main-table opcodes `0x00..=0x1F`.
#[verifier::opaque]
pub open spec fn primary_low(opcode: u8, s: CpuState, m: MmuState) -> Option<Transition> {
    match opcode {
        0x00 => Some(only_cpu(s, m, 4)),
        0x01 => Some(load_imm16(s, m, Reg16::BC)),
        0x11 => Some(load_imm16(s, m, Reg16::DE)),
        0x02 => Some(store_a_to(s, m, s.bc)),
        0x12 => Some(store_a_to(s, m, s.de)),
        0x0A => Some(load_a_from(s, m, s.bc)),
        0x1A => Some(load_a_from(s, m, s.de)),
        0x03 => Some(only_cpu(s.with_pair(Reg16::BC, add16(s.bc, 1)), m, 8)),
        0x04 => Some(only_cpu(increment(s, Reg8::B), m, 4)),
        0x0C => Some(only_cpu(increment(s, Reg8::C), m, 4)),
        0x14 => Some(only_cpu(increment(s, Reg8::D), m, 4)),
        0x1C => Some(only_cpu(increment(s, Reg8::E), m, 4)),
        0x05 => Some(only_cpu(decrement(s, Reg8::B), m, 4)),
        0x0D => Some(only_cpu(decrement(s, Reg8::C), m, 4)),
        0x15 => Some(only_cpu(decrement(s, Reg8::D), m, 4)),
        0x1D => Some(only_cpu(decrement(s, Reg8::E), m, 4)),
        0x06 => Some(load_imm8(s, m, Reg8::B)),
        0x0E => Some(load_imm8(s, m, Reg8::C)),
        0x16 => Some(load_imm8(s, m, Reg8::D)),
        0x1E => Some(load_imm8(s, m, Reg8::E)),
        0x09 => Some(only_cpu(add_to_hl(s, s.bc), m, 8)),
        0x19 => Some(only_cpu(add_to_hl(s, s.de), m, 8)),
        0x18 => Some(jump_relative(s, m, true)),
        _ => None,
    }
}

/// Main-table opcodes `0x20..=0x3F`.
#[verifier::opaque]
pub open spec fn primary_mid(opcode: u8, s: CpuState, m: MmuState) -> Option<Transition> {
    let z = s.flags.zero;
    let c = s.flags.carry;
    match opcode {
        0x21 => Some(load_imm16(s, m, Reg16::HL)),
        0x31 => Some(load_imm16(s, m, Reg16::SP)),
        0x22 => Some(store_a_step_hl(s, m, 1)),
        0x32 => Some(store_a_step_hl(s, m, -1)),
        0x2A => Some(load_a_step_hl(s, m, 1)),
        0x3A => Some(load_a_step_hl(s, m, -1)),
        0x36 => Some(store_imm_to_hl(s, m)),
        0x24 => Some(only_cpu(increment(s, Reg8::H), m, 4)),
        0x2C => Some(only_cpu(increment(s, Reg8::L), m, 4)),
        0x3C => Some(only_cpu(increment(s, Reg8::A), m, 4)),
        0x25 => Some(only_cpu(decrement(s, Reg8::H), m, 4)),
        0x2D => Some(only_cpu(decrement(s, Reg8::L), m, 4)),
        0x3D => Some(only_cpu(decrement(s, Reg8::A), m, 4)),
        0x26 => Some(load_imm8(s, m, Reg8::H)),
        0x2E => Some(load_imm8(s, m, Reg8::L)),
        0x3E => Some(load_imm8(s, m, Reg8::A)),
        0x29 => Some(only_cpu(add_to_hl(s, s.hl), m, 8)),
        0x39 => Some(only_cpu(add_to_hl(s, s.sp), m, 8)),
        0x20 => Some(jump_relative(s, m, !z)),
        0x28 => Some(jump_relative(s, m, z)),
        0x30 => Some(jump_relative(s, m, !c)),
        0x38 => Some(jump_relative(s, m, c)),
        _ => None,
    }
}

/// Main-table opcodes `0xC0..=0xFF`: jumps, calls, returns, the stack and
/// the interrupt latch.
#[verifier::opaque]
pub open spec fn primary_high(opcode: u8, s: CpuState, m: MmuState) -> Option<Transition> {
    let z = s.flags.zero;
    match opcode {
        0xC0 => Some(return_from(s, m, !z)),
        0xC8 => Some(return_from(s, m, z)),
        0xC9 => Some(return_from(s, m, true)),
        0xC2 => Some(jump_absolute(s, m, !z)),
        0xC3 => Some(jump_absolute(s, m, true)),
        0xCA => Some(jump_absolute(s, m, z)),
        0xC4 => Some(call_absolute(s, m, !z)),
        0xCC => Some(call_absolute(s, m, z)),
        0xCD => Some(call_absolute(s, m, true)),
        0xC1 => Some(pop_pair(s, m, Reg16::BC)),
        0xD1 => Some(pop_pair(s, m, Reg16::DE)),
        0xE1 => Some(pop_pair(s, m, Reg16::HL)),
        0xF1 => Some(pop_pair(s, m, Reg16::AF)),
        0xC5 => Some(push_pair(s, m, Reg16::BC)),
        0xD5 => Some(push_pair(s, m, Reg16::DE)),
        0xE5 => Some(push_pair(s, m, Reg16::HL)),
        0xF5 => Some(push_pair(s, m, Reg16::AF)),
        0xF3 => Some(only_cpu(CpuState { ime: false, ..s }, m, 4)),
        0xFB => Some(only_cpu(CpuState { ime: true, ..s }, m, 4)),
        _ => None,
    }
}

/// RLC: rotate left, bit 7 into both bit 0 and carry.
pub open spec fn rotate_left(v: u8) -> u8 {
    ((v * 2) % 256 + v / 128) as u8
}

/// The `0xCB` table. `s` is the state after both bytes were fetched and
/// `opcode` is the second byte; `None` marks an opcode without a handler.
#[verifier::opaque]
pub open spec fn secondary(opcode: u8, s: CpuState, m: MmuState) -> Option<Transition> {
    let o = operand_of(opcode);
    let v = operand_value(s, m, o);
    let bit = ((opcode / 8) % 8) as u8;
    if opcode <= 0x07 {
        let r = rotate_left(v);
        let f = Flags { zero: r == 0, sub: false, half_carry: false, carry: v >= 128 };
        let (s2, m2) = with_operand(s.with_flags(f), m, o, r);
        Some(Transition { cpu: s2, mem: m2, cycles: cost(o, 8, 16) })
    } else if opcode < 0x40 {
        None
    } else if opcode < 0x80 {
        let f = Flags {
            zero: v & (1u8 << bit) == 0,
            sub: false,
            half_carry: true,
            carry: s.flags.carry,
        };
        Some(Transition { cpu: s.with_flags(f), mem: m, cycles: cost(o, 8, 12) })
    } else {
        let r = if opcode >= 0xC0 {
            v | (1u8 << bit)
        } else {
            v & !(1u8 << bit)
        };
        let (s2, m2) = with_operand(s, m, o, r);
        Some(Transition { cpu: s2, mem: m2, cycles: cost(o, 8, 16) })
    }
}

/// One instruction: fetch the opcode at PC, then run it from the main table
/// or, after a `0xCB` prefix, from the second table. An opcode without a
/// handler leaves the machine as it was and reports the fault.
#[verifier::opaque]
pub open spec fn execute(s: CpuState, m: MmuState) -> Result<Transition, UnimplementedInstruction> {
    let opcode = m.read(s.pc);
    let s1 = fetched(s);
    if opcode == 0xCB {
        let second = m.read(s1.pc);
        match secondary(second, fetched(s1), m) {
            Some(t) => Ok(t),
            None => Err(UnimplementedInstruction { opcode: second, prefixed: true, pc: s.pc }),
        }
    } else {
        match primary(opcode, s1, m) {
            Some(t) => Ok(t),
            None => Err(UnimplementedInstruction { opcode, prefixed: false, pc: s.pc }),
        }
    }
}

/// Whether a run that returned `r` and left `(s1, m1)` from `(s0, m0)`
/// followed the table entry `t`: the entry's state and cycles, or, where the
/// table has no entry, no result and nothing changed.
pub open spec fn follows(
    t: Option<Transition>,
    r: Option<u16>,
    s0: CpuState,
    m0: MmuState,
    s1: CpuState,
    m1: MmuState,
) -> bool {
    match t {
        Some(t) => r == Some(t.cycles) && s1 == t.cpu && m1 == t.mem,
        None => r is None && s1 == s0 && m1 == m0,
    }
}

/// Whether a step that returned `r` and left `(s1, m1)` from `(s0, m0)`
/// did what `execute` says.
pub open spec fn stepped(
    r: Result<u16, UnimplementedInstruction>,
    s0: CpuState,
    m0: MmuState,
    s1: CpuState,
    m1: MmuState,
) -> bool {
    match execute(s0, m0) {
        Ok(t) => r == Result::<u16, UnimplementedInstruction>::Ok(t.cycles) && s1 == t.cpu && m1
            == t.mem,
        Err(e) => r == Result::<u16, UnimplementedInstruction>::Err(e) && s1 == s0 && m1 == m0,
    }
}

/// Whether adding `x` and `y` carries out of bit 3.
pub fn half_carry_add(x: u8, y: u8) -> (r: bool)
    ensures
        r == nibble_carry(x, y),
{
    let lx = x & 0x0F;
    let ly = y & 0x0F;
    assert(lx < 16 && ly < 16 && lx == x % 16 && ly == y % 16) by (bit_vector)
        requires
            lx == x & 0x0F,
            ly == y & 0x0F,
    ;
    let sum = lx + ly;
    let r = sum & 0x10 == 0x10;
    assert(r == (sum >= 16)) by (bit_vector)
        requires
            sum < 32,
            r == (sum & 0x10 == 0x10),
    ;
    r
}

/// Whether subtracting `y` from `x` borrows into bit 3.
pub fn half_carry_sub(x: u8, y: u8) -> (r: bool)
    ensures
        r == nibble_borrow(x, y),
{
    let r = (x & 0x0F) < (y & 0x0F);
    assert(r == (x % 16 < y % 16)) by (bit_vector)
        requires
            r == ((x & 0x0F) < (y & 0x0F)),
    ;
    r
}

fn decode_operand(bits: u8) -> (o: Operand)
    ensures
        o == operand_of(bits),
{
    match bits % 8 {
        0 => Operand::Reg(Reg8::B),
        1 => Operand::Reg(Reg8::C),
        2 => Operand::Reg(Reg8::D),
        3 => Operand::Reg(Reg8::E),
        4 => Operand::Reg(Reg8::H),
        5 => Operand::Reg(Reg8::L),
        6 => Operand::AtHl,
        _ => Operand::Reg(Reg8::A),
    }
}

fn read_operand(cpu: &LR35902, bus: &Bus, o: Operand) -> (v: u8)
    ensures
        v == operand_value(cpu@, bus@, o),
{
    match o {
        Operand::Reg(r) => cpu.get_reg(r),
        Operand::AtHl => bus.read_byte(cpu.get_hl()),
    }
}

fn write_operand(cpu: &mut LR35902, bus: &mut Bus, o: Operand, v: u8)
    ensures
        (final(cpu)@, final(bus)@) == with_operand(old(cpu)@, old(bus)@, o, v),
{
    match o {
        Operand::Reg(r) => cpu.set_reg(r, v),
        Operand::AtHl => bus.write_byte(cpu.get_hl(), v),
    }
}

fn operand_cost(o: Operand, reg: u16, mem: u16) -> (c: u16)
    ensures
        c == cost(o, reg, mem),
{
    match o {
        Operand::Reg(_) => reg,
        Operand::AtHl => mem,
    }
}

/// Reads the byte at PC and advances PC past it.
fn fetch(cpu: &mut LR35902, bus: &Bus) -> (v: u8)
    ensures
        v == bus@.read(old(cpu)@.pc),
        final(cpu)@ == fetched(old(cpu)@),
{
    let v = bus.read_byte(cpu.get_pc());
    cpu.inc_pc();
    v
}

/// Reads the little-endian word at PC and advances PC past it.
fn fetch_word(cpu: &mut LR35902, bus: &Bus) -> (v: u16)
    ensures
        v == word_at(bus@, old(cpu)@.pc),
        final(cpu)@ == old(cpu)@.with_pc(skip2(old(cpu)@.pc)),
{
    let v = bus.read_word(cpu.get_pc());
    cpu.inc_pc();
    cpu.inc_pc();
    v
}

fn ld_r_n(cpu: &mut LR35902, bus: &Bus, r: Reg8) -> (c: u16)
    ensures
        (Transition { cpu: final(cpu)@, mem: bus@, cycles: c }) == load_imm8(old(cpu)@, bus@, r),
{
    let value = fetch(cpu, bus);
    cpu.set_reg(r, value);
    8
}

fn ld_r_r(cpu: &mut LR35902, dst: Reg8, src: Reg8) -> (c: u16)
    ensures
        final(cpu)@ == load_reg(old(cpu)@, dst, src),
        c == 4,
{
    let value = cpu.get_reg(src);
    cpu.set_reg(dst, value);
    4
}

fn ld_r_hl(cpu: &mut LR35902, bus: &Bus, dst: Reg8) -> (c: u16)
    ensures
        (Transition { cpu: final(cpu)@, mem: bus@, cycles: c }) == load_from_hl(old(cpu)@, bus@, dst),
{
    let value = bus.read_byte(cpu.get_hl());
    cpu.set_reg(dst, value);
    8
}

fn ld_hl_r(cpu: &LR35902, bus: &mut Bus, src: Reg8) -> (c: u16)
    ensures
        (Transition { cpu: cpu@, mem: final(bus)@, cycles: c }) == store_to_hl(cpu@, old(bus)@, src),
{
    let value = cpu.get_reg(src);
    bus.write_byte(cpu.get_hl(), value);
    8
}

fn ld_rr_nn(cpu: &mut LR35902, bus: &Bus, p: Reg16) -> (c: u16)
    ensures
        (Transition { cpu: final(cpu)@, mem: bus@, cycles: c }) == load_imm16(old(cpu)@, bus@, p),
{
    let value = fetch_word(cpu, bus);
    cpu.set_pair(p, value);
    12
}

/// LD between the operands that the opcode's bits select; `None` for the
/// memory-to-memory slot.
fn ld_operands(cpu: &mut LR35902, bus: &mut Bus, opcode: u8) -> (r: Option<u16>)
    ensures
        follows(
            load_operands(old(cpu)@, old(bus)@, opcode),
            r,
            old(cpu)@,
            old(bus)@,
            final(cpu)@,
            final(bus)@,
        ),
{
    let dst = decode_operand(opcode / 8);
    let src = decode_operand(opcode);
    match (dst, src) {
        (Operand::Reg(d), Operand::Reg(s)) => Some(ld_r_r(cpu, d, s)),
        (Operand::Reg(d), Operand::AtHl) => Some(ld_r_hl(cpu, bus, d)),
        (Operand::AtHl, Operand::Reg(s)) => Some(ld_hl_r(cpu, bus, s)),
        (Operand::AtHl, Operand::AtHl) => None,
    }
}

fn add_a(cpu: &mut LR35902, value: u8)
    ensures
        final(cpu)@ == alu(old(cpu)@, AluOp::Add, value),
{
    let a = cpu.get_a();
    let result = a.wrapping_add(value);
    cpu.set_flags(
        Flags {
            zero: result == 0,
            sub: false,
            half_carry: half_carry_add(a, value),
            carry: (a as u16 + value as u16) > 0xFF,
        },
    );
    cpu.set_a(result);
}

fn sub_a(cpu: &mut LR35902, value: u8)
    ensures
        final(cpu)@ == alu(old(cpu)@, AluOp::Sub, value),
{
    let a = cpu.get_a();
    let result = a.wrapping_sub(value);
    cpu.set_flags(
        Flags {
            zero: result == 0,
            sub: true,
            half_carry: half_carry_sub(a, value),
            carry: a < value,
        },
    );
    cpu.set_a(result);
}

fn and_a(cpu: &mut LR35902, value: u8)
    ensures
        final(cpu)@ == alu(old(cpu)@, AluOp::And, value),
{
    let result = cpu.get_a() & value;
    cpu.set_flags(Flags { zero: result == 0, sub: false, half_carry: true, carry: false });
    cpu.set_a(result);
}

fn or_a(cpu: &mut LR35902, value: u8)
    ensures
        final(cpu)@ == alu(old(cpu)@, AluOp::Or, value),
{
    let result = cpu.get_a() | value;
    cpu.set_flags(Flags { zero: result == 0, sub: false, half_carry: false, carry: false });
    cpu.set_a(result);
}

fn xor_a(cpu: &mut LR35902, value: u8)
    ensures
        final(cpu)@ == alu(old(cpu)@, AluOp::Xor, value),
{
    let result = cpu.get_a() ^ value;
    cpu.set_flags(Flags { zero: result == 0, sub: false, half_carry: false, carry: false });
    cpu.set_a(result);
}

fn cp_a(cpu: &mut LR35902, value: u8)
    ensures
        final(cpu)@ == alu(old(cpu)@, AluOp::Cp, value),
{
    let a = cpu.get_a();
    cpu.set_flags(
        Flags {
            zero: a == value,
            sub: true,
            half_carry: half_carry_sub(a, value),
            carry: a < value,
        },
    );
}

fn decode_alu(opcode: u8) -> (r: Option<AluOp>)
    ensures
        r == alu_of(opcode),
{
    match (opcode / 8) % 8 {
        0 => Some(AluOp::Add),
        2 => Some(AluOp::Sub),
        4 => Some(AluOp::And),
        5 => Some(AluOp::Xor),
        6 => Some(AluOp::Or),
        7 => Some(AluOp::Cp),
        _ => None,
    }
}

/// An accumulator operation on the operand that the opcode's low bits select.
fn alu_r(cpu: &mut LR35902, bus: &Bus, op: AluOp, opcode: u8) -> (c: u16)
    ensures
        (Transition { cpu: final(cpu)@, mem: bus@, cycles: c }) == alu_operand(
            old(cpu)@,
            bus@,
            op,
            opcode,
        ),
{
    let o = decode_operand(opcode);
    let value = read_operand(cpu, bus, o);
    match op {
        AluOp::Add => add_a(cpu, value),
        AluOp::Sub => sub_a(cpu, value),
        AluOp::And => and_a(cpu, value),
        AluOp::Xor => xor_a(cpu, value),
        AluOp::Or => or_a(cpu, value),
        AluOp::Cp => cp_a(cpu, value),
    }
    operand_cost(o, 4, 8)
}

fn inc_r(cpu: &mut LR35902, r: Reg8) -> (c: u16)
    ensures
        final(cpu)@ == increment(old(cpu)@, r),
        c == 4,
{
    let value = cpu.get_reg(r);
    let result = value.wrapping_add(1);
    let carry = cpu.get_flags().carry;
    cpu.set_flags(
        Flags { zero: result == 0, sub: false, half_carry: half_carry_add(value, 1), carry },
    );
    cpu.set_reg(r, result);
    4
}

fn dec_r(cpu: &mut LR35902, r: Reg8) -> (c: u16)
    ensures
        final(cpu)@ == decrement(old(cpu)@, r),
        c == 4,
{
    let value = cpu.get_reg(r);
    let result = value.wrapping_sub(1);
    let carry = cpu.get_flags().carry;
    cpu.set_flags(
        Flags { zero: result == 0, sub: true, half_carry: half_carry_sub(value, 1), carry },
    );
    cpu.set_reg(r, result);
    4
}

fn add_hl(cpu: &mut LR35902, value: u16)
    ensures
        final(cpu)@ == add_to_hl(old(cpu)@, value),
{
    let hl = cpu.get_hl();
    let result = hl.wrapping_add(value);
    let lh = hl & 0x0FFF;
    let lv = value & 0x0FFF;
    assert(lh == hl % 0x1000 && lv == value % 0x1000) by (bit_vector)
        requires
            lh == hl & 0x0FFF,
            lv == value & 0x0FFF,
    ;
    let half_carry = lh + lv > 0x0FFF;
    let zero = cpu.get_flags().zero;
    cpu.set_flags(
        Flags { zero, sub: false, half_carry, carry: (hl as u32 + value as u32) > 0xFFFF },
    );
    cpu.set_hl(result);
}

fn jr_cc_n(cpu: &mut LR35902, bus: &Bus, condition: bool) -> (c: u16)
    ensures
        (Transition { cpu: final(cpu)@, mem: bus@, cycles: c }) == jump_relative(
            old(cpu)@,
            bus@,
            condition,
        ),
{
    let d = fetch(cpu, bus);
    if condition {
        let pc = cpu.get_pc();
        let target = if d < 128 {
            pc.wrapping_add(d as u16)
        } else {
            pc.wrapping_sub(256 - d as u16)
        };
        cpu.set_pc(target);
        12
    } else {
        8
    }
}

fn jp_cc_nn(cpu: &mut LR35902, bus: &Bus, condition: bool) -> (c: u16)
    ensures
        (Transition { cpu: final(cpu)@, mem: bus@, cycles: c }) == jump_absolute(
            old(cpu)@,
            bus@,
            condition,
        ),
{
    let addr = fetch_word(cpu, bus);
    if condition {
        cpu.set_pc(addr);
        16
    } else {
        12
    }
}

/// Pushes `value` onto the stack.
fn push(cpu: &mut LR35902, bus: &mut Bus, value: u16)
    ensures
        (final(cpu)@, final(bus)@) == push_word(old(cpu)@, old(bus)@, value),
{
    let sp = cpu.get_sp().wrapping_sub(2);
    cpu.set_sp(sp);
    bus.write_word(sp, value);
}

/// Pops a word from the stack.
fn pop(cpu: &mut LR35902, bus: &Bus) -> (v: u16)
    ensures
        (v, final(cpu)@) == pop_word(old(cpu)@, bus@),
{
    let sp = cpu.get_sp();
    let v = bus.read_word(sp);
    cpu.set_sp(sp.wrapping_add(2));
    v
}

fn call_nn(cpu: &mut LR35902, bus: &mut Bus) -> (c: u16)
    ensures
        (Transition { cpu: final(cpu)@, mem: final(bus)@, cycles: c }) == call_absolute(
            old(cpu)@,
            old(bus)@,
            true,
        ),
{
    let addr = fetch_word(cpu, bus);
    let back = cpu.get_pc();
    push(cpu, bus, back);
    cpu.set_pc(addr);
    24
}

fn call_cc_nn(cpu: &mut LR35902, bus: &mut Bus, condition: bool) -> (c: u16)
    ensures
        (Transition { cpu: final(cpu)@, mem: final(bus)@, cycles: c }) == call_absolute(
            old(cpu)@,
            old(bus)@,
            condition,
        ),
{
    if condition {
        call_nn(cpu, bus)
    } else {
        fetch_word(cpu, bus);
        12
    }
}

fn ret(cpu: &mut LR35902, bus: &Bus) -> (c: u16)
    ensures
        (Transition { cpu: final(cpu)@, mem: bus@, cycles: c }) == return_from(
            old(cpu)@,
            bus@,
            true,
        ),
{
    let addr = pop(cpu, bus);
    cpu.set_pc(addr);
    16
}

fn ret_cc(cpu: &mut LR35902, bus: &Bus, condition: bool) -> (c: u16)
    ensures
        (Transition { cpu: final(cpu)@, mem: bus@, cycles: c }) == return_from(
            old(cpu)@,
            bus@,
            condition,
        ),
{
    if condition {
        ret(cpu, bus)
    } else {
        8
    }
}

fn push_rr(cpu: &mut LR35902, bus: &mut Bus, p: Reg16) -> (c: u16)
    ensures
        (Transition { cpu: final(cpu)@, mem: final(bus)@, cycles: c }) == push_pair(
            old(cpu)@,
            old(bus)@,
            p,
        ),
{
    let value = cpu.get_pair(p);
    push(cpu, bus, value);
    16
}

fn pop_rr(cpu: &mut LR35902, bus: &Bus, p: Reg16) -> (c: u16)
    ensures
        (Transition { cpu: final(cpu)@, mem: bus@, cycles: c }) == pop_pair(old(cpu)@, bus@, p),
{
    let value = pop(cpu, bus);
    cpu.set_pair(p, value);
    12
}

/// Runs the main-table instruction `opcode`, already fetched.
fn dispatch(cpu: &mut LR35902, bus: &mut Bus, opcode: u8) -> (r: Option<u16>)
    ensures
        follows(
            primary(opcode, old(cpu)@, old(bus)@),
            r,
            old(cpu)@,
            old(bus)@,
            final(cpu)@,
            final(bus)@,
        ),
{
    proof {
        reveal(primary);
    }
    if 0x40 <= opcode && opcode < 0x80 {
        ld_operands(cpu, bus, opcode)
    } else if 0x80 <= opcode && opcode < 0xC0 {
        match decode_alu(opcode) {
            Some(op) => Some(alu_r(cpu, bus, op, opcode)),
            None => None,
        }
    } else {
        dispatch_single(cpu, bus, opcode)
    }
}

/// LD (rr),A
fn ld_indirect_a(cpu: &LR35902, bus: &mut Bus, addr: u16) -> (c: u16)
    ensures
        (Transition { cpu: cpu@, mem: final(bus)@, cycles: c }) == store_a_to(cpu@, old(bus)@, addr),
{
    bus.write_byte(addr, cpu.get_a());
    8
}

/// LD A,(rr)
fn ld_a_indirect(cpu: &mut LR35902, bus: &Bus, addr: u16) -> (c: u16)
    ensures
        (Transition { cpu: final(cpu)@, mem: bus@, cycles: c }) == load_a_from(old(cpu)@, bus@, addr),
{
    let a = bus.read_byte(addr);
    cpu.set_a(a);
    8
}

/// LD (HL+),A when `up`, else LD (HL-),A.
fn ld_hl_step_a(cpu: &mut LR35902, bus: &mut Bus, up: bool) -> (c: u16)
    ensures
        (Transition { cpu: final(cpu)@, mem: final(bus)@, cycles: c }) == store_a_step_hl(
            old(cpu)@,
            old(bus)@,
            if up {
                1
            } else {
                -1
            },
        ),
{
    let hl = cpu.get_hl();
    bus.write_byte(hl, cpu.get_a());
    cpu.set_hl(
        if up {
            hl.wrapping_add(1)
        } else {
            hl.wrapping_sub(1)
        },
    );
    8
}

/// LD A,(HL+) when `up`, else LD A,(HL-).
fn ld_a_hl_step(cpu: &mut LR35902, bus: &Bus, up: bool) -> (c: u16)
    ensures
        (Transition { cpu: final(cpu)@, mem: bus@, cycles: c }) == load_a_step_hl(
            old(cpu)@,
            bus@,
            if up {
                1
            } else {
                -1
            },
        ),
{
    let hl = cpu.get_hl();
    let a = bus.read_byte(hl);
    cpu.set_a(a);
    cpu.set_hl(
        if up {
            hl.wrapping_add(1)
        } else {
            hl.wrapping_sub(1)
        },
    );
    8
}

/// LD (HL),n
fn ld_hl_n(cpu: &mut LR35902, bus: &mut Bus) -> (c: u16)
    ensures
        (Transition { cpu: final(cpu)@, mem: final(bus)@, cycles: c }) == store_imm_to_hl(
            old(cpu)@,
            old(bus)@,
        ),
{
    let value = fetch(cpu, bus);
    bus.write_byte(cpu.get_hl(), value);
    12
}

/// ADD HL,rr
fn add_hl_rr(cpu: &mut LR35902, p: Reg16) -> (c: u16)
    ensures
        final(cpu)@ == add_to_hl(old(cpu)@, old(cpu)@.pair(p)),
        c == 8,
{
    let value = cpu.get_pair(p);
    add_hl(cpu, value);
    8
}

/// INC BC
fn inc_bc(cpu: &mut LR35902) -> (c: u16)
    ensures
        final(cpu)@ == old(cpu)@.with_pair(Reg16::BC, add16(old(cpu)@.bc, 1)),
        c == 8,
{
    let bc = cpu.get_bc();
    cpu.set_bc(bc.wrapping_add(1));
    8
}

/// Runs an instruction of the main table outside its load and accumulator
/// blocks.
fn dispatch_single(cpu: &mut LR35902, bus: &mut Bus, opcode: u8) -> (r: Option<u16>)
    ensures
        follows(
            primary_single(opcode, old(cpu)@, old(bus)@),
            r,
            old(cpu)@,
            old(bus)@,
            final(cpu)@,
            final(bus)@,
        ),
{
    proof {
        reveal(primary_single);
    }
    if opcode < 0x20 {
        dispatch_low(cpu, bus, opcode)
    } else if opcode < 0x40 {
        dispatch_mid(cpu, bus, opcode)
    } else {
        dispatch_high(cpu, bus, opcode)
    }
}

fn dispatch_low(cpu: &mut LR35902, bus: &mut Bus, opcode: u8) -> (r: Option<u16>)
    ensures
        follows(
            primary_low(opcode, old(cpu)@, old(bus)@),
            r,
            old(cpu)@,
            old(bus)@,
            final(cpu)@,
            final(bus)@,
        ),
{
    proof {
        reveal(primary_low);
    }
    match opcode {
        0x00 => Some(4),
        0x01 => Some(ld_rr_nn(cpu, bus, Reg16::BC)),
        0x11 => Some(ld_rr_nn(cpu, bus, Reg16::DE)),
        0x02 => Some(ld_indirect_a(cpu, bus, cpu.get_bc())),
        0x12 => Some(ld_indirect_a(cpu, bus, cpu.get_de())),
        0x0A => Some(ld_a_indirect(cpu, bus, cpu.get_bc())),
        0x1A => Some(ld_a_indirect(cpu, bus, cpu.get_de())),
        0x03 => Some(inc_bc(cpu)),
        0x04 => Some(inc_r(cpu, Reg8::B)),
        0x0C => Some(inc_r(cpu, Reg8::C)),
        0x14 => Some(inc_r(cpu, Reg8::D)),
        0x1C => Some(inc_r(cpu, Reg8::E)),
        0x05 => Some(dec_r(cpu, Reg8::B)),
        0x0D => Some(dec_r(cpu, Reg8::C)),
        0x15 => Some(dec_r(cpu, Reg8::D)),
        0x1D => Some(dec_r(cpu, Reg8::E)),
        0x06 => Some(ld_r_n(cpu, bus, Reg8::B)),
        0x0E => Some(ld_r_n(cpu, bus, Reg8::C)),
        0x16 => Some(ld_r_n(cpu, bus, Reg8::D)),
        0x1E => Some(ld_r_n(cpu, bus, Reg8::E)),
        0x09 => Some(add_hl_rr(cpu, Reg16::BC)),
        0x19 => Some(add_hl_rr(cpu, Reg16::DE)),
        0x18 => Some(jr_cc_n(cpu, bus, true)),
        _ => None,
    }
}

fn dispatch_mid(cpu: &mut LR35902, bus: &mut Bus, opcode: u8) -> (r: Option<u16>)
    ensures
        follows(
            primary_mid(opcode, old(cpu)@, old(bus)@),
            r,
            old(cpu)@,
            old(bus)@,
            final(cpu)@,
            final(bus)@,
        ),
{
    proof {
        reveal(primary_mid);
    }
    let z = cpu.get_flags().zero;
    let c = cpu.get_flags().carry;
    match opcode {
        0x21 => Some(ld_rr_nn(cpu, bus, Reg16::HL)),
        0x31 => Some(ld_rr_nn(cpu, bus, Reg16::SP)),
        0x22 => Some(ld_hl_step_a(cpu, bus, true)),
        0x32 => Some(ld_hl_step_a(cpu, bus, false)),
        0x2A => Some(ld_a_hl_step(cpu, bus, true)),
        0x3A => Some(ld_a_hl_step(cpu, bus, false)),
        0x36 => Some(ld_hl_n(cpu, bus)),
        0x24 => Some(inc_r(cpu, Reg8::H)),
        0x2C => Some(inc_r(cpu, Reg8::L)),
        0x3C => Some(inc_r(cpu, Reg8::A)),
        0x25 => Some(dec_r(cpu, Reg8::H)),
        0x2D => Some(dec_r(cpu, Reg8::L)),
        0x3D => Some(dec_r(cpu, Reg8::A)),
        0x26 => Some(ld_r_n(cpu, bus, Reg8::H)),
        0x2E => Some(ld_r_n(cpu, bus, Reg8::L)),
        0x3E => Some(ld_r_n(cpu, bus, Reg8::A)),
        0x29 => Some(add_hl_rr(cpu, Reg16::HL)),
        0x39 => Some(add_hl_rr(cpu, Reg16::SP)),
        0x20 => Some(jr_cc_n(cpu, bus, !z)),
        0x28 => Some(jr_cc_n(cpu, bus, z)),
        0x30 => Some(jr_cc_n(cpu, bus, !c)),
        0x38 => Some(jr_cc_n(cpu, bus, c)),
        _ => None,
    }
}

fn dispatch_high(cpu: &mut LR35902, bus: &mut Bus, opcode: u8) -> (r: Option<u16>)
    ensures
        follows(
            primary_high(opcode, old(cpu)@, old(bus)@),
            r,
            old(cpu)@,
            old(bus)@,
            final(cpu)@,
            final(bus)@,
        ),
{
    proof {
        reveal(primary_high);
    }
    let z = cpu.get_flags().zero;
    match opcode {
        0xC0 => Some(ret_cc(cpu, bus, !z)),
        0xC8 => Some(ret_cc(cpu, bus, z)),
        0xC9 => Some(ret(cpu, bus)),
        0xC2 => Some(jp_cc_nn(cpu, bus, !z)),
        0xC3 => Some(jp_cc_nn(cpu, bus, true)),
        0xCA => Some(jp_cc_nn(cpu, bus, z)),
        0xC4 => Some(call_cc_nn(cpu, bus, !z)),
        0xCC => Some(call_cc_nn(cpu, bus, z)),
        0xCD => Some(call_nn(cpu, bus)),
        0xC1 => Some(pop_rr(cpu, bus, Reg16::BC)),
        0xD1 => Some(pop_rr(cpu, bus, Reg16::DE)),
        0xE1 => Some(pop_rr(cpu, bus, Reg16::HL)),
        0xF1 => Some(pop_rr(cpu, bus, Reg16::AF)),
        0xC5 => Some(push_rr(cpu, bus, Reg16::BC)),
        0xD5 => Some(push_rr(cpu, bus, Reg16::DE)),
        0xE5 => Some(push_rr(cpu, bus, Reg16::HL)),
        0xF5 => Some(push_rr(cpu, bus, Reg16::AF)),
        0xF3 => {
            cpu.set_ime(false);
            Some(4)
        },
        0xFB => {
            cpu.set_ime(true);
            Some(4)
        },
        _ => None,
    }
}

/// Runs an instruction of the `0xCB` table; the prefix has been fetched and
/// PC points at the second byte. Where that byte has no handler, nothing
/// changes.
fn call_alt(cpu: &mut LR35902, bus: &mut Bus) -> (r: Option<u16>)
    ensures
        follows(
            secondary(old(bus)@.read(old(cpu)@.pc), fetched(old(cpu)@), old(bus)@),
            r,
            old(cpu)@,
            old(bus)@,
            final(cpu)@,
            final(bus)@,
        ),
{
    proof {
        reveal(secondary);
    }
    let pc = cpu.get_pc();
    let opcode = fetch(cpu, bus);
    let o = decode_operand(opcode);
    if opcode <= 0x07 {
        let value = read_operand(cpu, bus, o);
        let carry = (value & 0x80) != 0;
        let result = (value << 1u8) | (if carry {
            1u8
        } else {
            0u8
        });
        assert(carry == (value >= 128) && result == rotate_left(value)) by (bit_vector)
            requires
                carry == ((value & 0x80) != 0),
                result == (value << 1u8) | (if carry {
                    1u8
                } else {
                    0u8
                }),
        ;
        cpu.set_flags(Flags { zero: result == 0, sub: false, half_carry: false, carry });
        write_operand(cpu, bus, o, result);
        Some(operand_cost(o, 8, 16))
    } else if opcode < 0x40 {
        cpu.set_pc(pc);
        None
    } else {
        let bit = (opcode >> 3u8) & 7;
        assert(bit == (opcode / 8) % 8) by (bit_vector)
            requires
                bit == (opcode >> 3u8) & 7,
        ;
        let value = read_operand(cpu, bus, o);
        if opcode < 0x80 {
            let set = isset_bit(bit as usize, value).unwrap();
            let carry = cpu.get_flags().carry;
            cpu.set_flags(Flags { zero: !set, sub: false, half_carry: true, carry });
            Some(operand_cost(o, 8, 12))
        } else {
            let result = if opcode >= 0xC0 {
                set_bit(bit as usize, value).unwrap()
            } else {
                unset_bit(bit as usize, value).unwrap()
            };
            write_operand(cpu, bus, o, result);
            Some(operand_cost(o, 8, 16))
        }
    }
}

/// Executes one instruction: fetches the opcode at PC and runs it, from the
/// `0xCB` table after that prefix. Returns the machine cycles taken, or, for
/// an opcode without a handler, the fault, with the processor and memory
/// left as they were.
pub fn call(cpu: &mut LR35902, bus: &mut Bus) -> (r: Result<u16, UnimplementedInstruction>)
    ensures
        stepped(r, old(cpu)@, old(bus)@, final(cpu)@, final(bus)@),
{
    proof {
        reveal(execute);
    }
    let pc = cpu.get_pc();
    let opcode = fetch(cpu, bus);
    let done = if opcode == 0xCB {
        call_alt(cpu, bus)
    } else {
        dispatch(cpu, bus, opcode)
    };
    match done {
        Some(cycles) => Ok(cycles),
        None => {
            cpu.set_pc(pc);
            if opcode == 0xCB {
                let second = bus.read_byte(pc.wrapping_add(1));
                Err(UnimplementedInstruction { opcode: second, prefixed: true, pc })
            } else {
                Err(UnimplementedInstruction { opcode, prefixed: false, pc })
            }
        },
    }
}

/// Pushing a word and popping it back restores SP and yields the word,
/// wherever the memory keeps the two bytes written to the stack: the push
/// lowers SP by two and leaves the low byte at the new SP and the high byte
/// just above it.
pub proof fn lemma_push_then_pop(s: CpuState, m: MmuState, v: u16)
    requires
        push_word(s, m, v).1.read(push_word(s, m, v).0.sp) == low_byte(v),
        push_word(s, m, v).1.read(next_addr(push_word(s, m, v).0.sp)) == high_byte(v),
    ensures
        push_word(s, m, v).0 == s.with_pair(Reg16::SP, add16(s.sp, -2)),
        pop_word(push_word(s, m, v).0, push_word(s, m, v).1) == (v, s),
{
    let (s1, m1) = push_word(s, m, v);
    assert(word_of(high_byte(v), low_byte(v)) == v);
    assert(add16(add16(s.sp, -2), 2) == s.sp);
}

/// On a controller-less cartridge whose RAM holds both stack slots, the
/// memory keeps what a push writes there, so a push followed by a pop
/// round-trips.
pub proof fn lemma_push_then_pop_in_ram(s: CpuState, rom: Seq<u8>, ram: Seq<u8>, v: u16)
    requires
        0xA002 <= s.sp,
        s.sp as int - 0xA000 <= ram.len(),
        s.sp <= 0xC000,
    ensures
        pop_word(
            push_word(s, MmuState::RomOnly(RomOnlyState { rom, ram }), v).0,
            push_word(s, MmuState::RomOnly(RomOnlyState { rom, ram }), v).1,
        ) == (v, s),
{
    let m = MmuState::RomOnly(RomOnlyState { rom, ram });
    let (s1, m1) = push_word(s, m, v);
    assert(s1.sp == s.sp - 2);
    assert(next_addr(s1.sp) == s.sp - 1);
    lemma_push_then_pop(s, m, v);
}

} // verus!

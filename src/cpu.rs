//! The LR35902 register file, its packed flag byte, and the processor
//! interface.

pub mod instructions;

use crate::bitwise::{get_least, get_most, high_byte, low_byte, set_least, set_most, word_of};
use crate::hardware::bus::{next_addr, Bus};
use crate::cpu::instructions::{call, stepped, UnimplementedInstruction};
use vstd::prelude::*;

verus! {

/// The four condition flags.
#[derive(Debug, Clone, Copy, PartialEq, Eq, Structural)]
pub struct Flags {
    pub zero: bool,
    pub sub: bool,
    pub half_carry: bool,
    pub carry: bool,
}

/// The flag byte: bit 7 zero, bit 6 subtract, bit 5 half-carry, bit 4 carry,
/// bits 3 to 0 always clear.
pub open spec fn pack_flags(f: Flags) -> u8 {
    ((if f.zero { 0x80int } else { 0 }) + (if f.sub { 0x40int } else { 0 }) + (if f.half_carry {
        0x20int
    } else {
        0
    }) + (if f.carry { 0x10int } else { 0 })) as u8
}

/// The flags that a flag byte holds; its low four bits are ignored.
pub open spec fn unpack_flags(b: u8) -> Flags {
    Flags {
        zero: b & 0x80 != 0,
        sub: b & 0x40 != 0,
        half_carry: b & 0x20 != 0,
        carry: b & 0x10 != 0,
    }
}

impl Flags {
    /// The packed flag byte.
    pub fn get_byte(&self) -> (r: u8)
        ensures
            r == pack_flags(*self),
    {
        let mut r: u8 = 0;
        if self.zero {
            r = r + 0x80;
        }
        if self.sub {
            r = r + 0x40;
        }
        if self.half_carry {
            r = r + 0x20;
        }
        if self.carry {
            r = r + 0x10;
        }
        r
    }

    /// Loads all four flags from a flag byte.
    pub fn set_byte(&mut self, to: u8)
        ensures
            *final(self) == unpack_flags(to),
    {
        self.zero = to & 0x80 != 0;
        self.sub = to & 0x40 != 0;
        self.half_carry = to & 0x20 != 0;
        self.carry = to & 0x10 != 0;
    }
}

/// Packing and unpacking the flags are inverse, and the packed byte's low
/// nibble is always clear.
pub proof fn lemma_flags_round_trip(f: Flags)
    ensures
        unpack_flags(pack_flags(f)) == f,
        pack_flags(f) & 0x0F == 0,
{
    let (z, n, h, c) = (f.zero, f.sub, f.half_carry, f.carry);
    let b = pack_flags(f);
    assert((b & 0x80 != 0 <==> z) && (b & 0x40 != 0 <==> n) && (b & 0x20 != 0 <==> h) && (b & 0x10
        != 0 <==> c) && b & 0x0F == 0) by (bit_vector)
        requires
            b == ((if z { 0x80int } else { 0 }) + (if n { 0x40int } else { 0 }) + (if h {
                0x20int
            } else {
                0
            }) + (if c { 0x10int } else { 0 })) as u8,
    ;
}

/// An 8-bit register.
#[derive(Debug, Clone, Copy, PartialEq, Eq, Structural)]
pub enum Reg8 {
    A,
    B,
    C,
    D,
    E,
    H,
    L,
}

/// A 16-bit register or register pair.
#[derive(Debug, Clone, Copy, PartialEq, Eq, Structural)]
pub enum Reg16 {
    AF,
    BC,
    DE,
    HL,
    SP,
}

/// Model of the processor's registers and interrupt latches.
pub struct CpuState {
    pub a: u8,
    pub flags: Flags,
    pub bc: u16,
    pub de: u16,
    pub hl: u16,
    pub sp: u16,
    pub pc: u16,
    pub if_reg: u8,
    pub ie_reg: u8,
    pub ime: bool,
}

impl CpuState {
    /// The value of an 8-bit register: the high or low byte of its pair.
    pub open spec fn reg(self, r: Reg8) -> u8 {
        match r {
            Reg8::A => self.a,
            Reg8::B => high_byte(self.bc),
            Reg8::C => low_byte(self.bc),
            Reg8::D => high_byte(self.de),
            Reg8::E => low_byte(self.de),
            Reg8::H => high_byte(self.hl),
            Reg8::L => low_byte(self.hl),
        }
    }

    /// The state with one 8-bit register replaced; the other byte of its
    /// pair is kept.
    pub open spec fn with_reg(self, r: Reg8, v: u8) -> CpuState {
        match r {
            Reg8::A => CpuState { a: v, ..self },
            Reg8::B => CpuState { bc: word_of(v, low_byte(self.bc)), ..self },
            Reg8::C => CpuState { bc: word_of(high_byte(self.bc), v), ..self },
            Reg8::D => CpuState { de: word_of(v, low_byte(self.de)), ..self },
            Reg8::E => CpuState { de: word_of(high_byte(self.de), v), ..self },
            Reg8::H => CpuState { hl: word_of(v, low_byte(self.hl)), ..self },
            Reg8::L => CpuState { hl: word_of(high_byte(self.hl), v), ..self },
        }
    }

    /// The packed flag register F.
    pub open spec fn f(self) -> u8 {
        pack_flags(self.flags)
    }

    /// The value of a 16-bit register; AF is A above the packed flags.
    pub open spec fn pair(self, r: Reg16) -> u16 {
        match r {
            Reg16::AF => word_of(self.a, self.f()),
            Reg16::BC => self.bc,
            Reg16::DE => self.de,
            Reg16::HL => self.hl,
            Reg16::SP => self.sp,
        }
    }

    /// The state with one 16-bit register replaced; writing AF loads A from
    /// the high byte and the flags from the low byte.
    pub open spec fn with_pair(self, r: Reg16, v: u16) -> CpuState {
        match r {
            Reg16::AF => CpuState { a: high_byte(v), flags: unpack_flags(low_byte(v)), ..self },
            Reg16::BC => CpuState { bc: v, ..self },
            Reg16::DE => CpuState { de: v, ..self },
            Reg16::HL => CpuState { hl: v, ..self },
            Reg16::SP => CpuState { sp: v, ..self },
        }
    }

    pub open spec fn with_flags(self, f: Flags) -> CpuState {
        CpuState { flags: f, ..self }
    }

    pub open spec fn with_pc(self, pc: u16) -> CpuState {
        CpuState { pc, ..self }
    }
}

/// The pair of bytes that two 8-bit registers form: B and C, D and E, H and L.
pub open spec fn is_pair(hi: Reg8, lo: Reg8) -> bool {
    ||| hi == Reg8::B && lo == Reg8::C
    ||| hi == Reg8::D && lo == Reg8::E
    ||| hi == Reg8::H && lo == Reg8::L
}

/// Setting an 8-bit register is seen by reading it back and by no other
/// 8-bit register; so setting the high then the low byte of a pair reads
/// back as both bytes, and the pair holds them as one word.
pub proof fn lemma_register_pairing(s: CpuState, r: Reg8, v: u8, q: Reg8, hi: Reg8, lo: Reg8, x: u8, y: u8)
    requires
        is_pair(hi, lo),
    ensures
        s.with_reg(r, v).reg(r) == v,
        q != r ==> s.with_reg(r, v).reg(q) == s.reg(q),
        s.with_reg(hi, x).with_reg(lo, y).reg(hi) == x,
        s.with_reg(hi, x).with_reg(lo, y).reg(lo) == y,
{
    lemma_word_bytes(x, y);
    lemma_word_bytes(v, low_byte(s.bc));
    lemma_word_bytes(high_byte(s.bc), v);
    lemma_word_bytes(v, low_byte(s.de));
    lemma_word_bytes(high_byte(s.de), v);
    lemma_word_bytes(v, low_byte(s.hl));
    lemma_word_bytes(high_byte(s.hl), v);
    lemma_word_bytes(x, low_byte(s.bc));
    lemma_word_bytes(x, low_byte(s.de));
    lemma_word_bytes(x, low_byte(s.hl));
}

/// A word built from two bytes gives them back.
pub proof fn lemma_word_bytes(hi: u8, lo: u8)
    ensures
        high_byte(word_of(hi, lo)) == hi,
        low_byte(word_of(hi, lo)) == lo,
{
}

/// The processor as a stepping machine over a bus.
pub trait GameboyCPU {
    /// Executes one instruction, returning the machine cycles it took, or
    /// the fault of an opcode without a handler.
    fn step(&mut self, bus: &mut Bus) -> Result<u16, UnimplementedInstruction>;
}

/// The Sharp LR35902 register file and interrupt latches.
pub struct LR35902 {
    a: u8,
    bc: u16,
    de: u16,
    hl: u16,
    sp: u16,
    pc: u16,
    if_reg: u8,
    ie_reg: u8,
    ime_reg: bool,
    flags: Flags,
}

impl View for LR35902 {
    type V = CpuState;

    closed spec fn view(&self) -> CpuState {
        CpuState {
            a: self.a,
            flags: self.flags,
            bc: self.bc,
            de: self.de,
            hl: self.hl,
            sp: self.sp,
            pc: self.pc,
            if_reg: self.if_reg,
            ie_reg: self.ie_reg,
            ime: self.ime_reg,
        }
    }
}

impl LR35902 {
    /// A processor with every register, latch and flag cleared.
    pub fn new() -> (r: LR35902)
        ensures
            r@ == (CpuState {
                a: 0,
                flags: Flags { zero: false, sub: false, half_carry: false, carry: false },
                bc: 0,
                de: 0,
                hl: 0,
                sp: 0,
                pc: 0,
                if_reg: 0,
                ie_reg: 0,
                ime: false,
            }),
    {
        LR35902 {
            a: 0,
            bc: 0,
            de: 0,
            hl: 0,
            sp: 0,
            pc: 0,
            if_reg: 0,
            ie_reg: 0,
            ime_reg: false,
            flags: Flags { zero: false, sub: false, half_carry: false, carry: false },
        }
    }

    pub fn get_a(&self) -> (r: u8)
        ensures
            r == self@.reg(Reg8::A),
    {
        self.a
    }

    pub fn set_a(&mut self, to: u8)
        ensures
            final(self)@ == old(self)@.with_reg(Reg8::A, to),
    {
        self.a = to;
    }

    pub fn get_f(&self) -> (r: u8)
        ensures
            r == self@.f(),
    {
        self.flags.get_byte()
    }

    pub fn set_f(&mut self, to: u8)
        ensures
            final(self)@ == old(self)@.with_flags(unpack_flags(to)),
    {
        self.flags.set_byte(to);
    }

    pub fn get_b(&self) -> (r: u8)
        ensures
            r == self@.reg(Reg8::B),
    {
        get_most(self.bc)
    }

    pub fn set_b(&mut self, to: u8)
        ensures
            final(self)@ == old(self)@.with_reg(Reg8::B, to),
    {
        self.bc = set_most(self.bc, to);
    }

    pub fn get_c(&self) -> (r: u8)
        ensures
            r == self@.reg(Reg8::C),
    {
        get_least(self.bc)
    }

    pub fn set_c(&mut self, to: u8)
        ensures
            final(self)@ == old(self)@.with_reg(Reg8::C, to),
    {
        self.bc = set_least(self.bc, to);
    }

    pub fn get_d(&self) -> (r: u8)
        ensures
            r == self@.reg(Reg8::D),
    {
        get_most(self.de)
    }

    pub fn set_d(&mut self, to: u8)
        ensures
            final(self)@ == old(self)@.with_reg(Reg8::D, to),
    {
        self.de = set_most(self.de, to);
    }

    pub fn get_e(&self) -> (r: u8)
        ensures
            r == self@.reg(Reg8::E),
    {
        get_least(self.de)
    }

    pub fn set_e(&mut self, to: u8)
        ensures
            final(self)@ == old(self)@.with_reg(Reg8::E, to),
    {
        self.de = set_least(self.de, to);
    }

    pub fn get_h(&self) -> (r: u8)
        ensures
            r == self@.reg(Reg8::H),
    {
        get_most(self.hl)
    }

    pub fn set_h(&mut self, to: u8)
        ensures
            final(self)@ == old(self)@.with_reg(Reg8::H, to),
    {
        self.hl = set_most(self.hl, to);
    }

    pub fn get_l(&self) -> (r: u8)
        ensures
            r == self@.reg(Reg8::L),
    {
        get_least(self.hl)
    }

    pub fn set_l(&mut self, to: u8)
        ensures
            final(self)@ == old(self)@.with_reg(Reg8::L, to),
    {
        self.hl = set_least(self.hl, to);
    }

    /// Reads any 8-bit register.
    pub fn get_reg(&self, r: Reg8) -> (v: u8)
        ensures
            v == self@.reg(r),
    {
        match r {
            Reg8::A => self.get_a(),
            Reg8::B => self.get_b(),
            Reg8::C => self.get_c(),
            Reg8::D => self.get_d(),
            Reg8::E => self.get_e(),
            Reg8::H => self.get_h(),
            Reg8::L => self.get_l(),
        }
    }

    /// Writes any 8-bit register.
    pub fn set_reg(&mut self, r: Reg8, to: u8)
        ensures
            final(self)@ == old(self)@.with_reg(r, to),
    {
        match r {
            Reg8::A => self.set_a(to),
            Reg8::B => self.set_b(to),
            Reg8::C => self.set_c(to),
            Reg8::D => self.set_d(to),
            Reg8::E => self.set_e(to),
            Reg8::H => self.set_h(to),
            Reg8::L => self.set_l(to),
        }
    }

    pub fn get_sp(&self) -> (r: u16)
        ensures
            r == self@.sp,
    {
        self.sp
    }

    pub fn set_sp(&mut self, to: u16)
        ensures
            final(self)@ == old(self)@.with_pair(Reg16::SP, to),
    {
        self.sp = to;
    }

    pub fn get_pc(&self) -> (r: u16)
        ensures
            r == self@.pc,
    {
        self.pc
    }

    pub fn set_pc(&mut self, to: u16)
        ensures
            final(self)@ == old(self)@.with_pc(to),
    {
        self.pc = to;
    }

    /// Advances PC by one, wrapping from `0xFFFF` to `0x0000`.
    pub fn inc_pc(&mut self)
        ensures
            final(self)@ == old(self)@.with_pc(next_addr(old(self)@.pc)),
    {
        self.pc = self.pc.wrapping_add(1);
    }

    /// Moves PC back by one, wrapping from `0x0000` to `0xFFFF`.
    pub fn dec_pc(&mut self)
        ensures
            final(self)@ == old(self)@.with_pc(((old(self)@.pc as int - 1) % 0x10000) as u16),
    {
        self.pc = self.pc.wrapping_sub(1);
    }

    pub fn get_hl(&self) -> (r: u16)
        ensures
            r == self@.hl,
    {
        self.hl
    }

    pub fn set_hl(&mut self, to: u16)
        ensures
            final(self)@ == old(self)@.with_pair(Reg16::HL, to),
    {
        self.hl = to;
    }

    pub fn get_de(&self) -> (r: u16)
        ensures
            r == self@.de,
    {
        self.de
    }

    pub fn set_de(&mut self, to: u16)
        ensures
            final(self)@ == old(self)@.with_pair(Reg16::DE, to),
    {
        self.de = to;
    }

    pub fn get_bc(&self) -> (r: u16)
        ensures
            r == self@.bc,
    {
        self.bc
    }

    pub fn set_bc(&mut self, to: u16)
        ensures
            final(self)@ == old(self)@.with_pair(Reg16::BC, to),
    {
        self.bc = to;
    }

    pub fn get_af(&self) -> (r: u16)
        ensures
            r == self@.pair(Reg16::AF),
    {
        let f = self.flags.get_byte();
        let r = (self.a as u16) << 8u16 | f as u16;
        let a = self.a;
        assert(r == word_of(a, f)) by (bit_vector)
            requires
                r == (a as u16) << 8u16 | f as u16,
        ;
        r
    }

    pub fn set_af(&mut self, to: u16)
        ensures
            final(self)@ == old(self)@.with_pair(Reg16::AF, to),
    {
        self.flags.set_byte(get_least(to));
        self.a = get_most(to);
    }

    /// Reads any 16-bit register.
    pub fn get_pair(&self, r: Reg16) -> (v: u16)
        ensures
            v == self@.pair(r),
    {
        match r {
            Reg16::AF => self.get_af(),
            Reg16::BC => self.get_bc(),
            Reg16::DE => self.get_de(),
            Reg16::HL => self.get_hl(),
            Reg16::SP => self.get_sp(),
        }
    }

    /// Writes any 16-bit register.
    pub fn set_pair(&mut self, r: Reg16, to: u16)
        ensures
            final(self)@ == old(self)@.with_pair(r, to),
    {
        match r {
            Reg16::AF => self.set_af(to),
            Reg16::BC => self.set_bc(to),
            Reg16::DE => self.set_de(to),
            Reg16::HL => self.set_hl(to),
            Reg16::SP => self.set_sp(to),
        }
    }

    /// The four condition flags.
    pub fn get_flags(&self) -> (r: Flags)
        ensures
            r == self@.flags,
    {
        self.flags
    }

    pub fn set_flags(&mut self, to: Flags)
        ensures
            final(self)@ == old(self)@.with_flags(to),
    {
        self.flags = to;
    }

    /// The interrupt master enable latch.
    pub fn get_ime(&self) -> (r: bool)
        ensures
            r == self@.ime,
    {
        self.ime_reg
    }

    pub fn set_ime(&mut self, to: bool)
        ensures
            final(self)@ == (CpuState { ime: to, ..old(self)@ }),
    {
        self.ime_reg = to;
    }
}

impl GameboyCPU for LR35902 {
    fn step(&mut self, bus: &mut Bus) -> (r: Result<u16, UnimplementedInstruction>)
        ensures
            stepped(r, old(self)@, old(bus)@, final(self)@, final(bus)@),
    {
        call(self, bus)
    }
}

} // verus!

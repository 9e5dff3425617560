//! The bus: byte and word access to the address space, with every decision
//! left to the cartridge's controller.
//!
//! Words are little-endian: the low byte sits at the lower address. A word at
//! `0xFFFF` wraps around, taking its high byte from `0x0000`.

use crate::bitwise::{high_byte, low_byte, word_of};
use crate::hardware::mmu::{MmuState, MMU};
use vstd::prelude::*;

verus! {

/// The address after `addr`, wrapping from `0xFFFF` to `0x0000`.
pub open spec fn next_addr(addr: u16) -> u16 {
    ((addr as int + 1) % 0x10000) as u16
}

/// The little-endian word that a read at `addr` sees in `m`.
pub open spec fn word_at(m: MmuState, addr: u16) -> u16 {
    word_of(m.read(next_addr(addr)), m.read(addr))
}

/// `m` after the little-endian word `value` is written at `addr`: the low
/// byte first, then the high byte at the next address.
pub open spec fn with_word(m: MmuState, addr: u16, value: u16) -> MmuState {
    m.write(addr, low_byte(value)).write(next_addr(addr), high_byte(value))
}

/// The processor's view of memory.
pub struct Bus {
    mmu: MMU,
}

impl View for Bus {
    type V = MmuState;

    closed spec fn view(&self) -> MmuState {
        self.mmu@
    }
}

impl Bus {
    pub fn new(mmu: MMU) -> (r: Bus)
        ensures
            r@ == mmu@,
    {
        Bus { mmu }
    }

    pub fn read_byte(&self, addr: u16) -> (r: u8)
        ensures
            r == self@.read(addr),
    {
        self.mmu.read(addr)
    }

    /// Same as `read_byte`.
    pub fn read_mem(&self, addr: u16) -> (r: u8)
        ensures
            r == self@.read(addr),
    {
        self.mmu.read(addr)
    }

    pub fn read_word(&self, addr: u16) -> (r: u16)
        ensures
            r == word_at(self@, addr),
    {
        let low = self.mmu.read(addr);
        let high = self.mmu.read(addr.wrapping_add(1));
        let r = (high as u16) << 8u16 | low as u16;
        assert(r == word_of(high, low)) by (bit_vector)
            requires
                r == (high as u16) << 8u16 | low as u16,
        ;
        r
    }

    pub fn write_byte(&mut self, addr: u16, value: u8)
        ensures
            final(self)@ == old(self)@.write(addr, value),
    {
        self.mmu.write(addr, value);
    }

    pub fn write_word(&mut self, addr: u16, value: u16)
        ensures
            final(self)@ == with_word(old(self)@, addr, value),
    {
        let low = value as u8;
        let high = (value >> 8u16) as u8;
        assert(low == low_byte(value) && high == high_byte(value)) by (bit_vector)
            requires
                low == value as u8,
                high == (value >> 8u16) as u8,
        ;
        self.mmu.write(addr, low);
        self.mmu.write(addr.wrapping_add(1), high);
    }
}

} // verus!

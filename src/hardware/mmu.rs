//! Memory bank controllers: how a cartridge maps its ROM and RAM onto the
//! processor's 16-bit address space.
//!
//! Every controller exposes fixed ROM bank 0 at `0x0000..=0x3FFF`, a
//! switchable ROM bank at `0x4000..=0x7FFF` and external RAM (or clock
//! registers) at `0xA000..=0xBFFF`. Writes into the ROM windows do not change
//! the ROM: they set the controller's bank registers.
//!
//! Any read that falls outside the controller's windows, or past the end of
//! the ROM or RAM buffer, returns the open-bus value `0xFF`; any such write is
//! ignored.

use crate::hardware::cartridge_reader::CartridgeInfo;
use vstd::prelude::*;

verus! {

/// The value read wherever nothing answers.
pub const OPEN_BUS: u8 = 0xFF;

/// The byte at `i` of `s`, or the open-bus value past its end.
pub open spec fn byte_at(s: Seq<u8>, i: int) -> u8 {
    if 0 <= i < s.len() {
        s[i]
    } else {
        OPEN_BUS
    }
}

/// `s` with the byte at `i` replaced, or `s` itself past its end.
pub open spec fn store(s: Seq<u8>, i: int, v: u8) -> Seq<u8> {
    if 0 <= i < s.len() {
        s.update(i, v)
    } else {
        s
    }
}

/// A buffer of `n` zero bytes.
pub open spec fn zeros(n: nat) -> Seq<u8> {
    Seq::new(n, |i: int| 0u8)
}

/// Whether a value written to `0x0000..=0x1FFF` opens external RAM.
pub open spec fn enables_ram(value: u8) -> bool {
    value & 0x0F == 0x0A
}

/// Offset of `addr` in the switchable ROM bank `bank`.
pub open spec fn rom_index(bank: int, addr: u16) -> int {
    bank * 0x4000 + (addr - 0x4000)
}

/// Offset of `addr` in the 8 KB RAM bank `bank`.
pub open spec fn ram_index(bank: int, addr: u16) -> int {
    bank * 0x2000 + (addr - 0xA000)
}

/// Bounds of the masks that select a controller register's bits.
proof fn lemma_mask_bounds(v: u8)
    ensures
        v & 0x01 < 0x02,
        v & 0x03 < 0x04,
        v & 0x0F < 0x10,
        v & 0x1F < 0x20,
        v & 0x7F < 0x80,
{
    assert(v & 0x01 < 0x02 && v & 0x03 < 0x04 && v & 0x0F < 0x10 && v & 0x1F < 0x20 && v & 0x7F
        < 0x80) by (bit_vector);
}

fn read_at(buf: &Vec<u8>, i: usize) -> (r: u8)
    ensures
        r == byte_at(buf@, i as int),
{
    if i < buf.len() {
        buf[i]
    } else {
        OPEN_BUS
    }
}

fn write_at(buf: &mut Vec<u8>, i: usize, v: u8)
    ensures
        final(buf)@ == store(old(buf)@, i as int, v),
    no_unwind
{
    if i < buf.len() {
        buf[i] = v;
    }
}

fn zeroed(n: usize) -> (r: Vec<u8>)
    ensures
        r@ == zeros(n as nat),
{
    let r = vec![0u8; n];
    assert(r@ =~= zeros(n as nat));
    r
}

/// The controller kind named by the cartridge type byte at `0x0147`.
#[derive(Debug, Clone, Copy, PartialEq, Eq, Structural)]
pub enum CartridgeType {
    RomOnly,
    MBC1,
    MBC1Ram,
    MBC1RamBattery,
    MBC2,
    MBC2Battery,
    MBC3,
    MBC3Ram,
    MBC3RamBattery,
    MBC3TimerBattery,
    MBC3TimerRamBattery,
    MBC5,
    MBC5Ram,
    MBC5RamBattery,
    Unsupported(u8),
}

/// The cartridge type that a header type byte denotes.
pub open spec fn cartridge_type_of(value: u8) -> CartridgeType {
    if value == 0x00 {
        CartridgeType::RomOnly
    } else if value == 0x01 {
        CartridgeType::MBC1
    } else if value == 0x02 {
        CartridgeType::MBC1Ram
    } else if value == 0x03 {
        CartridgeType::MBC1RamBattery
    } else if value == 0x05 {
        CartridgeType::MBC2
    } else if value == 0x06 {
        CartridgeType::MBC2Battery
    } else if value == 0x0F {
        CartridgeType::MBC3TimerBattery
    } else if value == 0x10 {
        CartridgeType::MBC3TimerRamBattery
    } else if value == 0x11 {
        CartridgeType::MBC3
    } else if value == 0x12 {
        CartridgeType::MBC3Ram
    } else if value == 0x13 {
        CartridgeType::MBC3RamBattery
    } else if value == 0x19 {
        CartridgeType::MBC5
    } else if value == 0x1A {
        CartridgeType::MBC5Ram
    } else if value == 0x1B {
        CartridgeType::MBC5RamBattery
    } else {
        CartridgeType::Unsupported(value)
    }
}

impl From<u8> for CartridgeType {
    fn from(value: u8) -> (r: CartridgeType)
        ensures
            r == cartridge_type_of(value),
    {
        match value {
            0x00 => CartridgeType::RomOnly,
            0x01 => CartridgeType::MBC1,
            0x02 => CartridgeType::MBC1Ram,
            0x03 => CartridgeType::MBC1RamBattery,
            0x05 => CartridgeType::MBC2,
            0x06 => CartridgeType::MBC2Battery,
            0x0F => CartridgeType::MBC3TimerBattery,
            0x10 => CartridgeType::MBC3TimerRamBattery,
            0x11 => CartridgeType::MBC3,
            0x12 => CartridgeType::MBC3Ram,
            0x13 => CartridgeType::MBC3RamBattery,
            0x19 => CartridgeType::MBC5,
            0x1A => CartridgeType::MBC5Ram,
            0x1B => CartridgeType::MBC5RamBattery,
            unknown => CartridgeType::Unsupported(unknown),
        }
    }
}

impl vstd::std_specs::convert::FromSpecImpl<u8> for CartridgeType {
    open spec fn obeys_from_spec() -> bool {
        true
    }

    open spec fn from_spec(v: u8) -> CartridgeType {
        cartridge_type_of(v)
    }
}

/// ROM size in bytes for the header code at `0x0148`: 32 KB for code 0,
/// doubling with each step up to 8 MB for code 8; other codes read as 32 KB.
pub open spec fn rom_size_of(code: u8) -> nat {
    if code <= 8 {
        0x8000 * vstd::arithmetic::power2::pow2(code as nat)
    } else {
        0x8000
    }
}

/// RAM size in bytes for the header code at `0x0149`; unknown codes mean no
/// RAM. The table is not monotonic: code 4 is 128 KB, code 5 is 64 KB.
pub open spec fn ram_size_of(code: u8) -> nat {
    if code == 1 {
        2 * 1024
    } else if code == 2 {
        8 * 1024
    } else if code == 3 {
        32 * 1024
    } else if code == 4 {
        128 * 1024
    } else if code == 5 {
        64 * 1024
    } else {
        0
    }
}

/// The ROM size in bytes that the header code `byte` declares.
pub fn get_rom_size(byte: u8) -> (r: usize)
    ensures
        r == rom_size_of(byte),
{
    proof {
        vstd::arithmetic::power2::lemma2_to64();
    }
    match byte {
        0x00 => 32 * 1024,
        0x01 => 64 * 1024,
        0x02 => 128 * 1024,
        0x03 => 256 * 1024,
        0x04 => 512 * 1024,
        0x05 => 1024 * 1024,
        0x06 => 2048 * 1024,
        0x07 => 4096 * 1024,
        0x08 => 8192 * 1024,
        _ => 32 * 1024,
    }
}

/// The RAM size in bytes that the header code `byte` declares.
pub fn get_ram_size(byte: u8) -> (r: usize)
    ensures
        r == ram_size_of(byte),
{
    match byte {
        0x01 => 2 * 1024,
        0x02 => 8 * 1024,
        0x03 => 32 * 1024,
        0x04 => 128 * 1024,
        0x05 => 64 * 1024,
        _ => 0,
    }
}

// ---------------------------------------------------------------------------
// No controller

/// Model of a cartridge without a controller: a flat 32 KB ROM and, if the
/// header asks for it, RAM mapped straight into `0xA000..=0xBFFF`.
pub struct RomOnlyState {
    pub rom: Seq<u8>,
    pub ram: Seq<u8>,
}

impl RomOnlyState {
    pub open spec fn read(self, addr: u16) -> u8 {
        if addr <= 0x7FFF {
            byte_at(self.rom, addr as int)
        } else if 0xA000 <= addr <= 0xBFFF {
            byte_at(self.ram, addr - 0xA000)
        } else {
            OPEN_BUS
        }
    }

    pub open spec fn write(self, addr: u16, value: u8) -> RomOnlyState {
        if 0xA000 <= addr <= 0xBFFF {
            RomOnlyState { ram: store(self.ram, addr - 0xA000, value), ..self }
        } else {
            self
        }
    }
}

/// A cartridge without a memory bank controller.
pub struct MBCNone {
    rom: Vec<u8>,
    ram: Vec<u8>,
}

impl View for MBCNone {
    type V = RomOnlyState;

    closed spec fn view(&self) -> RomOnlyState {
        RomOnlyState { rom: self.rom@, ram: self.ram@ }
    }
}

impl MBCNone {
    /// A cartridge over `rom` with `ram_size` bytes of zeroed RAM.
    pub fn new(rom: Vec<u8>, ram_size: usize) -> (r: MBCNone)
        ensures
            r@ == (RomOnlyState { rom: rom@, ram: zeros(ram_size as nat) }),
    {
        MBCNone { rom, ram: zeroed(ram_size) }
    }

    pub fn read(&self, addr: u16) -> (r: u8)
        ensures
            r == self@.read(addr),
    {
        if addr <= 0x7FFF {
            read_at(&self.rom, addr as usize)
        } else if 0xA000 <= addr && addr <= 0xBFFF {
            read_at(&self.ram, (addr - 0xA000) as usize)
        } else {
            OPEN_BUS
        }
    }

    pub fn write(&mut self, addr: u16, value: u8)
        ensures
            final(self)@ == old(self)@.write(addr, value),
    {
        if 0xA000 <= addr && addr <= 0xBFFF {
            write_at(&mut self.ram, (addr - 0xA000) as usize, value);
        }
    }
}

// ---------------------------------------------------------------------------
// MBC1

/// Model of an MBC1 controller.
///
/// `rom_bank` holds seven bits: the low five come from writes to
/// `0x2000..=0x3FFF` and are never zero, the high two from writes to
/// `0x4000..=0x5FFF` while in ROM banking mode. `ram_bank` takes those two
/// bits instead while in RAM banking mode (`mode` set).
pub struct Mbc1State {
    pub rom: Seq<u8>,
    pub ram: Seq<u8>,
    pub rom_bank: u8,
    pub ram_bank: u8,
    pub ram_enabled: bool,
    pub mode: bool,
}

impl Mbc1State {
    /// Power-on state: bank 1, RAM bank 0, RAM closed, ROM banking mode.
    pub open spec fn initial(rom: Seq<u8>, ram_size: nat) -> Mbc1State {
        Mbc1State {
            rom,
            ram: zeros(ram_size),
            rom_bank: 1,
            ram_bank: 0,
            ram_enabled: false,
            mode: false,
        }
    }

    pub open spec fn wf(self) -> bool {
        &&& self.rom_bank < 0x80
        &&& self.rom_bank & 0x1F != 0
        &&& self.ram_bank < 4
    }

    /// The bank seen at `0x4000..=0x7FFF`: in RAM banking mode the high ROM
    /// bits count as zero.
    pub open spec fn effective_rom_bank(self) -> u8 {
        if self.mode {
            self.rom_bank & 0x1F
        } else {
            self.rom_bank
        }
    }

    /// The RAM bank seen at `0xA000..=0xBFFF`: always 0 in ROM banking mode.
    pub open spec fn effective_ram_bank(self) -> u8 {
        if self.mode {
            self.ram_bank
        } else {
            0
        }
    }

    pub open spec fn read(self, addr: u16) -> u8 {
        if addr <= 0x3FFF {
            byte_at(self.rom, addr as int)
        } else if addr <= 0x7FFF {
            byte_at(self.rom, rom_index(self.effective_rom_bank() as int, addr))
        } else if 0xA000 <= addr <= 0xBFFF {
            if self.ram_enabled {
                byte_at(self.ram, ram_index(self.effective_ram_bank() as int, addr))
            } else {
                OPEN_BUS
            }
        } else {
            OPEN_BUS
        }
    }

    pub open spec fn write(self, addr: u16, value: u8) -> Mbc1State {
        if addr <= 0x1FFF {
            Mbc1State { ram_enabled: enables_ram(value), ..self }
        } else if addr <= 0x3FFF {
            let low = if value & 0x1F == 0 {
                1u8
            } else {
                value & 0x1F
            };
            Mbc1State { rom_bank: (self.rom_bank & 0x60) | low, ..self }
        } else if addr <= 0x5FFF {
            if self.mode {
                Mbc1State { ram_bank: value & 0x03, ..self }
            } else {
                Mbc1State { rom_bank: (self.rom_bank & 0x1F) | ((value & 0x03) << 5u8), ..self }
            }
        } else if addr <= 0x7FFF {
            Mbc1State { mode: value & 0x01 != 0, ..self }
        } else if 0xA000 <= addr <= 0xBFFF {
            if self.ram_enabled {
                Mbc1State {
                    ram: store(self.ram, ram_index(self.effective_ram_bank() as int, addr), value),
                    ..self
                }
            } else {
                self
            }
        } else {
            self
        }
    }
}

/// An MBC1 controller: up to 2 MB of ROM and 32 KB of RAM.
pub struct MBC1 {
    rom: Vec<u8>,
    ram: Vec<u8>,
    rom_bank: u8,
    ram_bank: u8,
    ram_enabled: bool,
    mode: bool,
}

impl View for MBC1 {
    type V = Mbc1State;

    closed spec fn view(&self) -> Mbc1State {
        Mbc1State {
            rom: self.rom@,
            ram: self.ram@,
            rom_bank: self.rom_bank,
            ram_bank: self.ram_bank,
            ram_enabled: self.ram_enabled,
            mode: self.mode,
        }
    }
}

impl MBC1 {
    #[verifier::type_invariant]
    spec fn inv(&self) -> bool {
        self@.wf()
    }

    /// A controller over `rom` with `ram_size` bytes of zeroed RAM, bank 1
    /// selected, RAM closed and ROM banking mode.
    pub fn new(rom: Vec<u8>, ram_size: usize) -> (r: Self)
        ensures
            r@ == Mbc1State::initial(rom@, ram_size as nat),
            r@.wf(),
    {
        assert(1u8 & 0x1F != 0) by (bit_vector);
        MBC1 {
            rom,
            ram: zeroed(ram_size),
            rom_bank: 1,
            ram_bank: 0,
            ram_enabled: false,
            mode: false,
        }
    }

    /// The ROM bank currently seen at `0x4000..=0x7FFF`.
    pub fn rom_bank(&self) -> (r: u8)
        ensures
            r == self@.effective_rom_bank(),
    {
        if self.mode {
            self.rom_bank & 0x1F
        } else {
            self.rom_bank
        }
    }

    fn ram_bank(&self) -> (r: u8)
        ensures
            r == self@.effective_ram_bank(),
    {
        if self.mode {
            self.ram_bank
        } else {
            0
        }
    }

    pub fn read(&self, addr: u16) -> (r: u8)
        ensures
            r == self@.read(addr),
    {
        proof {
            use_type_invariant(self);
        }
        if addr <= 0x3FFF {
            read_at(&self.rom, addr as usize)
        } else if addr <= 0x7FFF {
            let bank = self.rom_bank();
            read_at(&self.rom, bank as usize * 0x4000 + (addr as usize - 0x4000))
        } else if 0xA000 <= addr && addr <= 0xBFFF {
            if self.ram_enabled {
                let bank = self.ram_bank();
                read_at(&self.ram, bank as usize * 0x2000 + (addr as usize - 0xA000))
            } else {
                OPEN_BUS
            }
        } else {
            OPEN_BUS
        }
    }

    pub fn write(&mut self, addr: u16, value: u8)
        ensures
            final(self)@ == old(self)@.write(addr, value),
    {
        proof {
            use_type_invariant(&*self);
        }
        if addr <= 0x1FFF {
            self.ram_enabled = (value & 0x0F) == 0x0A;
        } else if addr <= 0x3FFF {
            proof {
                lemma_mask_bounds(value);
            }
            let mut low = value & 0x1F;
            if low == 0 {
                low = 1;
            }
            let old_bank = self.rom_bank;
            assert(((old_bank & 0x60) | low) & 0x1F != 0 && ((old_bank & 0x60) | low) < 0x80)
                by (bit_vector)
                requires
                    1 <= low < 0x20,
            ;
            self.rom_bank = (self.rom_bank & 0x60) | low;
        } else if addr <= 0x5FFF {
            proof {
                lemma_mask_bounds(value);
            }
            let bits = value & 0x03;
            if self.mode {
                self.ram_bank = bits;
            } else {
                let old_bank = self.rom_bank;
                assert(((old_bank & 0x1F) | (bits << 5u8)) & 0x1F == old_bank & 0x1F && ((old_bank
                    & 0x1F) | (bits << 5u8)) < 0x80) by (bit_vector)
                    requires
                        bits < 4,
                ;
                self.rom_bank = (self.rom_bank & 0x1F) | (bits << 5u8);
            }
        } else if addr <= 0x7FFF {
            self.mode = (value & 0x01) != 0;
        } else if 0xA000 <= addr && addr <= 0xBFFF {
            if self.ram_enabled {
                let bank = self.ram_bank();
                write_at(&mut self.ram, bank as usize * 0x2000 + (addr as usize - 0xA000), value);
            }
        }
    }
}

// ---------------------------------------------------------------------------
// MBC2

/// Size of the MBC2's built-in RAM: 512 cells of four bits.
pub const MBC2_RAM_SIZE: usize = 512;

/// Model of an MBC2 controller: a ROM bank chosen from the low four bits of
/// a write to `0x2000..=0x3FFF`, taken modulo the cartridge's bank count and
/// never zero, and built-in RAM whose cells hold four bits each.
pub struct Mbc2State {
    pub rom: Seq<u8>,
    pub ram: Seq<u8>,
    pub rom_bank: u8,
    pub rom_banks: usize,
    pub ram_enabled: bool,
}

impl Mbc2State {
    /// Power-on state: bank 1 of a ROM declared `rom_size` bytes long, RAM
    /// zeroed and closed.
    pub open spec fn initial(rom: Seq<u8>, rom_size: nat) -> Mbc2State {
        Mbc2State {
            rom,
            ram: zeros(MBC2_RAM_SIZE as nat),
            rom_bank: 1,
            rom_banks: (rom_size / 0x4000) as usize,
            ram_enabled: false,
        }
    }

    pub open spec fn wf(self) -> bool {
        &&& 0 < self.rom_banks
        &&& 1 <= self.rom_bank < 16
    }

    pub open spec fn read(self, addr: u16) -> u8 {
        if addr <= 0x3FFF {
            byte_at(self.rom, addr as int)
        } else if addr <= 0x7FFF {
            byte_at(self.rom, rom_index(self.rom_bank as int, addr))
        } else if 0xA000 <= addr <= 0xBFFF {
            if self.ram_enabled && addr - 0xA000 < self.ram.len() {
                self.ram[addr - 0xA000] & 0x0F
            } else {
                OPEN_BUS
            }
        } else {
            OPEN_BUS
        }
    }

    pub open spec fn write(self, addr: u16, value: u8) -> Mbc2State {
        if addr <= 0x1FFF {
            Mbc2State { ram_enabled: enables_ram(value), ..self }
        } else if addr <= 0x3FFF {
            let bank = (value & 0x0F) as int % self.rom_banks as int;
            Mbc2State { rom_bank: if bank == 0 { 1u8 } else { bank as u8 }, ..self }
        } else if 0xA000 <= addr <= 0xBFFF {
            if self.ram_enabled {
                Mbc2State { ram: store(self.ram, addr - 0xA000, value & 0x0F), ..self }
            } else {
                self
            }
        } else {
            self
        }
    }
}

/// An MBC2 controller: up to 256 KB of ROM and 512 four-bit RAM cells.
pub struct MBC2 {
    rom: Vec<u8>,
    ram: Vec<u8>,
    rom_bank: u8,
    rom_banks: usize,
    ram_enabled: bool,
}

impl View for MBC2 {
    type V = Mbc2State;

    closed spec fn view(&self) -> Mbc2State {
        Mbc2State {
            rom: self.rom@,
            ram: self.ram@,
            rom_bank: self.rom_bank,
            rom_banks: self.rom_banks,
            ram_enabled: self.ram_enabled,
        }
    }
}

impl MBC2 {
    #[verifier::type_invariant]
    spec fn inv(&self) -> bool {
        self@.wf()
    }

    /// A controller over `rom`, which the header says holds `rom_size`
    /// bytes, with bank 1 selected and its built-in RAM zeroed and closed.
    fn new(rom: Vec<u8>, rom_size: usize) -> (r: Self)
        requires
            rom_size >= 0x4000,
        ensures
            r@ == Mbc2State::initial(rom@, rom_size as nat),
            r@.wf(),
    {
        MBC2 {
            rom,
            ram: zeroed(MBC2_RAM_SIZE),
            rom_bank: 1,
            rom_banks: rom_size / 0x4000,
            ram_enabled: false,
        }
    }

    pub fn read(&self, addr: u16) -> (r: u8)
        ensures
            r == self@.read(addr),
    {
        proof {
            use_type_invariant(self);
        }
        if addr <= 0x3FFF {
            read_at(&self.rom, addr as usize)
        } else if addr <= 0x7FFF {
            read_at(&self.rom, self.rom_bank as usize * 0x4000 + (addr as usize - 0x4000))
        } else if 0xA000 <= addr && addr <= 0xBFFF {
            let i = (addr - 0xA000) as usize;
            if self.ram_enabled && i < self.ram.len() {
                self.ram[i] & 0x0F
            } else {
                OPEN_BUS
            }
        } else {
            OPEN_BUS
        }
    }

    pub fn write(&mut self, addr: u16, value: u8)
        ensures
            final(self)@ == old(self)@.write(addr, value),
    {
        proof {
            use_type_invariant(&*self);
        }
        if addr <= 0x1FFF {
            self.ram_enabled = (value & 0x0F) == 0x0A;
        } else if addr <= 0x3FFF {
            proof {
                lemma_mask_bounds(value);
            }
            let low = (value & 0x0F) as usize;
            let banks = self.rom_banks;
            let bank = low % banks;
            assert(bank <= low) by (nonlinear_arith)
                requires
                    bank == low % banks,
                    banks > 0,
            ;
            self.rom_bank = if bank == 0 {
                1
            } else {
                bank as u8
            };
        } else if 0xA000 <= addr && addr <= 0xBFFF {
            if self.ram_enabled {
                write_at(&mut self.ram, (addr - 0xA000) as usize, value & 0x0F);
            }
        }
    }
}

// ---------------------------------------------------------------------------
// MBC3

/// Number of real-time-clock registers: seconds, minutes, hours and the two
/// day-counter bytes.
pub const RTC_REGISTERS: usize = 5;

/// Model of an MBC3 controller: a seven-bit ROM bank (never zero), a RAM
/// bank, and a clock register file that replaces RAM in
/// `0xA000..=0xBFFF` while a clock register is selected.
pub struct Mbc3State {
    pub rom: Seq<u8>,
    pub ram: Seq<u8>,
    pub rtc: Seq<u8>,
    pub rom_bank: u8,
    pub ram_bank: u8,
    pub ram_rtc_enabled: bool,
    pub rtc_selected: bool,
    pub rtc_reg: u8,
}

impl Mbc3State {
    /// Power-on state: ROM bank 1, RAM bank 0, clock registers zeroed and
    /// unselected, RAM closed.
    pub open spec fn initial(rom: Seq<u8>, ram_size: nat) -> Mbc3State {
        Mbc3State {
            rom,
            ram: zeros(ram_size),
            rtc: zeros(RTC_REGISTERS as nat),
            rom_bank: 1,
            ram_bank: 0,
            ram_rtc_enabled: false,
            rtc_selected: false,
            rtc_reg: 0,
        }
    }

    pub open spec fn wf(self) -> bool {
        &&& self.rtc.len() == RTC_REGISTERS
        &&& self.rtc_reg < RTC_REGISTERS
        &&& 1 <= self.rom_bank < 0x80
        &&& self.ram_bank < 4
    }

    pub open spec fn read(self, addr: u16) -> u8 {
        if addr <= 0x3FFF {
            byte_at(self.rom, addr as int)
        } else if addr <= 0x7FFF {
            byte_at(self.rom, rom_index(self.rom_bank as int, addr))
        } else if 0xA000 <= addr <= 0xBFFF {
            if !self.ram_rtc_enabled {
                OPEN_BUS
            } else if self.rtc_selected {
                self.rtc[self.rtc_reg as int]
            } else {
                byte_at(self.ram, ram_index(self.ram_bank as int, addr))
            }
        } else {
            OPEN_BUS
        }
    }

    pub open spec fn write(self, addr: u16, value: u8) -> Mbc3State {
        if addr <= 0x1FFF {
            Mbc3State { ram_rtc_enabled: enables_ram(value), ..self }
        } else if addr <= 0x3FFF {
            let bank = value & 0x7F;
            Mbc3State { rom_bank: if bank == 0 { 1u8 } else { bank }, ..self }
        } else if addr <= 0x5FFF {
            if value <= 0x03 {
                Mbc3State { ram_bank: value, rtc_selected: false, ..self }
            } else if 0x08 <= value <= 0x0C {
                Mbc3State { rtc_reg: (value - 0x08) as u8, rtc_selected: true, ..self }
            } else {
                self
            }
        } else if 0xA000 <= addr <= 0xBFFF {
            if !self.ram_rtc_enabled {
                self
            } else if self.rtc_selected {
                Mbc3State { rtc: self.rtc.update(self.rtc_reg as int, value), ..self }
            } else {
                Mbc3State {
                    ram: store(self.ram, ram_index(self.ram_bank as int, addr), value),
                    ..self
                }
            }
        } else {
            self
        }
    }
}

/// An MBC3 controller: up to 2 MB of ROM, 32 KB of RAM and a clock.
pub struct MBC3 {
    rom: Vec<u8>,
    ram: Vec<u8>,
    rtc: [u8; 5],
    rom_bank: u8,
    ram_bank: u8,
    ram_rtc_enabled: bool,
    rtc_selected: bool,
    rtc_reg: u8,
}

impl View for MBC3 {
    type V = Mbc3State;

    closed spec fn view(&self) -> Mbc3State {
        Mbc3State {
            rom: self.rom@,
            ram: self.ram@,
            rtc: self.rtc@,
            rom_bank: self.rom_bank,
            ram_bank: self.ram_bank,
            ram_rtc_enabled: self.ram_rtc_enabled,
            rtc_selected: self.rtc_selected,
            rtc_reg: self.rtc_reg,
        }
    }
}

impl MBC3 {
    #[verifier::type_invariant]
    spec fn inv(&self) -> bool {
        self@.wf()
    }

    /// A controller over `rom` with `ram_size` bytes of zeroed RAM, ROM bank
    /// 1 and RAM bank 0 selected, the clock registers zeroed and RAM closed.
    pub fn new(rom: Vec<u8>, ram_size: usize) -> (r: Self)
        ensures
            r@ == Mbc3State::initial(rom@, ram_size as nat),
            r@.wf(),
    {
        let r = MBC3 {
            rom,
            ram: zeroed(ram_size),
            rtc: [0u8, 0u8, 0u8, 0u8, 0u8],
            rom_bank: 1,
            ram_bank: 0,
            ram_rtc_enabled: false,
            rtc_selected: false,
            rtc_reg: 0,
        };
        assert(r.rtc@ =~= zeros(RTC_REGISTERS as nat));
        r
    }

    pub fn read(&self, addr: u16) -> (r: u8)
        ensures
            r == self@.read(addr),
    {
        proof {
            use_type_invariant(self);
        }
        if addr <= 0x3FFF {
            read_at(&self.rom, addr as usize)
        } else if addr <= 0x7FFF {
            read_at(&self.rom, self.rom_bank as usize * 0x4000 + (addr as usize - 0x4000))
        } else if 0xA000 <= addr && addr <= 0xBFFF {
            if !self.ram_rtc_enabled {
                OPEN_BUS
            } else if self.rtc_selected {
                self.rtc[self.rtc_reg as usize]
            } else {
                read_at(&self.ram, self.ram_bank as usize * 0x2000 + (addr as usize - 0xA000))
            }
        } else {
            OPEN_BUS
        }
    }

    pub fn write(&mut self, addr: u16, value: u8)
        ensures
            final(self)@ == old(self)@.write(addr, value),
    {
        proof {
            use_type_invariant(&*self);
        }
        if addr <= 0x1FFF {
            self.ram_rtc_enabled = (value & 0x0F) == 0x0A;
        } else if addr <= 0x3FFF {
            proof {
                lemma_mask_bounds(value);
            }
            let bank = value & 0x7F;
            self.rom_bank = if bank == 0 {
                1
            } else {
                bank
            };
        } else if addr <= 0x5FFF {
            if value <= 0x03 {
                self.ram_bank = value;
                self.rtc_selected = false;
            } else if 0x08 <= value && value <= 0x0C {
                self.rtc_reg = value - 0x08;
                self.rtc_selected = true;
            }
        } else if 0xA000 <= addr && addr <= 0xBFFF {
            if self.ram_rtc_enabled {
                if self.rtc_selected {
                    self.rtc[self.rtc_reg as usize] = value;
                } else {
                    write_at(
                        &mut self.ram,
                        self.ram_bank as usize * 0x2000 + (addr as usize - 0xA000),
                        value,
                    );
                }
            }
        }
    }
}

// ---------------------------------------------------------------------------
// MBC5

/// Model of an MBC5 controller: a nine-bit ROM bank, whose low eight bits
/// come from writes to `0x2000..=0x2FFF` and ninth from `0x3000..=0x3FFF`
/// (bank 0 is allowed), and a four-bit RAM bank.
pub struct Mbc5State {
    pub rom: Seq<u8>,
    pub ram: Seq<u8>,
    pub rom_bank: u16,
    pub ram_bank: u8,
    pub ram_enabled: bool,
}

impl Mbc5State {
    /// Power-on state: ROM bank 1, RAM bank 0, RAM closed.
    pub open spec fn initial(rom: Seq<u8>, ram_size: nat) -> Mbc5State {
        Mbc5State { rom, ram: zeros(ram_size), rom_bank: 1, ram_bank: 0, ram_enabled: false }
    }

    pub open spec fn wf(self) -> bool {
        &&& self.rom_bank < 0x200
        &&& self.ram_bank < 16
    }

    pub open spec fn read(self, addr: u16) -> u8 {
        if addr <= 0x3FFF {
            byte_at(self.rom, addr as int)
        } else if addr <= 0x7FFF {
            byte_at(self.rom, rom_index(self.rom_bank as int, addr))
        } else if 0xA000 <= addr <= 0xBFFF {
            if self.ram_enabled {
                byte_at(self.ram, ram_index(self.ram_bank as int, addr))
            } else {
                OPEN_BUS
            }
        } else {
            OPEN_BUS
        }
    }

    pub open spec fn write(self, addr: u16, value: u8) -> Mbc5State {
        if addr <= 0x1FFF {
            Mbc5State { ram_enabled: enables_ram(value), ..self }
        } else if addr <= 0x2FFF {
            Mbc5State { rom_bank: (self.rom_bank & 0x100) | value as u16, ..self }
        } else if addr <= 0x3FFF {
            Mbc5State { rom_bank: (self.rom_bank & 0xFF) | (((value & 0x01) as u16) << 8u16), ..self }
        } else if addr <= 0x5FFF {
            Mbc5State { ram_bank: value & 0x0F, ..self }
        } else if 0xA000 <= addr <= 0xBFFF {
            if self.ram_enabled {
                Mbc5State {
                    ram: store(self.ram, ram_index(self.ram_bank as int, addr), value),
                    ..self
                }
            } else {
                self
            }
        } else {
            self
        }
    }
}

/// An MBC5 controller: up to 8 MB of ROM and 128 KB of RAM.
pub struct MBC5 {
    rom: Vec<u8>,
    ram: Vec<u8>,
    rom_bank: u16,
    ram_bank: u8,
    ram_enabled: bool,
}

impl View for MBC5 {
    type V = Mbc5State;

    closed spec fn view(&self) -> Mbc5State {
        Mbc5State {
            rom: self.rom@,
            ram: self.ram@,
            rom_bank: self.rom_bank,
            ram_bank: self.ram_bank,
            ram_enabled: self.ram_enabled,
        }
    }
}

impl MBC5 {
    #[verifier::type_invariant]
    spec fn inv(&self) -> bool {
        self@.wf()
    }

    /// A controller over `rom` with `ram_size` bytes of zeroed RAM, ROM bank
    /// 1 and RAM bank 0 selected and RAM closed.
    pub fn new(rom: Vec<u8>, ram_size: usize) -> (r: Self)
        ensures
            r@ == Mbc5State::initial(rom@, ram_size as nat),
            r@.wf(),
    {
        MBC5 { rom, ram: zeroed(ram_size), rom_bank: 1, ram_bank: 0, ram_enabled: false }
    }

    pub fn read(&self, addr: u16) -> (r: u8)
        ensures
            r == self@.read(addr),
    {
        proof {
            use_type_invariant(self);
        }
        if addr <= 0x3FFF {
            read_at(&self.rom, addr as usize)
        } else if addr <= 0x7FFF {
            read_at(&self.rom, self.rom_bank as usize * 0x4000 + (addr as usize - 0x4000))
        } else if 0xA000 <= addr && addr <= 0xBFFF {
            if self.ram_enabled {
                read_at(&self.ram, self.ram_bank as usize * 0x2000 + (addr as usize - 0xA000))
            } else {
                OPEN_BUS
            }
        } else {
            OPEN_BUS
        }
    }

    pub fn write(&mut self, addr: u16, value: u8)
        ensures
            final(self)@ == old(self)@.write(addr, value),
    {
        proof {
            use_type_invariant(&*self);
        }
        if addr <= 0x1FFF {
            self.ram_enabled = (value & 0x0F) == 0x0A;
        } else if addr <= 0x2FFF {
            let old_bank = self.rom_bank;
            assert(((old_bank & 0x100) | (value as u16)) < 0x200) by (bit_vector);
            self.rom_bank = (self.rom_bank & 0x100) | value as u16;
        } else if addr <= 0x3FFF {
            let old_bank = self.rom_bank;
            assert((old_bank & 0xFF) | (((value & 0x01) as u16) << 8u16) < 0x200) by (bit_vector);
            self.rom_bank = (self.rom_bank & 0xFF) | (((value & 0x01) as u16) << 8u16);
        } else if addr <= 0x5FFF {
            proof {
                lemma_mask_bounds(value);
            }
            self.ram_bank = value & 0x0F;
        } else if 0xA000 <= addr && addr <= 0xBFFF {
            if self.ram_enabled {
                write_at(
                    &mut self.ram,
                    self.ram_bank as usize * 0x2000 + (addr as usize - 0xA000),
                    value,
                );
            }
        }
    }
}

// ---------------------------------------------------------------------------
// The active controller

/// Model of whichever controller a cartridge carries.
pub enum MmuState {
    RomOnly(RomOnlyState),
    MBC1(Mbc1State),
    MBC2(Mbc2State),
    MBC3(Mbc3State),
    MBC5(Mbc5State),
}

impl MmuState {
    pub open spec fn wf(self) -> bool {
        match self {
            MmuState::RomOnly(_) => true,
            MmuState::MBC1(m) => m.wf(),
            MmuState::MBC2(m) => m.wf(),
            MmuState::MBC3(m) => m.wf(),
            MmuState::MBC5(m) => m.wf(),
        }
    }

    /// The byte that a read of `addr` returns.
    pub open spec fn read(self, addr: u16) -> u8 {
        match self {
            MmuState::RomOnly(m) => m.read(addr),
            MmuState::MBC1(m) => m.read(addr),
            MmuState::MBC2(m) => m.read(addr),
            MmuState::MBC3(m) => m.read(addr),
            MmuState::MBC5(m) => m.read(addr),
        }
    }

    /// The state after `value` is written to `addr`.
    pub open spec fn write(self, addr: u16, value: u8) -> MmuState {
        match self {
            MmuState::RomOnly(m) => MmuState::RomOnly(m.write(addr, value)),
            MmuState::MBC1(m) => MmuState::MBC1(m.write(addr, value)),
            MmuState::MBC2(m) => MmuState::MBC2(m.write(addr, value)),
            MmuState::MBC3(m) => MmuState::MBC3(m.write(addr, value)),
            MmuState::MBC5(m) => MmuState::MBC5(m.write(addr, value)),
        }
    }

    /// The ROM bank mapped at `0x4000..=0x7FFF`.
    pub open spec fn switchable_rom_bank(self) -> int {
        match self {
            MmuState::RomOnly(_) => 1,
            MmuState::MBC1(m) => m.effective_rom_bank() as int,
            MmuState::MBC2(m) => m.rom_bank as int,
            MmuState::MBC3(m) => m.rom_bank as int,
            MmuState::MBC5(m) => m.rom_bank as int,
        }
    }
}

/// Only MBC5 can map ROM bank 0 into the switchable window: every other
/// controller maps a bank numbered 1 or more there, in every state that its
/// writes can reach.
pub proof fn lemma_switchable_bank_nonzero(m: MmuState)
    requires
        m.wf(),
        !(m is MBC5),
    ensures
        m.switchable_rom_bank() >= 1,
{
    if let MmuState::MBC1(s) = m {
        let b = s.rom_bank;
        assert(b & 0x1F != 0 ==> (b & 0x1F) >= 1 && b >= 1) by (bit_vector);
    }
}

/// Whichever controller a cartridge carries.
pub enum MMU {
    RomOnly(MBCNone),
    MBC1(MBC1),
    MBC2(MBC2),
    MBC3(MBC3),
    MBC5(MBC5),
}

impl View for MMU {
    type V = MmuState;

    open spec fn view(&self) -> MmuState {
        match self {
            MMU::RomOnly(m) => MmuState::RomOnly(m@),
            MMU::MBC1(m) => MmuState::MBC1(m@),
            MMU::MBC2(m) => MmuState::MBC2(m@),
            MMU::MBC3(m) => MmuState::MBC3(m@),
            MMU::MBC5(m) => MmuState::MBC5(m@),
        }
    }
}

impl MMU {
    pub fn read(&self, addr: u16) -> (r: u8)
        ensures
            r == self@.read(addr),
    {
        match self {
            MMU::RomOnly(m) => m.read(addr),
            MMU::MBC1(m) => m.read(addr),
            MMU::MBC2(m) => m.read(addr),
            MMU::MBC3(m) => m.read(addr),
            MMU::MBC5(m) => m.read(addr),
        }
    }

    pub fn write(&mut self, addr: u16, value: u8)
        ensures
            final(self)@ == old(self)@.write(addr, value),
            final(self)@.wf(),
    {
        match self {
            MMU::RomOnly(m) => m.write(addr, value),
            MMU::MBC1(m) => {
                m.write(addr, value);
                proof {
                    use_type_invariant(&*m);
                }
            },
            MMU::MBC2(m) => {
                m.write(addr, value);
                proof {
                    use_type_invariant(&*m);
                }
            },
            MMU::MBC3(m) => {
                m.write(addr, value);
                proof {
                    use_type_invariant(&*m);
                }
            },
            MMU::MBC5(m) => {
                m.write(addr, value);
                proof {
                    use_type_invariant(&*m);
                }
            },
        }
    }
}

// ---------------------------------------------------------------------------
// Choosing the controller

/// Offset of the cartridge type byte in the header.
pub const TYPE_OFFSET: usize = 0x0147;

/// Offset of the ROM size code in the header.
pub const ROM_SIZE_OFFSET: usize = 0x0148;

/// Offset of the RAM size code in the header.
pub const RAM_SIZE_OFFSET: usize = 0x0149;

/// Why no controller could be built for a cartridge image.
#[derive(Debug, Clone, Copy, PartialEq, Eq, Structural)]
pub enum CartridgeError {
    /// The image ends before the header fields that choose the controller.
    HeaderMissing,
    /// The header names a cartridge type that has no controller here.
    Unsupported(u8),
}

/// The controller, in its power-on state, that the header of `mem` calls for.
pub open spec fn controller_for(mem: Seq<u8>) -> Result<MmuState, CartridgeError> {
    if mem.len() <= RAM_SIZE_OFFSET {
        Err(CartridgeError::HeaderMissing)
    } else {
        let rom_size = rom_size_of(mem[ROM_SIZE_OFFSET as int]);
        let ram_size = ram_size_of(mem[RAM_SIZE_OFFSET as int]);
        match cartridge_type_of(mem[TYPE_OFFSET as int]) {
            CartridgeType::RomOnly => Ok(
                MmuState::RomOnly(RomOnlyState { rom: mem, ram: zeros(ram_size) }),
            ),
            CartridgeType::MBC1 | CartridgeType::MBC1Ram | CartridgeType::MBC1RamBattery => Ok(
                MmuState::MBC1(Mbc1State::initial(mem, ram_size)),
            ),
            CartridgeType::MBC2 | CartridgeType::MBC2Battery => Ok(
                MmuState::MBC2(Mbc2State::initial(mem, rom_size)),
            ),
            CartridgeType::MBC3
            | CartridgeType::MBC3Ram
            | CartridgeType::MBC3RamBattery
            | CartridgeType::MBC3TimerBattery
            | CartridgeType::MBC3TimerRamBattery => Ok(
                MmuState::MBC3(Mbc3State::initial(mem, ram_size)),
            ),
            CartridgeType::MBC5 | CartridgeType::MBC5Ram | CartridgeType::MBC5RamBattery => Ok(
                MmuState::MBC5(Mbc5State::initial(mem, ram_size)),
            ),
            CartridgeType::Unsupported(t) => Err(CartridgeError::Unsupported(t)),
        }
    }
}

/// Builds the controller that the cartridge's header calls for, taking over
/// its bytes as the ROM. An image too short to hold the header fields, or a
/// type byte without a controller here, is refused: no default controller is
/// ever substituted.
pub fn get_mmu(cartridge: CartridgeInfo) -> (r: Result<MMU, CartridgeError>)
    ensures
        match (r, controller_for(cartridge.mem@)) {
            (Ok(m), Ok(s)) => m@ == s && m@.wf(),
            (Err(e), Err(f)) => e == f,
            _ => false,
        },
{
    let mem = cartridge.mem;
    if mem.len() <= RAM_SIZE_OFFSET {
        return Err(CartridgeError::HeaderMissing);
    }
    let cartridge_type = CartridgeType::from(mem[TYPE_OFFSET]);
    let rom_size = get_rom_size(mem[ROM_SIZE_OFFSET]);
    let ram_size = get_ram_size(mem[RAM_SIZE_OFFSET]);
    proof {
        vstd::arithmetic::power2::lemma2_to64();
    }
    match cartridge_type {
        CartridgeType::RomOnly => Ok(MMU::RomOnly(MBCNone::new(mem, ram_size))),
        CartridgeType::MBC1 | CartridgeType::MBC1Ram | CartridgeType::MBC1RamBattery => Ok(
            MMU::MBC1(MBC1::new(mem, ram_size)),
        ),
        CartridgeType::MBC2 | CartridgeType::MBC2Battery => Ok(
            MMU::MBC2(MBC2::new(mem, rom_size)),
        ),
        CartridgeType::MBC3
        | CartridgeType::MBC3Ram
        | CartridgeType::MBC3RamBattery
        | CartridgeType::MBC3TimerBattery
        | CartridgeType::MBC3TimerRamBattery => Ok(MMU::MBC3(MBC3::new(mem, ram_size))),
        CartridgeType::MBC5 | CartridgeType::MBC5Ram | CartridgeType::MBC5RamBattery => Ok(
            MMU::MBC5(MBC5::new(mem, ram_size)),
        ),
        CartridgeType::Unsupported(t) => Err(CartridgeError::Unsupported(t)),
    }
}

/// A header with type byte `0x00`, ROM size code 0 and RAM size code 0 gets
/// the controller-less mapping over a 32 KB ROM window with no RAM, so every
/// read of `0xA000..=0xBFFF` returns the open-bus value.
pub proof fn lemma_rom_only_without_ram(mem: Seq<u8>, addr: u16)
    requires
        mem.len() > RAM_SIZE_OFFSET,
        mem[TYPE_OFFSET as int] == 0x00,
        mem[ROM_SIZE_OFFSET as int] == 0x00,
        mem[RAM_SIZE_OFFSET as int] == 0x00,
        0xA000 <= addr <= 0xBFFF,
    ensures
        controller_for(mem) == Result::<MmuState, CartridgeError>::Ok(
            MmuState::RomOnly(RomOnlyState { rom: mem, ram: Seq::empty() }),
        ),
        rom_size_of(mem[ROM_SIZE_OFFSET as int]) == 0x8000,
        MmuState::RomOnly(RomOnlyState { rom: mem, ram: Seq::empty() }).read(addr) == OPEN_BUS,
{
    vstd::arithmetic::power2::lemma2_to64();
    assert(zeros(0) =~= Seq::<u8>::empty());
}

} // verus!

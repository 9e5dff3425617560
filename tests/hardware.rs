use gameboy::bitwise::{flip_bit, get_least, get_most, isset_bit, set_bit, set_least, set_most, unset_bit};
use gameboy::cpu::instructions::UnimplementedInstruction;
use gameboy::cpu::LR35902;
use gameboy::hardware::bus::Bus;
use gameboy::hardware::cartridge_reader::CartridgeInfo;
use gameboy::hardware::mmu::{
    get_mmu, get_ram_size, get_rom_size, CartridgeError, CartridgeType, MBC1, MMU,
};
use gameboy::Gameboy;

/// An image of `banks` 16 KB banks, each filled with its bank number, with
/// the given header bytes.
fn banked_image(banks: usize, kind: u8, rom_code: u8, ram_code: u8) -> Vec<u8> {
    let mut mem = Vec::new();
    for b in 0..banks {
        mem.extend(std::iter::repeat(b as u8).take(0x4000));
    }
    mem[0x0147] = kind;
    mem[0x0148] = rom_code;
    mem[0x0149] = ram_code;
    mem
}

fn controller(banks: usize, kind: u8, rom_code: u8, ram_code: u8) -> MMU {
    get_mmu(CartridgeInfo::new(banked_image(banks, kind, rom_code, ram_code))).unwrap()
}

#[test]
fn byte_halves_of_words() {
    assert_eq!(get_most(0xBEEF), 0xBE);
    assert_eq!(get_least(0xBEEF), 0xEF);
    assert_eq!(set_most(0xBEEF, 0x12), 0x12EF);
    assert_eq!(set_least(0xBEEF, 0x34), 0xBE34);
}

#[test]
fn single_bit_operations() {
    assert_eq!(flip_bit(0, 0x01), Some(0x00));
    assert_eq!(flip_bit(7, 0x01), Some(0x81));
    assert_eq!(set_bit(4, 0x00), Some(0x10));
    assert_eq!(unset_bit(4, 0xFF), Some(0xEF));
    assert_eq!(isset_bit(2, 0x04), Some(true));
    assert_eq!(isset_bit(3, 0x04), Some(false));
    assert_eq!(flip_bit(8, 0x01), None);
    assert_eq!(set_bit(8, 0x01), None);
    assert_eq!(unset_bit(9, 0x01), None);
    assert_eq!(isset_bit(8, 0x01), None);
}

#[test]
fn rom_size_table() {
    assert_eq!(get_rom_size(0x00), 32 * 1024);
    assert_eq!(get_rom_size(0x01), 64 * 1024);
    assert_eq!(get_rom_size(0x05), 1024 * 1024);
    assert_eq!(get_rom_size(0x08), 8 * 1024 * 1024);
    assert_eq!(get_rom_size(0x09), 32 * 1024);
}

#[test]
fn ram_size_table_is_not_monotonic() {
    assert_eq!(get_ram_size(0x00), 0);
    assert_eq!(get_ram_size(0x01), 2 * 1024);
    assert_eq!(get_ram_size(0x02), 8 * 1024);
    assert_eq!(get_ram_size(0x03), 32 * 1024);
    assert_eq!(get_ram_size(0x04), 128 * 1024);
    assert_eq!(get_ram_size(0x05), 64 * 1024);
    assert_eq!(get_ram_size(0x06), 0);
}

#[test]
fn cartridge_type_bytes() {
    assert_eq!(CartridgeType::from(0x00), CartridgeType::RomOnly);
    assert_eq!(CartridgeType::from(0x03), CartridgeType::MBC1RamBattery);
    assert_eq!(CartridgeType::from(0x06), CartridgeType::MBC2Battery);
    assert_eq!(CartridgeType::from(0x0F), CartridgeType::MBC3TimerBattery);
    assert_eq!(CartridgeType::from(0x10), CartridgeType::MBC3TimerRamBattery);
    assert_eq!(CartridgeType::from(0x13), CartridgeType::MBC3RamBattery);
    assert_eq!(CartridgeType::from(0x1B), CartridgeType::MBC5RamBattery);
    assert_eq!(CartridgeType::from(0x04), CartridgeType::Unsupported(0x04));
}

#[test]
fn unsupported_cartridge_is_refused() {
    let r = get_mmu(CartridgeInfo::new(banked_image(2, 0x20, 0, 0)));
    assert!(matches!(r, Err(CartridgeError::Unsupported(0x20))));
}

#[test]
fn truncated_header_is_refused() {
    let r = get_mmu(CartridgeInfo::new(vec![0u8; 0x0149]));
    assert!(matches!(r, Err(CartridgeError::HeaderMissing)));
}

#[test]
fn rom_only_cartridge_end_to_end() {
    let mut image = banked_image(2, 0x00, 0x00, 0x00);
    image[0x7FFF] = 0x42;
    let info = CartridgeInfo::new(image);
    assert_eq!(info.size, 0x8000);
    let mmu = get_mmu(info).unwrap();
    assert!(matches!(mmu, MMU::RomOnly(_)));
    let mut bus = Bus::new(mmu);
    assert_eq!(bus.read_byte(0x0000), 0x00);
    assert_eq!(bus.read_byte(0x4000), 0x01);
    assert_eq!(bus.read_byte(0x7FFF), 0x42);
    for addr in 0xA000..=0xBFFFu16 {
        assert_eq!(bus.read_byte(addr), 0xFF);
    }
    bus.write_byte(0xA000, 0x12);
    assert_eq!(bus.read_byte(0xA000), 0xFF);
    assert_eq!(bus.read_byte(0x8000), 0xFF);
}

#[test]
fn mbc1_bank_select() {
    let mut mmu = MBC1::new(banked_image(64, 0x01, 0x05, 0x00), 0);
    assert_eq!(mmu.rom_bank(), 1);
    mmu.write(0x2000, 0x00);
    assert_eq!(mmu.rom_bank(), 1);
    assert_eq!(mmu.read(0x4000), 0x01);
    mmu.write(0x2000, 0x23);
    assert_eq!(mmu.rom_bank(), 0x03);
    assert_eq!(mmu.read(0x4000), 0x03);
    assert_eq!(mmu.read(0x0000), 0x00);
}

#[test]
fn mbc1_upper_bits_and_banking_mode() {
    let mut mmu = MBC1::new(banked_image(128, 0x01, 0x06, 0x03), 32 * 1024);
    mmu.write(0x2000, 0x05);
    mmu.write(0x4000, 0x02);
    assert_eq!(mmu.rom_bank(), 0x45);
    assert_eq!(mmu.read(0x7FFF), 0x45);
    // RAM banking mode: the two bits select RAM, ROM high bits read as zero
    mmu.write(0x6000, 0x01);
    assert_eq!(mmu.rom_bank(), 0x05);
    mmu.write(0x0000, 0x0A);
    mmu.write(0x4000, 0x03);
    mmu.write(0xA000, 0x77);
    mmu.write(0x4000, 0x00);
    assert_eq!(mmu.read(0xA000), 0x00);
    mmu.write(0x4000, 0x03);
    assert_eq!(mmu.read(0xA000), 0x77);
    // back in ROM banking mode RAM bank 0 is seen
    mmu.write(0x6000, 0x00);
    assert_eq!(mmu.read(0xA000), 0x00);
}

#[test]
fn ram_gate_opens_and_closes() {
    let mut bus = Bus::new(controller(4, 0x03, 0x01, 0x02));
    bus.write_byte(0x0000, 0x0A);
    bus.write_byte(0xA000, 0x5C);
    assert_eq!(bus.read_byte(0xA000), 0x5C);
    bus.write_byte(0x0000, 0x00);
    assert_eq!(bus.read_byte(0xA000), 0xFF);
    bus.write_byte(0xA000, 0x11);
    bus.write_byte(0x1FFF, 0x1A);
    assert_eq!(bus.read_byte(0xA000), 0x5C);
}

#[test]
fn mbc2_nibble_ram_and_bank_modulo() {
    // 128 KB declared: eight banks
    let mut bus = Bus::new(controller(8, 0x05, 0x02, 0x00));
    assert_eq!(bus.read_byte(0x4000), 0x01);
    bus.write_byte(0x2100, 0x03);
    assert_eq!(bus.read_byte(0x4000), 0x03);
    bus.write_byte(0x2100, 0x0B);
    assert_eq!(bus.read_byte(0x4000), 0x03);
    bus.write_byte(0x2100, 0x08);
    assert_eq!(bus.read_byte(0x4000), 0x01);
    assert_eq!(bus.read_byte(0xA000), 0xFF);
    bus.write_byte(0x0000, 0x0A);
    bus.write_byte(0xA010, 0xAB);
    assert_eq!(bus.read_byte(0xA010), 0x0B);
    assert_eq!(bus.read_byte(0xA200), 0xFF);
}

#[test]
fn mbc3_clock_registers() {
    let mut bus = Bus::new(controller(8, 0x10, 0x02, 0x03));
    bus.write_byte(0x2000, 0x00);
    assert_eq!(bus.read_byte(0x4000), 0x01);
    bus.write_byte(0x2000, 0x85);
    assert_eq!(bus.read_byte(0x4000), 0x05);
    bus.write_byte(0x0000, 0x0A);
    bus.write_byte(0x4000, 0x01);
    bus.write_byte(0xA123, 0x33);
    bus.write_byte(0x4000, 0x0A);
    assert_eq!(bus.read_byte(0xA123), 0x00);
    bus.write_byte(0xB000, 0x17);
    assert_eq!(bus.read_byte(0xA000), 0x17);
    bus.write_byte(0x4000, 0x0C);
    assert_eq!(bus.read_byte(0xA000), 0x00);
    bus.write_byte(0x4000, 0x0A);
    assert_eq!(bus.read_byte(0xA000), 0x17);
    // an invalid selector changes nothing
    bus.write_byte(0x4000, 0x05);
    assert_eq!(bus.read_byte(0xA000), 0x17);
    bus.write_byte(0x4000, 0x01);
    assert_eq!(bus.read_byte(0xA123), 0x33);
}

#[test]
fn mbc5_nine_bit_bank_allows_zero() {
    let mut bus = Bus::new(controller(2, 0x19, 0x08, 0x04));
    bus.write_byte(0x2000, 0x00);
    assert_eq!(bus.read_byte(0x4000), 0x00);
    let mut image = banked_image(2, 0x19, 0x08, 0x04);
    image.resize(0x101 * 0x4000 + 1, 0x00);
    image[0x101 * 0x4000] = 0x99;
    let mut bus = Bus::new(get_mmu(CartridgeInfo::new(image)).unwrap());
    bus.write_byte(0x2000, 0x01);
    bus.write_byte(0x3000, 0x01);
    assert_eq!(bus.read_byte(0x4000), 0x99);
    bus.write_byte(0x0000, 0x0A);
    bus.write_byte(0x4000, 0x0F);
    bus.write_byte(0xA000, 0x44);
    bus.write_byte(0x4000, 0x00);
    assert_eq!(bus.read_byte(0xA000), 0x00);
    bus.write_byte(0x4000, 0x0F);
    assert_eq!(bus.read_byte(0xA000), 0x44);
}

#[test]
fn words_are_little_endian_and_wrap() {
    let mut image = banked_image(2, 0x00, 0x00, 0x02);
    image[0x0000] = 0x34;
    image[0x0200] = 0xCD;
    image[0x0201] = 0xAB;
    let mut bus = Bus::new(get_mmu(CartridgeInfo::new(image)).unwrap());
    assert_eq!(bus.read_word(0x0200), 0xABCD);
    assert_eq!(bus.read_word(0xFFFF), 0x34FF);
    bus.write_word(0xA010, 0xBEEF);
    assert_eq!(bus.read_byte(0xA010), 0xEF);
    assert_eq!(bus.read_byte(0xA011), 0xBE);
    assert_eq!(bus.read_word(0xA010), 0xBEEF);
    assert_eq!(bus.read_mem(0xA011), 0xBE);
}

#[test]
fn machine_runs_until_budget_or_fault() {
    // INC B forever at 0x0000
    let mut image = banked_image(2, 0x00, 0x00, 0x00);
    image[0x0000] = 0x04;
    image[0x0001] = 0x18;
    image[0x0002] = 0xFD;
    let bus = Bus::new(get_mmu(CartridgeInfo::new(image)).unwrap());
    let mut gb = Gameboy::new(LR35902::new(), bus);
    assert_eq!(gb.start(10), Ok(()));
    assert_eq!(gb.cpu().get_b(), 5);
    assert_eq!(gb.cpu().get_pc(), 0x0000);

    let mut image = banked_image(2, 0x00, 0x00, 0x00);
    image[0x0000] = 0x00;
    image[0x0001] = 0xD3;
    let bus = Bus::new(get_mmu(CartridgeInfo::new(image)).unwrap());
    let mut gb = Gameboy::new(LR35902::new(), bus);
    assert_eq!(
        gb.start(100),
        Err(UnimplementedInstruction { opcode: 0xD3, prefixed: false, pc: 0x0001 })
    );
    assert_eq!(gb.cpu().get_pc(), 0x0001);
    assert_eq!(gb.bus().read_byte(0x0001), 0xD3);
}

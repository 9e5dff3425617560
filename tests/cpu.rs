use gameboy::cpu::instructions::{call, half_carry_add, half_carry_sub, UnimplementedInstruction};
use gameboy::cpu::{Flags, GameboyCPU, LR35902};
use gameboy::hardware::bus::Bus;
use gameboy::hardware::cartridge_reader::CartridgeInfo;
use gameboy::hardware::mmu::get_mmu;

/// A 32 KB ROM-only image with `ram_code` in its header and `program`
/// placed from `at`.
fn rom_image(ram_code: u8, at: usize, program: &[u8]) -> Vec<u8> {
    let mut mem = vec![0u8; 0x8000];
    mem[0x0149] = ram_code;
    mem[at..at + program.len()].copy_from_slice(program);
    mem
}

fn machine(ram_code: u8, at: usize, program: &[u8]) -> (LR35902, Bus) {
    let mmu = get_mmu(CartridgeInfo::new(rom_image(ram_code, at, program))).unwrap();
    let mut cpu = LR35902::new();
    cpu.set_pc(at as u16);
    (cpu, Bus::new(mmu))
}

fn flags_of(cpu: &LR35902) -> (bool, bool, bool, bool) {
    let f = cpu.get_flags();
    (f.zero, f.sub, f.half_carry, f.carry)
}

#[test]
fn half_carry_boundaries() {
    assert!(half_carry_add(0x0F, 0x01));
    assert!(half_carry_add(0xFF, 0x01));
    assert!(!half_carry_add(0x0E, 0x01));
    assert!(!half_carry_add(0xF0, 0x10));
    assert!(half_carry_sub(0x00, 0x01));
    assert!(!half_carry_sub(0x01, 0x01));
    assert!(half_carry_sub(0x10, 0x01));
}

#[test]
fn half_carry_matches_nibble_formula_for_all_bytes() {
    for x in 0..=255u8 {
        for y in 0..=255u8 {
            assert_eq!(half_carry_add(x, y), ((x & 0xF) + (y & 0xF)) & 0x10 != 0);
            assert_eq!(half_carry_sub(x, y), (x & 0xF) < (y & 0xF));
        }
    }
}

#[test]
fn add_0x0f_plus_0x01_sets_half_carry_only() {
    // LD A,0x0F; LD B,0x01; ADD A,B
    let (mut cpu, mut bus) = machine(0, 0x0200, &[0x3E, 0x0F, 0x06, 0x01, 0x80]);
    assert_eq!(call(&mut cpu, &mut bus), Ok(8));
    assert_eq!(call(&mut cpu, &mut bus), Ok(8));
    assert_eq!(call(&mut cpu, &mut bus), Ok(4));
    assert_eq!(cpu.get_a(), 0x10);
    assert_eq!(flags_of(&cpu), (false, false, true, false));
}

#[test]
fn add_0xff_plus_0x01_wraps_to_zero() {
    let (mut cpu, mut bus) = machine(0, 0x0200, &[0x3E, 0xFF, 0x06, 0x01, 0x80]);
    for _ in 0..3 {
        call(&mut cpu, &mut bus).unwrap();
    }
    assert_eq!(cpu.get_a(), 0x00);
    assert_eq!(flags_of(&cpu), (true, false, true, true));
}

#[test]
fn sub_0x00_minus_0x01_borrows() {
    // LD A,0x00; LD B,0x01; SUB B
    let (mut cpu, mut bus) = machine(0, 0x0200, &[0x3E, 0x00, 0x06, 0x01, 0x90]);
    for _ in 0..3 {
        call(&mut cpu, &mut bus).unwrap();
    }
    assert_eq!(cpu.get_a(), 0xFF);
    assert_eq!(flags_of(&cpu), (false, true, true, true));
}

#[test]
fn logic_operations_set_flags() {
    // LD A,0xF0; LD B,0x0F; AND B -> 0x00, Z H
    let (mut cpu, mut bus) = machine(0, 0x0200, &[0x3E, 0xF0, 0x06, 0x0F, 0xA0]);
    for _ in 0..3 {
        call(&mut cpu, &mut bus).unwrap();
    }
    assert_eq!(cpu.get_a(), 0x00);
    assert_eq!(flags_of(&cpu), (true, false, true, false));

    // LD A,0xF0; LD C,0x0F; OR C -> 0xFF; XOR A -> 0x00
    let (mut cpu, mut bus) = machine(0, 0x0200, &[0x3E, 0xF0, 0x0E, 0x0F, 0xB1, 0xAF]);
    for _ in 0..3 {
        call(&mut cpu, &mut bus).unwrap();
    }
    assert_eq!(cpu.get_a(), 0xFF);
    assert_eq!(flags_of(&cpu), (false, false, false, false));
    assert_eq!(call(&mut cpu, &mut bus), Ok(4));
    assert_eq!(cpu.get_a(), 0x00);
    assert_eq!(flags_of(&cpu), (true, false, false, false));
}

#[test]
fn compare_keeps_accumulator() {
    // LD A,0x42; LD D,0x42; CP D
    let (mut cpu, mut bus) = machine(0, 0x0200, &[0x3E, 0x42, 0x16, 0x42, 0xBA]);
    for _ in 0..3 {
        call(&mut cpu, &mut bus).unwrap();
    }
    assert_eq!(cpu.get_a(), 0x42);
    assert_eq!(flags_of(&cpu), (true, true, false, false));
}

#[test]
fn increment_and_decrement_keep_carry() {
    let (mut cpu, mut bus) = machine(0, 0x0200, &[0x04, 0x05, 0x05]);
    cpu.set_f(0x10);
    cpu.set_b(0x0F);
    assert_eq!(call(&mut cpu, &mut bus), Ok(4));
    assert_eq!(cpu.get_b(), 0x10);
    assert_eq!(flags_of(&cpu), (false, false, true, true));
    assert_eq!(call(&mut cpu, &mut bus), Ok(4));
    assert_eq!(cpu.get_b(), 0x0F);
    assert_eq!(flags_of(&cpu), (false, true, true, true));
    cpu.set_b(0x01);
    assert_eq!(call(&mut cpu, &mut bus), Ok(4));
    assert_eq!(cpu.get_b(), 0x00);
    assert_eq!(flags_of(&cpu), (true, true, false, true));
}

#[test]
fn add_hl_carries_from_bits_11_and_15() {
    // ADD HL,BC
    let (mut cpu, mut bus) = machine(0, 0x0200, &[0x09, 0x09]);
    cpu.set_f(0x80);
    cpu.set_hl(0x0FFF);
    cpu.set_bc(0x0001);
    assert_eq!(call(&mut cpu, &mut bus), Ok(8));
    assert_eq!(cpu.get_hl(), 0x1000);
    assert_eq!(flags_of(&cpu), (true, false, true, false));
    cpu.set_hl(0xF000);
    cpu.set_bc(0x1000);
    call(&mut cpu, &mut bus).unwrap();
    assert_eq!(cpu.get_hl(), 0x0000);
    assert_eq!(flags_of(&cpu), (true, false, false, true));
}

#[test]
fn flags_round_trip_all_combinations() {
    for bits in 0..16u8 {
        let f = Flags {
            zero: bits & 8 != 0,
            sub: bits & 4 != 0,
            half_carry: bits & 2 != 0,
            carry: bits & 1 != 0,
        };
        let packed = f.get_byte();
        assert_eq!(packed & 0x0F, 0);
        assert_eq!(packed, bits << 4);
        let mut g = Flags { zero: false, sub: false, half_carry: false, carry: false };
        g.set_byte(packed);
        assert_eq!(g, f);
    }
}

#[test]
fn flag_byte_layout() {
    let mut cpu = LR35902::new();
    cpu.set_f(0xFF);
    assert_eq!(cpu.get_f(), 0xF0);
    cpu.set_af(0x12A0);
    assert_eq!(cpu.get_a(), 0x12);
    assert_eq!(flags_of(&cpu), (true, false, true, false));
    assert_eq!(cpu.get_af(), 0x12A0);
}

#[test]
fn register_pairing_round_trip() {
    let mut cpu = LR35902::new();
    for hi in 0..=255u8 {
        for lo in 0..=255u8 {
            cpu.set_b(hi);
            cpu.set_c(lo);
            assert_eq!((cpu.get_b(), cpu.get_c()), (hi, lo));
            assert_eq!(cpu.get_bc(), (hi as u16) << 8 | lo as u16);
            cpu.set_d(hi);
            cpu.set_e(lo);
            assert_eq!((cpu.get_d(), cpu.get_e()), (hi, lo));
            cpu.set_h(hi);
            cpu.set_l(lo);
            assert_eq!((cpu.get_h(), cpu.get_l()), (hi, lo));
            assert_eq!(cpu.get_hl(), (hi as u16) << 8 | lo as u16);
        }
    }
}

#[test]
fn setting_one_half_keeps_the_other() {
    let mut cpu = LR35902::new();
    cpu.set_de(0xABCD);
    cpu.set_d(0x12);
    assert_eq!(cpu.get_e(), 0xCD);
    assert_eq!(cpu.get_de(), 0x12CD);
    cpu.set_e(0x34);
    assert_eq!(cpu.get_d(), 0x12);
    assert_eq!(cpu.get_de(), 0x1234);
}

#[test]
fn relative_jump_taken() {
    // JR 0x05 with the displacement at 0x0150
    let (mut cpu, mut bus) = machine(0, 0x014F, &[0x18, 0x05]);
    assert_eq!(cpu.step(&mut bus), Ok(12));
    assert_eq!(cpu.get_pc(), 0x0156);
}

#[test]
fn relative_jump_not_taken() {
    // JR NZ,0x05 with Z set
    let (mut cpu, mut bus) = machine(0, 0x014F, &[0x20, 0x05]);
    cpu.set_f(0x80);
    assert_eq!(cpu.step(&mut bus), Ok(8));
    assert_eq!(cpu.get_pc(), 0x0151);
}

#[test]
fn relative_jump_backwards() {
    // JR -2 loops onto itself
    let (mut cpu, mut bus) = machine(0, 0x0200, &[0x18, 0xFE]);
    assert_eq!(cpu.step(&mut bus), Ok(12));
    assert_eq!(cpu.get_pc(), 0x0200);
}

#[test]
fn push_moves_stack_pointer_down_by_two() {
    // LD BC,0xBEEF; PUSH BC; POP DE with SP at 0xFFFE
    let (mut cpu, mut bus) = machine(0, 0x0200, &[0x01, 0xEF, 0xBE, 0xC5, 0xD1]);
    cpu.set_sp(0xFFFE);
    assert_eq!(call(&mut cpu, &mut bus), Ok(12));
    assert_eq!(cpu.get_bc(), 0xBEEF);
    assert_eq!(call(&mut cpu, &mut bus), Ok(16));
    assert_eq!(cpu.get_sp(), 0xFFFC);
    assert_eq!(call(&mut cpu, &mut bus), Ok(12));
    assert_eq!(cpu.get_sp(), 0xFFFE);
}

#[test]
fn push_then_pop_in_cartridge_ram() {
    // RAM code 2: 8 KB mapped at 0xA000 without a controller
    let (mut cpu, mut bus) = machine(2, 0x0200, &[0x01, 0xEF, 0xBE, 0xC5, 0xD1]);
    cpu.set_sp(0xA002);
    call(&mut cpu, &mut bus).unwrap();
    call(&mut cpu, &mut bus).unwrap();
    assert_eq!(cpu.get_sp(), 0xA000);
    assert_eq!(bus.read_byte(0xA000), 0xEF);
    assert_eq!(bus.read_byte(0xA001), 0xBE);
    call(&mut cpu, &mut bus).unwrap();
    assert_eq!(cpu.get_sp(), 0xA002);
    assert_eq!(cpu.get_de(), 0xBEEF);
}

#[test]
fn call_and_return() {
    // CALL 0x0300 at 0x0200; RET at 0x0300
    let mut image = rom_image(2, 0x0200, &[0xCD, 0x00, 0x03]);
    image[0x0300] = 0xC9;
    let mut bus = Bus::new(get_mmu(CartridgeInfo::new(image)).unwrap());
    let mut cpu = LR35902::new();
    cpu.set_pc(0x0200);
    cpu.set_sp(0xA010);
    assert_eq!(call(&mut cpu, &mut bus), Ok(24));
    assert_eq!(cpu.get_pc(), 0x0300);
    assert_eq!(cpu.get_sp(), 0xA00E);
    assert_eq!(bus.read_word(0xA00E), 0x0203);
    assert_eq!(call(&mut cpu, &mut bus), Ok(16));
    assert_eq!(cpu.get_pc(), 0x0203);
    assert_eq!(cpu.get_sp(), 0xA010);
}

#[test]
fn conditional_call_and_return_costs() {
    // CALL NZ,0x0300 and RET NZ, neither taken with Z set
    let (mut cpu, mut bus) = machine(0, 0x0200, &[0xC4, 0x00, 0x03, 0xC0]);
    cpu.set_f(0x80);
    assert_eq!(call(&mut cpu, &mut bus), Ok(12));
    assert_eq!(cpu.get_pc(), 0x0203);
    assert_eq!(call(&mut cpu, &mut bus), Ok(8));
    assert_eq!(cpu.get_pc(), 0x0204);
}

#[test]
fn absolute_jumps() {
    // JP NZ,0x1234 with Z set, then JP 0x4321
    let (mut cpu, mut bus) = machine(0, 0x0200, &[0xC2, 0x34, 0x12, 0xC3, 0x21, 0x43]);
    cpu.set_f(0x80);
    assert_eq!(call(&mut cpu, &mut bus), Ok(12));
    assert_eq!(cpu.get_pc(), 0x0203);
    assert_eq!(call(&mut cpu, &mut bus), Ok(16));
    assert_eq!(cpu.get_pc(), 0x4321);
}

#[test]
fn immediate_words_are_little_endian() {
    // LD SP,0x1234; LD HL,0xC0DE
    let (mut cpu, mut bus) = machine(0, 0x0200, &[0x31, 0x34, 0x12, 0x21, 0xDE, 0xC0]);
    call(&mut cpu, &mut bus).unwrap();
    call(&mut cpu, &mut bus).unwrap();
    assert_eq!(cpu.get_sp(), 0x1234);
    assert_eq!(cpu.get_hl(), 0xC0DE);
    assert_eq!(cpu.get_pc(), 0x0206);
}

#[test]
fn loads_through_hl() {
    // LD HL,0xA000; LD (HL),0x5A; LD E,(HL); LD (HL+),A; LD A,(HL-); LD (HL),E
    let (mut cpu, mut bus) =
        machine(2, 0x0200, &[0x21, 0x00, 0xA0, 0x36, 0x5A, 0x5E, 0x22, 0x3A, 0x73]);
    cpu.set_a(0x77);
    call(&mut cpu, &mut bus).unwrap();
    assert_eq!(call(&mut cpu, &mut bus), Ok(12));
    assert_eq!(bus.read_byte(0xA000), 0x5A);
    assert_eq!(call(&mut cpu, &mut bus), Ok(8));
    assert_eq!(cpu.get_e(), 0x5A);
    assert_eq!(call(&mut cpu, &mut bus), Ok(8));
    assert_eq!(bus.read_byte(0xA000), 0x77);
    assert_eq!(cpu.get_hl(), 0xA001);
    call(&mut cpu, &mut bus).unwrap();
    assert_eq!(cpu.get_a(), 0x00);
    assert_eq!(cpu.get_hl(), 0xA000);
    assert_eq!(call(&mut cpu, &mut bus), Ok(8));
    assert_eq!(bus.read_byte(0xA000), 0x5A);
}

#[test]
fn register_to_register_load() {
    // LD B,0x99; LD A,B
    let (mut cpu, mut bus) = machine(0, 0x0200, &[0x06, 0x99, 0x78]);
    call(&mut cpu, &mut bus).unwrap();
    assert_eq!(call(&mut cpu, &mut bus), Ok(4));
    assert_eq!(cpu.get_a(), 0x99);
}

#[test]
fn interrupt_latch_toggles() {
    let (mut cpu, mut bus) = machine(0, 0x0200, &[0xFB, 0xF3]);
    assert_eq!(call(&mut cpu, &mut bus), Ok(4));
    assert!(cpu.get_ime());
    assert_eq!(call(&mut cpu, &mut bus), Ok(4));
    assert!(!cpu.get_ime());
}

#[test]
fn unimplemented_opcode_is_reported_with_its_address() {
    let (mut cpu, mut bus) = machine(0, 0x0104, &[0xE3]);
    assert_eq!(
        call(&mut cpu, &mut bus),
        Err(UnimplementedInstruction { opcode: 0xE3, prefixed: false, pc: 0x0104 })
    );
    assert_eq!(cpu.get_pc(), 0x0104);
}

#[test]
fn unimplemented_prefixed_opcode_is_reported() {
    let (mut cpu, mut bus) = machine(0, 0x0300, &[0xCB, 0x08]);
    assert_eq!(
        call(&mut cpu, &mut bus),
        Err(UnimplementedInstruction { opcode: 0x08, prefixed: true, pc: 0x0300 })
    );
    assert_eq!(cpu.get_pc(), 0x0300);
}

#[test]
fn halt_slot_is_unimplemented() {
    let (mut cpu, mut bus) = machine(0, 0x0200, &[0x76]);
    assert_eq!(
        call(&mut cpu, &mut bus),
        Err(UnimplementedInstruction { opcode: 0x76, prefixed: false, pc: 0x0200 })
    );
}

#[test]
fn rotate_left_circular() {
    // RLC B
    let (mut cpu, mut bus) = machine(0, 0x0200, &[0xCB, 0x00, 0xCB, 0x00]);
    cpu.set_b(0x85);
    assert_eq!(call(&mut cpu, &mut bus), Ok(8));
    assert_eq!(cpu.get_b(), 0x0B);
    assert_eq!(flags_of(&cpu), (false, false, false, true));
    cpu.set_b(0x00);
    call(&mut cpu, &mut bus).unwrap();
    assert_eq!(cpu.get_b(), 0x00);
    assert_eq!(flags_of(&cpu), (true, false, false, false));
}

#[test]
fn bit_test_costs() {
    // BIT 7,H; BIT 0,(HL)
    let (mut cpu, mut bus) = machine(0, 0x0200, &[0xCB, 0x7C, 0xCB, 0x46]);
    cpu.set_f(0x10);
    cpu.set_hl(0x8000);
    assert_eq!(call(&mut cpu, &mut bus), Ok(8));
    assert_eq!(flags_of(&cpu), (false, false, true, true));
    assert_eq!(call(&mut cpu, &mut bus), Ok(12));
    // 0x8000 is unmapped: it reads 0xFF, so bit 0 is set
    assert_eq!(flags_of(&cpu), (false, false, true, true));
}

#[test]
fn set_and_reset_bits() {
    // SET 3,A; RES 7,A; SET 0,(HL); RES 0,(HL)
    let (mut cpu, mut bus) = machine(2, 0x0200, &[0xCB, 0xDF, 0xCB, 0xBF, 0xCB, 0xC6, 0xCB, 0x86]);
    cpu.set_a(0x80);
    cpu.set_hl(0xA000);
    assert_eq!(call(&mut cpu, &mut bus), Ok(8));
    assert_eq!(cpu.get_a(), 0x88);
    assert_eq!(call(&mut cpu, &mut bus), Ok(8));
    assert_eq!(cpu.get_a(), 0x08);
    assert_eq!(call(&mut cpu, &mut bus), Ok(16));
    assert_eq!(bus.read_byte(0xA000), 0x01);
    assert_eq!(call(&mut cpu, &mut bus), Ok(16));
    assert_eq!(bus.read_byte(0xA000), 0x00);
}

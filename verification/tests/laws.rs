use gameboy_emulator::address_bus::cartridge::{as_max_banks, load_rom_buffer};
use gameboy_emulator::address_bus::constants::{
    CARTRIDGE_TYPE_ADDRESS, CART_TYPE_MBC1_WITH_RAM_PLUS_BATTERY, CART_TYPE_ROM_ONLY, RAM_SIZE_2KB, RAM_SIZE_ADDRESS,
    ROM_SIZE_64KB, ROM_SIZE_ADDRESS,
};
use gameboy_emulator::address_bus::AddressBus;
use gameboy_emulator::cheats::{initialize_cheats, Cheat};
use gameboy_emulator::cpu::bitops::{shift_byte, ShiftKind};
use gameboy_emulator::cpu::timers::TimerRegisters;
use gameboy_emulator::cpu::{register_hl, Cpu};
use gameboy_emulator::gpu::colors::{initialize_palettes, set_cgb_bcpd, set_cgb_bcps};
use gameboy_emulator::joypad::{Joypad, Key};

fn build_rom(cartridge_type: u8, rom_size_index: u8, ram_size_index: u8) -> Vec<u8> {
    let mut rom_buffer: Vec<u8> = Vec::new();
    let number_of_banks = as_max_banks(rom_size_index) as u32;
    rom_buffer.resize((0x4000 * number_of_banks) as usize, 0);
    rom_buffer[CARTRIDGE_TYPE_ADDRESS] = cartridge_type;
    rom_buffer[ROM_SIZE_ADDRESS] = rom_size_index;
    rom_buffer[RAM_SIZE_ADDRESS] = ram_size_index;
    rom_buffer
}

fn cpu_with_instructions(instructions: &[u8]) -> Cpu {
    let mut rom = build_rom(CART_TYPE_ROM_ONLY, ROM_SIZE_64KB, RAM_SIZE_2KB);
    rom[..instructions.len()].copy_from_slice(instructions);
    let mut cpu = Cpu::new(AddressBus::new(false));
    cpu.address_bus.load_rom_buffer(rom).unwrap();
    cpu.address_bus.set_in_bios(false);
    cpu.step();
    cpu
}

#[test]
fn pressed_key_reads_down_and_release_restores_the_joypad() {
    let mut joypad = Joypad::new();
    joypad.write_byte(0x20);
    joypad.handle_key_press(&Key::Down);
    assert_eq!(joypad.read_byte() & 0b1000, 0);
    assert!(joypad.interrupt);
    joypad.handle_key_release(&Key::Down);
    assert_eq!(joypad.read_byte() & 0b1000, 0b1000);
    assert_eq!(joypad.directional_buttons, 0xF);
    assert_eq!(joypad.select_buttons, 0xF);
    joypad.write_byte(0x10);
    joypad.handle_key_press(&Key::A);
    assert_eq!(joypad.read_byte(), 0xDE);
}

#[test]
fn plain_memory_reads_back_what_was_written() {
    let mut address_bus = AddressBus::new(false);
    address_bus.set_in_bios(false);
    for &address in [0x8010u16, 0xC123, 0xD456, 0xE123, 0xFE10, 0xFF90, 0xFFFF].iter() {
        address_bus.write_byte(address, 0x5A);
        assert_eq!(address_bus.read_byte(address), 0x5A);
    }
    // Echo RAM mirrors working RAM.
    assert_eq!(address_bus.read_byte(0xC123), 0x5A);
}

#[test]
fn unregistering_a_cheat_restores_memory_reads() {
    let mut cheats = initialize_cheats();
    let cheat = Cheat { address: 0xC010, new_data: 0x99, maybe_old_data: None, maybe_bank: None };
    assert_eq!(cheats.register("first", cheat), None);
    assert_eq!(cheats.apply(0xC010, 0x12, 1), 0x99);
    assert_eq!(cheats.apply(0xC011, 0x12, 1), 0x12);
    cheats.unregister("first");
    assert_eq!(cheats.registered.len(), 0);
    assert_eq!(cheats.apply(0xC010, 0x12, 1), 0x12);
}

#[test]
fn eleventh_cheat_is_refused() {
    let mut cheats = initialize_cheats();
    let cheat = Cheat { address: 0xC010, new_data: 0x99, maybe_old_data: None, maybe_bank: None };
    for id in ["0", "1", "2", "3", "4", "5", "6", "7", "8", "9"].iter() {
        assert_eq!(cheats.register(id, cheat), None);
    }
    assert_eq!(
        cheats.register("10", cheat),
        Some(String::from("You cannot register more than 10 cheats at a time."))
    );
    assert_eq!(cheats.registered.len(), 10);
}

#[test]
fn palette_index_auto_increment_wraps_to_the_first_byte() {
    let mut palettes = initialize_palettes();
    set_cgb_bcps(&mut palettes, 0b10111111);
    set_cgb_bcpd(&mut palettes, 0x42);
    assert_eq!(palettes.cgb_bcpd[63], 0x42);
    assert_eq!(palettes.cgb_bcps & 0x3F, 0);
    assert_eq!(palettes.cgb_bcps, 0b11000000);
}

#[test]
fn rotating_through_carry_left_then_right_restores_byte_and_carry() {
    let (rotated, carry) = shift_byte(ShiftKind::RotateLeftThroughCarry, 0x85, false);
    assert_eq!((rotated, carry), (0x0A, true));
    assert_eq!(shift_byte(ShiftKind::RotateRightThroughCarry, rotated, carry), (0x85, false));
    let (rotated, _) = shift_byte(ShiftKind::RotateLeft, 0x85, false);
    assert_eq!(shift_byte(ShiftKind::RotateRight, rotated, true).0, 0x85);
}

#[test]
fn subtracting_what_was_added_restores_register_a() {
    let mut cpu = cpu_with_instructions(&[0x80, 0x90]);
    cpu.registers.a = 0x3C;
    cpu.registers.b = 0xF1;
    cpu.step();
    assert_eq!(cpu.registers.a, 0x2D);
    cpu.step();
    assert_eq!(cpu.registers.a, 0x3C);
    assert_eq!(cpu.registers.f & 0x10, 0x10);
}

#[test]
fn daa_after_decimal_addition_gives_the_decimal_sum() {
    let mut cpu = cpu_with_instructions(&[0x80, 0x27]);
    cpu.registers.a = 0x45;
    cpu.registers.b = 0x38;
    cpu.step();
    cpu.step();
    assert_eq!(cpu.registers.a, 0x83);
    assert_eq!(cpu.registers.f & 0x10, 0);

    let mut cpu = cpu_with_instructions(&[0x80, 0x27]);
    cpu.registers.a = 0x75;
    cpu.registers.b = 0x48;
    cpu.step();
    cpu.step();
    assert_eq!(cpu.registers.a, 0x23);
    assert_eq!(cpu.registers.f & 0x10, 0x10);
}

#[test]
fn daa_after_decimal_subtraction_gives_the_decimal_difference() {
    let mut cpu = cpu_with_instructions(&[0x90, 0x27]);
    cpu.registers.a = 0x23;
    cpu.registers.b = 0x48;
    cpu.step();
    cpu.step();
    assert_eq!(cpu.registers.a, 0x75);
    assert_eq!(cpu.registers.f & 0x10, 0x10);
}

#[test]
fn register_pair_reads_back_the_stored_word() {
    let mut cpu = Cpu::new(AddressBus::new(false));
    cpu.store_in_register_pair(register_hl(), 0xBEEF);
    assert_eq!(cpu.read_from_register_pair(&register_hl()), 0xBEEF);
    assert_eq!(cpu.registers.h, 0xBE);
    assert_eq!(cpu.registers.l, 0xEF);
}

#[test]
fn divider_advances_once_every_sixty_four_machine_cycles() {
    let mut timers = TimerRegisters::new();
    for _ in 0..63 {
        timers.step();
    }
    assert_eq!(timers.divider, 0);
    timers.step();
    assert_eq!(timers.divider, 1);
    assert_eq!(timers.divider_clock, 0);
    assert_eq!(timers.m_cycles_clock, 0);
}

#[test]
fn counter_advances_at_the_rate_tac_selects() {
    let mut timers = TimerRegisters::new();
    timers.control = 0x06;
    for _ in 0..15 {
        timers.step();
    }
    assert_eq!(timers.counter, 0);
    timers.step();
    assert_eq!(timers.counter, 1);
}

#[test]
fn battery_ram_write_is_reported_once_for_saving() {
    let rom = build_rom(CART_TYPE_MBC1_WITH_RAM_PLUS_BATTERY, ROM_SIZE_64KB, RAM_SIZE_2KB);
    let mut mapper = load_rom_buffer(rom).unwrap();
    assert_eq!(mapper.take_ram_save_pending(), false);
    mapper.write_rom(0x0000, 0xA);
    mapper.write_ram(0x0010, 0x77);
    assert_eq!(mapper.take_ram_save_pending(), true);
    assert_eq!(mapper.take_ram_save_pending(), false);
    assert_eq!(mapper.read_ram(0x0010), 0x77);
}

#[test]
fn visible_line_takes_one_hundred_fourteen_machine_cycles() {
    let mut gpu = gameboy_emulator::gpu::Gpu::new();
    gpu.lcdc = 0x80;
    gpu.mode = 2;
    gpu.mode_clock = 0;
    gpu.ly = 5;
    let mut hdma = gameboy_emulator::address_bus::hdma::HDMAState::new();
    for _ in 0..20 {
        gpu.step(gameboy_emulator::gpu::GpuParams { hdma: &mut hdma, in_color_bios: false });
    }
    assert_eq!(gpu.mode, 3);
    for _ in 0..43 {
        gpu.step(gameboy_emulator::gpu::GpuParams { hdma: &mut hdma, in_color_bios: false });
    }
    assert_eq!(gpu.mode, 0);
    for _ in 0..51 {
        gpu.step(gameboy_emulator::gpu::GpuParams { hdma: &mut hdma, in_color_bios: false });
    }
    assert_eq!(gpu.mode, 2);
    assert_eq!(gpu.mode_clock, 0);
    assert_eq!(gpu.ly, 6);
}

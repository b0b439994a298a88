use gameboy_emulator::address_bus::cartridge::{as_max_banks, load_rom_buffer, CartridgeMapper};
use gameboy_emulator::address_bus::constants::{
    CARTRIDGE_TYPE_ADDRESS, CART_TYPE_MBC1, CART_TYPE_MBC1_WITH_RAM, CART_TYPE_MBC1_WITH_RAM_PLUS_BATTERY,
    RAM_SIZE_2KB, RAM_SIZE_32KB, RAM_SIZE_ADDRESS, ROM_SIZE_128KB, ROM_SIZE_256KB, ROM_SIZE_2MB,
    ROM_SIZE_64KB, ROM_SIZE_ADDRESS,
};
use gameboy_emulator::address_bus::dma::{DMAState, DMA_TRANSFER_BYTES};
use gameboy_emulator::address_bus::hdma::{HDMAState, VRAMTransferMode};
use gameboy_emulator::address_bus::speed_switch::SpeedSwitch;
use gameboy_emulator::address_bus::AddressBus;
use gameboy_emulator::cheats::{parse_gamegenie_code, parse_gameshark_code, Cheat};
use gameboy_emulator::cpu::hdma as cpu_hdma;
use gameboy_emulator::cpu::timers::TimerRegisters;
use gameboy_emulator::dma::vram::{
    calculate_vram_dma_transfer_length, get_vram_dma_destination, get_vram_dma_source,
    get_vram_dma_transfer_mode, initialize_vram_dma, set_hdma1, set_hdma2, set_hdma3, set_hdma4, set_hdma5,
};

fn build_rom(cartridge_type: u8, rom_size_index: u8, ram_size_index: u8) -> Vec<u8> {
    let mut rom_buffer: Vec<u8> = Vec::new();
    let number_of_banks = as_max_banks(rom_size_index) as u32;
    rom_buffer.resize((0x4000 * number_of_banks) as usize, 0);
    rom_buffer[CARTRIDGE_TYPE_ADDRESS] = cartridge_type;
    rom_buffer[ROM_SIZE_ADDRESS] = rom_size_index;
    rom_buffer[RAM_SIZE_ADDRESS] = ram_size_index;
    rom_buffer
}

fn build_cartridge_mapper(cartridge_type: u8, rom_size_index: u8, ram_size_index: u8) -> CartridgeMapper {
    load_rom_buffer(build_rom(cartridge_type, rom_size_index, ram_size_index)).unwrap()
}

fn initialize_test_address_bus() -> AddressBus {
    AddressBus::new(false)
}

// Cheats

#[test]
fn cheats_should_parse_gameshark_code() {
    let gameshark_code = "01FF56D3";
    let cheat = parse_gameshark_code(gameshark_code).unwrap();
    assert_eq!(cheat.address, 0xD356);
    assert_eq!(cheat.new_data, 0xFF);
    assert_eq!(cheat.maybe_old_data, None);
    assert_eq!(cheat.maybe_bank, Some(1));
}

#[test]
fn cheats_should_apply_gameshark_code() {
    let mut address_bus = initialize_test_address_bus();
    address_bus.set_cgb_mode(true);

    let cheat = Cheat { address: 0xD356, new_data: 0xFF, maybe_old_data: None, maybe_bank: Some(1) };

    address_bus.cheats.register("da9a7056-ad9b-4ca1-9049-688931b279a3", cheat);

    // Switch to working RAM bank 1
    address_bus.write_byte(0xFF70, 1);

    let byte = address_bus.read_byte(0xD356);

    assert_eq!(byte, 0xFF);
}

#[test]
fn cheats_should_parse_gamegenie_code() {
    let gamegenie_code = "CED-56A-D50";
    let cheat = parse_gamegenie_code(gamegenie_code).unwrap();
    assert_eq!(cheat.new_data, 0xCE);
    assert_eq!(cheat.address, 0x5D56);
    assert_eq!(cheat.maybe_old_data, Some(0x8E));
    assert_eq!(cheat.maybe_bank, None);
}

#[test]
fn cheats_should_apply_gamegenie_code() {
    let mut address_bus = initialize_test_address_bus();
    address_bus.set_cgb_mode(true);

    let mut test_rom = build_rom(CART_TYPE_MBC1_WITH_RAM, ROM_SIZE_64KB, RAM_SIZE_2KB);
    test_rom[0x5D56] = 0x8E;
    address_bus.load_rom_buffer(test_rom).unwrap();

    let cheat = Cheat { address: 0x5D56, new_data: 0xCE, maybe_old_data: Some(0x8E), maybe_bank: None };

    address_bus.cheats.register("da9a7056-ad9b-4ca1-9049-688931b279a3", cheat);

    let byte = address_bus.read_byte(0x5D56);

    assert_eq!(byte, 0xCE);
}

#[test]
fn cheats_should_parse_gamegenie_code_without_compare_value() {
    let gamegenie_code = "CED-56A";
    let cheat = parse_gamegenie_code(gamegenie_code).unwrap();
    assert_eq!(cheat.new_data, 0xCE);
    assert_eq!(cheat.address, 0x5D56);
    assert_eq!(cheat.maybe_old_data, None);
    assert_eq!(cheat.maybe_bank, None);
}

// OAM DMA

#[test]
fn dma_should_start_dma_transfer() {
    let mut dma = DMAState::new();
    dma.start_dma(0x12);
    assert_eq!(dma.source_address(), 0x1200);
    assert_eq!(dma.offset(), 0x0);
    assert_eq!(dma.in_progress(), true);
}

#[test]
fn dma_should_allow_modifications_to_dma_register_if_transfer_is_already_in_progress() {
    let mut dma = DMAState::new();
    dma.set_in_progress(true);
    dma.start_dma(0x12);
    assert_eq!(dma.source_address(), 0x1200);
    assert_eq!(dma.offset(), 0x0);
    assert_eq!(dma.in_progress(), true);
}

#[test]
fn dma_should_transfer_byte_from_source_to_destination() {
    let mut address_bus = initialize_test_address_bus();

    let mut rom = build_rom(CART_TYPE_MBC1, ROM_SIZE_64KB, RAM_SIZE_2KB);
    rom[0x1200] = 0x12;
    address_bus.load_rom_buffer(rom).unwrap();

    address_bus.dma.set_source_address(0x1200);
    address_bus.dma.set_offset(0x0);
    address_bus.dma.set_in_progress(true);

    address_bus.dma_step();

    assert_eq!(address_bus.gpu.get_object_attribute_memory_byte(0), 0x12);
    assert_eq!(address_bus.dma.source_address(), 0x1200);
    assert_eq!(address_bus.dma.offset(), 1);
    assert_eq!(address_bus.dma.in_progress(), true);
}

#[test]
fn dma_should_stop_dma_transfer_after_transferring_160_bytes() {
    let mut address_bus = initialize_test_address_bus();

    let mut rom = build_rom(CART_TYPE_MBC1, ROM_SIZE_64KB, RAM_SIZE_2KB);
    rom[0x129F] = 0x12;
    address_bus.load_rom_buffer(rom).unwrap();

    address_bus.dma.set_source_address(0x1200);
    address_bus.dma.set_offset(0x0);
    address_bus.dma.set_in_progress(true);

    for _ in 0..DMA_TRANSFER_BYTES {
        address_bus.dma_step();
    }

    assert_eq!(address_bus.gpu.get_object_attribute_memory_byte(0x9F), 0x12);
    assert_eq!(address_bus.dma.offset(), DMA_TRANSFER_BYTES);
    assert_eq!(address_bus.dma.in_progress(), false);
}

#[test]
fn dma_should_do_nothing_if_no_dma_transfer_is_in_progress() {
    let mut address_bus = initialize_test_address_bus();
    address_bus.dma_step();
    assert_eq!(address_bus.dma.source_address(), 0x0);
    assert_eq!(address_bus.dma.offset(), 0x0);
    assert_eq!(address_bus.dma.in_progress(), false);
}

// Speed switch

#[test]
fn should_read_from_key1_in_double_seed_mode() {
    let mut speed_switch = SpeedSwitch::new();
    speed_switch.set_cgb_mode(true);
    speed_switch.set_cgb_double_speed(true);
    assert_eq!(speed_switch.key1(), 0x80);
}

#[test]
fn should_read_from_key1_while_speed_switch_is_armed() {
    let mut speed_switch = SpeedSwitch::new();
    speed_switch.set_cgb_mode(true);
    speed_switch.set_armed(true);
    assert_eq!(speed_switch.key1(), 0x1);
}

#[test]
fn should_write_to_key1() {
    let mut speed_switch = SpeedSwitch::new();
    speed_switch.set_cgb_mode(true);
    speed_switch.set_key1(0x1);
    assert_eq!(speed_switch.armed(), true);
}

#[test]
fn should_toggle_speed_switch() {
    let mut address_bus = initialize_test_address_bus();
    address_bus.cgb_mode = true;
    address_bus.speed_switch.set_cgb_mode(true);
    address_bus.speed_switch.set_armed(true);
    address_bus.speed_switch.set_cgb_double_speed(false);
    address_bus.toggle_speed_switch();
    assert_eq!(address_bus.speed_switch.armed(), false);
    assert_eq!(address_bus.speed_switch.cgb_double_speed(), true);
}

#[test]
fn should_not_toggle_if_not_armed() {
    let mut address_bus = initialize_test_address_bus();
    address_bus.cgb_mode = true;
    address_bus.speed_switch.set_cgb_mode(true);
    address_bus.speed_switch.set_armed(false);
    address_bus.speed_switch.set_cgb_double_speed(false);
    address_bus.toggle_speed_switch();
    assert_eq!(address_bus.speed_switch.armed(), false);
    assert_eq!(address_bus.speed_switch.cgb_double_speed(), false);
}

// VRAM DMA (HDMA)

#[test]
fn hdma_should_calculate_vram_dma_source() {
    let mut hdma = HDMAState::new();
    hdma.set_cgb_mode(true);
    hdma.set_hdma1(0x71);
    hdma.set_hdma2(0xA2);
    let vram_source = hdma.get_vram_dma_source();
    assert_eq!(vram_source, 0x71A0);
}

#[test]
fn hdma_should_calculate_vram_dma_destination() {
    let mut hdma = HDMAState::new();
    hdma.set_cgb_mode(true);
    hdma.set_hdma3(0x71);
    hdma.set_hdma4(0xA2);
    let vram_destination = hdma.get_vram_dma_destination();
    assert_eq!(vram_destination, 0x91A0);
}

#[test]
fn hdma_should_get_general_purpose_for_vram_transfer_mode() {
    let mut hdma = HDMAState::new();
    hdma.set_cgb_mode(true);
    hdma.set_hdma5(0x71);
    assert_eq!(hdma.transfer_mode(), &VRAMTransferMode::GeneralPurpose);
}

#[test]
fn hdma_should_get_hblank_for_vram_transfer_mode() {
    let mut hdma = HDMAState::new();
    hdma.set_cgb_mode(true);
    hdma.set_hdma5(0xF1);
    assert_eq!(hdma.transfer_mode(), &VRAMTransferMode::HBlank);
}

#[test]
fn hdma_should_get_hdma5_when_transfer_is_not_active() {
    let mut hdma = HDMAState::new();
    hdma.set_cgb_mode(true);
    let hdma5 = hdma.hdma5();
    assert_eq!(hdma5, 0xFF);
}

#[test]
fn hdma_should_get_hdma5_when_transfer_is_active() {
    let mut hdma = HDMAState::new();
    hdma.set_cgb_mode(true);
    hdma.set_in_progress(true);
    hdma.set_transfer_length(0b01010110);
    let hdma5 = hdma.hdma5();
    assert_eq!(hdma5, 0b01010110);
}

#[test]
fn hdma_should_terminate_active_vram_dma_transfer() {
    let mut hdma = HDMAState::new();
    hdma.set_cgb_mode(true);
    hdma.set_in_progress(true);
    hdma.set_completed(false);
    hdma.set_transfer_length(0b01010110);
    hdma.set_hdma5(0x0);
    assert_eq!(hdma.in_progress(), false);
    let hdma5 = hdma.hdma5();
    assert_eq!(hdma5, 0b11010110);
}

#[test]
fn hdma_should_transfer_sixteen_bytes_in_hblank_mode() {
    let mut address_bus = initialize_test_address_bus();
    address_bus.cgb_mode = true;
    address_bus.hdma.set_cgb_mode(true);

    let mut test_instructions = build_rom(CART_TYPE_MBC1, ROM_SIZE_64KB, RAM_SIZE_2KB);
    for i in 0..32 {
        test_instructions[0x71A0 + i] = 0xA1;
    }

    address_bus.load_rom_buffer(test_instructions).unwrap();

    address_bus.hdma.set_hdma1(0x71);
    address_bus.hdma.set_hdma2(0xA2);
    address_bus.hdma.set_hdma3(0x71);
    address_bus.hdma.set_hdma4(0xA2);
    address_bus.hdma.set_hdma5(0x81); // transfer length of 0x20

    address_bus.gpu.set_mode(0); // mode 0 = hblank mode
    address_bus.hdma.set_hblank_started(true);

    address_bus.hdma_step();

    for i in 0..16 {
        assert_eq!(address_bus.gpu.get_video_ram_byte(0x11A0 + i), 0xA1);
    }

    for i in 16..32 {
        assert_eq!(address_bus.gpu.get_video_ram_byte(0x11A0 + i), 0x0);
    }

    assert_eq!(address_bus.hdma.hblank_started(), false);
}

#[test]
fn hdma_should_transfer_all_bytes_in_general_purpose_mode() {
    let mut address_bus = initialize_test_address_bus();
    address_bus.cgb_mode = true;
    address_bus.hdma.set_cgb_mode(true);

    let mut test_instructions = build_rom(CART_TYPE_MBC1, ROM_SIZE_64KB, RAM_SIZE_2KB);
    for i in 0..32 {
        test_instructions[0x71A0 + i] = 0xA1;
    }

    address_bus.load_rom_buffer(test_instructions).unwrap();

    address_bus.hdma.set_hdma1(0x71);
    address_bus.hdma.set_hdma2(0xA2);
    address_bus.hdma.set_hdma3(0x71);
    address_bus.hdma.set_hdma4(0xA2);
    address_bus.hdma.set_hdma5(0x01); // transfer length of 0x20

    address_bus.hdma_step();

    for i in 0..32 {
        assert_eq!(address_bus.gpu.get_video_ram_byte(0x11A0 + i), 0xA1);
    }
}

// The VRAM DMA registers of the older emulator-level module

#[test]
fn vram_should_calculate_vram_dma_source() {
    let mut state = initialize_vram_dma();
    set_hdma1(&mut state, 0x71);
    set_hdma2(&mut state, 0xA2);
    let vram_source = get_vram_dma_source(&state);
    assert_eq!(vram_source, 0x71A0);
}

#[test]
fn vram_should_calculate_vram_dma_destination() {
    let mut state = initialize_vram_dma();
    set_hdma3(&mut state, 0x71);
    set_hdma4(&mut state, 0xA2);
    let vram_destination = get_vram_dma_destination(&state);
    assert_eq!(vram_destination, 0x91A0);
}

#[test]
fn vram_should_get_general_purpose_for_vram_transfer_mode() {
    let mut state = initialize_vram_dma();
    set_hdma5(&mut state, 0x71);
    let mode = get_vram_dma_transfer_mode(&state);
    assert_eq!(mode, gameboy_emulator::dma::vram::VRAMTransferMode::GeneralPurpose);
}

#[test]
fn vram_should_get_hblank_for_vram_transfer_mode() {
    let mut state = initialize_vram_dma();
    set_hdma5(&mut state, 0xF1);
    let mode = get_vram_dma_transfer_mode(&state);
    assert_eq!(mode, gameboy_emulator::dma::vram::VRAMTransferMode::HBlank);
}

#[test]
fn should_calculate_vram_dma_transfer_length() {
    let mut state = initialize_vram_dma();
    set_hdma5(&mut state, 0xF1);
    let length = calculate_vram_dma_transfer_length(&state);
    assert_eq!(length, 0x720);
}

// MBC1

#[test]
fn enable_external_ram_if_correct_cartridge_type() {
    let mut mapper = build_cartridge_mapper(CART_TYPE_MBC1_WITH_RAM, ROM_SIZE_64KB, RAM_SIZE_2KB);
    mapper.write_rom(0x0000, 0xA);
    mapper.write_ram(0x0000, 0xC2);
    assert_eq!(mapper.read_ram(0x000), 0xC2);
}

#[test]
fn enable_external_ram_if_correct_cartridge_type_scenario_two() {
    let mut mapper = build_cartridge_mapper(CART_TYPE_MBC1_WITH_RAM_PLUS_BATTERY, ROM_SIZE_64KB, RAM_SIZE_2KB);
    mapper.write_rom(0x0000, 0xA);
    mapper.write_ram(0x0000, 0xC2);
    assert_eq!(mapper.read_ram(0x000), 0xC2);
}

#[test]
fn enable_external_ram_if_lower_nibble_is_equal_to_a() {
    let mut mapper = build_cartridge_mapper(CART_TYPE_MBC1_WITH_RAM, ROM_SIZE_64KB, RAM_SIZE_2KB);
    mapper.write_rom(0x0000, 0x1A);
    mapper.write_ram(0x0000, 0xC2);
    assert_eq!(mapper.read_ram(0x000), 0xC2);
}

#[test]
fn not_enable_external_ram_if_incorrect_cartridge_type() {
    let mut mapper = build_cartridge_mapper(CART_TYPE_MBC1, ROM_SIZE_64KB, RAM_SIZE_2KB);
    mapper.write_rom(0x0000, 0xA);
    mapper.write_ram(0x0000, 0xC2);
    assert_eq!(mapper.read_ram(0x000), 0xFF);
}

#[test]
fn disable_external_ram_if_correct_cartridge_type() {
    let mut mapper = build_cartridge_mapper(CART_TYPE_MBC1_WITH_RAM, ROM_SIZE_64KB, RAM_SIZE_2KB);
    mapper.write_rom(0x0000, 0xA);
    mapper.write_ram(0x0000, 0xC2);
    assert_eq!(mapper.read_ram(0x000), 0xC2);
    mapper.write_rom(0x0000, 0xB);
    mapper.write_ram(0x0000, 0xD2);
    assert_eq!(mapper.read_ram(0x000), 0xFF);
}

#[test]
fn set_rom_bank_number() {
    let mut rom = build_rom(CART_TYPE_MBC1, ROM_SIZE_128KB, RAM_SIZE_2KB);
    rom[0xC005] = 0xA1;
    let mut mapper = load_rom_buffer(rom).unwrap();
    mapper.write_rom(0x2000, 0x3);
    let byte = mapper.read_rom(0x4005);
    assert_eq!(byte, 0xA1);
}

#[test]
fn correctly_sets_lower_and_upper_bits_of_the_rom_bank_number() {
    let mut rom = build_rom(CART_TYPE_MBC1, ROM_SIZE_2MB, RAM_SIZE_2KB);
    rom[0x110005] = 0xA1;
    let mut mapper = load_rom_buffer(rom).unwrap();
    mapper.write_rom(0x4000, 0x02);
    mapper.write_rom(0x2000, 0x4);
    let byte = mapper.read_rom(0x4005);
    assert_eq!(byte, 0xA1);
}

#[test]
fn reads_bank_zero_as_bank_one() {
    let mut rom = build_rom(CART_TYPE_MBC1, ROM_SIZE_64KB, RAM_SIZE_2KB);
    rom[0x4005] = 0xCC;
    let mut mapper = load_rom_buffer(rom).unwrap();
    mapper.write_rom(0x2000, 0x0);
    let byte = mapper.read_rom(0x4005);
    assert_eq!(byte, 0xCC);
}

#[test]
fn masks_bank_number_to_required_number_of_bits() {
    let mut rom = build_rom(CART_TYPE_MBC1, ROM_SIZE_256KB, RAM_SIZE_2KB);
    rom[0] = 0xB1;
    rom[1] = 0xD2;
    rom[0x8000] = 0xBB;
    rom[0x8001] = 0xD1;
    let mut mapper = load_rom_buffer(rom).unwrap();
    mapper.write_rom(0x2000, 0x12);
    let byte = mapper.read_rom(0x4001);
    assert_eq!(byte, 0xD1);
}

#[test]
fn sets_ram_bank_number() {
    let mut mapper = build_cartridge_mapper(CART_TYPE_MBC1_WITH_RAM, ROM_SIZE_64KB, RAM_SIZE_32KB);
    // Enable RAM
    mapper.write_rom(0x0000, 0xA);
    // Switch to RAM mode
    mapper.write_rom(0x6000, 0x1);
    // Set RAM to bank 3
    mapper.write_rom(0x4000, 0x3);
    mapper.write_ram(0x0005, 0xCC);
    let first_byte = mapper.read_ram(0x0005);
    assert_eq!(first_byte, 0xCC);
    // Set RAM to bank 0
    mapper.write_rom(0x4000, 0);
    let second_byte = mapper.read_ram(0x0005);
    assert_eq!(second_byte, 0x00);
}

#[test]
fn only_allow_reading_from_ram_if_it_is_enabled() {
    let mut mapper = build_cartridge_mapper(CART_TYPE_MBC1_WITH_RAM, ROM_SIZE_64KB, RAM_SIZE_32KB);
    // Try writing to RAM even though RAM is not enabled
    mapper.write_ram(0x0005, 0xCC);
    let first_byte = mapper.read_ram(0x0005);
    assert_eq!(first_byte, 0xFF);
    // Enable RAM
    mapper.write_rom(0x0000, 0xA);
    mapper.write_ram(0x0005, 0xCC);
    let second_byte = mapper.read_ram(0x0005);
    assert_eq!(second_byte, 0xCC);
}

// Timers

#[test]
fn timers_increments_base_speed_by_number_of_m_cycles() {
    let mut timers = TimerRegisters::new();
    timers.step();
    assert_eq!(timers.m_cycles_clock, 1);
}

#[test]
fn timers_resets_base_speed_after_four_m_cycles() {
    let mut timers = TimerRegisters::new();
    timers.m_cycles_clock = 3;
    timers.step();
    assert_eq!(timers.m_cycles_clock, 0);
}

#[test]
fn timers_increments_divider_clock_after_four_m_cycles() {
    let mut timers = TimerRegisters::new();
    timers.m_cycles_clock = 3;
    timers.step();
    assert_eq!(timers.divider_clock, 1);
}

#[test]
fn timers_increments_divider_register_after_sixteen_divider_clock_increments() {
    let mut timers = TimerRegisters::new();
    timers.m_cycles_clock = 3;
    timers.divider_clock = 15;
    timers.step();
    assert_eq!(timers.divider, 1);
    assert_eq!(timers.divider_clock, 0);
}

#[test]
fn timers_wraps_when_divider_register_overflows() {
    let mut timers = TimerRegisters::new();
    timers.m_cycles_clock = 3;
    timers.divider_clock = 15;
    timers.divider = 0xFF;
    timers.step();
    assert_eq!(timers.divider, 0);
    assert_eq!(timers.divider_clock, 0);
}

#[test]
fn timers_increments_counter_register_at_a_fourth_the_rate_of_base_speed_when_configured() {
    let mut timers = TimerRegisters::new();
    timers.m_cycles_clock = 3;
    timers.base_clock = 3;
    timers.control = 0x06;
    timers.step();
    assert_eq!(timers.counter, 1);
    assert_eq!(timers.base_clock, 0);
}

#[test]
fn timers_increments_counter_register_at_a_sixteenth_of_the_rate_of_base_speed_when_configured() {
    let mut timers = TimerRegisters::new();
    timers.m_cycles_clock = 3;
    timers.base_clock = 15;
    timers.control = 0x07;
    timers.step();
    assert_eq!(timers.counter, 1);
    assert_eq!(timers.base_clock, 0);
}

#[test]
fn timers_increments_counter_register_at_a_sixty_fourth_of_the_rate_of_base_speed_when_configured() {
    let mut timers = TimerRegisters::new();
    timers.m_cycles_clock = 3;
    timers.base_clock = 63;
    timers.control = 0x04;
    timers.step();
    assert_eq!(timers.counter, 1);
    assert_eq!(timers.base_clock, 0);
}

#[test]
fn timers_increments_counter_register_at_same_rate_of_base_speed_when_configured() {
    let mut timers = TimerRegisters::new();
    timers.m_cycles_clock = 3;
    timers.base_clock = 0;
    timers.control = 0x05;
    timers.step();
    assert_eq!(timers.counter, 1);
    assert_eq!(timers.base_clock, 0);
}

#[test]
fn timers_should_not_increment_counter_register_at_wrong_time() {
    let mut timers = TimerRegisters::new();
    timers.m_cycles_clock = 3;
    timers.base_clock = 14;
    timers.control = 0x07;
    timers.step();
    assert_eq!(timers.counter, 0);
    assert_eq!(timers.base_clock, 15);
}

#[test]
fn timers_should_not_increment_counter_register_if_timer_is_off() {
    let mut timers = TimerRegisters::new();
    timers.m_cycles_clock = 3;
    timers.base_clock = 15;
    timers.control = 0;
    timers.step();
    assert_eq!(timers.counter, 0);
    assert_eq!(timers.base_clock, 15);
}

#[test]
fn timers_should_fire_interrupt_on_counter_register_overflow() {
    let mut timers = TimerRegisters::new();
    timers.m_cycles_clock = 3;
    timers.base_clock = 0x15;
    timers.control = 0x07;
    timers.counter = 0xFF;
    timers.step();
    assert_eq!(timers.counter, 0);
    assert_eq!(timers.base_clock, 0);
    assert_eq!(timers.interrupt, true);
}

#[test]
fn timers_should_reset_counter_register_to_modulo_on_overflow() {
    let mut timers = TimerRegisters::new();
    timers.m_cycles_clock = 3;
    timers.base_clock = 0x15;
    timers.control = 0x07;
    timers.counter = 0xFF;
    timers.modulo = 0x04;
    timers.step();
    assert_eq!(timers.counter, 0x04);
    assert_eq!(timers.base_clock, 0);
    assert_eq!(timers.interrupt, true);
}

// The cheat parsers as the address bus module exports them

#[test]
fn should_parse_gameshark_code() {
    let cheat = gameboy_emulator::address_bus::cheats::parse_gameshark_code("01FF56D3").unwrap();
    assert_eq!(cheat.address, 0xD356);
    assert_eq!(cheat.new_data, 0xFF);
    assert_eq!(cheat.maybe_old_data, None);
    assert_eq!(cheat.maybe_bank, Some(1));
}

#[test]
fn should_parse_gamegenie_code() {
    let cheat = gameboy_emulator::address_bus::cheats::parse_gamegenie_code("CED-56A-D50").unwrap();
    assert_eq!(cheat.new_data, 0xCE);
    assert_eq!(cheat.address, 0x5D56);
    assert_eq!(cheat.maybe_old_data, Some(0x8E));
    assert_eq!(cheat.maybe_bank, None);
}

#[test]
fn should_parse_gamegenie_code_without_compare_value() {
    let cheat = gameboy_emulator::address_bus::cheats::parse_gamegenie_code("CED-56A").unwrap();
    assert_eq!(cheat.new_data, 0xCE);
    assert_eq!(cheat.address, 0x5D56);
    assert_eq!(cheat.maybe_old_data, None);
    assert_eq!(cheat.maybe_bank, None);
}

// The HDMA registers of the CPU-level module, in CGB mode

#[test]
fn should_calculate_vram_dma_source() {
    let mut hdma = cpu_hdma::initialize_hdma();
    cpu_hdma::set_hdma1(&mut hdma, true, 0x71);
    cpu_hdma::set_hdma2(&mut hdma, true, 0xA2);
    assert_eq!(cpu_hdma::get_vram_dma_source(&hdma), 0x71A0);
}

#[test]
fn should_calculate_vram_dma_destination() {
    let mut hdma = cpu_hdma::initialize_hdma();
    cpu_hdma::set_hdma3(&mut hdma, true, 0x71);
    cpu_hdma::set_hdma4(&mut hdma, true, 0xA2);
    assert_eq!(cpu_hdma::get_vram_dma_destination(&hdma), 0x91A0);
}

#[test]
fn should_get_general_purpose_for_vram_transfer_mode() {
    let mut hdma = cpu_hdma::initialize_hdma();
    cpu_hdma::set_hdma5(&mut hdma, true, 0x71);
    assert_eq!(hdma.transfer_mode, cpu_hdma::VRAMTransferMode::GeneralPurpose);
}

#[test]
fn should_get_hblank_for_vram_transfer_mode() {
    let mut hdma = cpu_hdma::initialize_hdma();
    cpu_hdma::set_hdma5(&mut hdma, true, 0xF1);
    assert_eq!(hdma.transfer_mode, cpu_hdma::VRAMTransferMode::HBlank);
}

#[test]
fn should_get_hdma5_when_transfer_is_not_active() {
    let hdma = cpu_hdma::initialize_hdma();
    assert_eq!(cpu_hdma::get_hdma5(&hdma, true), 0xFF);
}

#[test]
fn should_get_hdma5_when_transfer_is_active() {
    let mut hdma = cpu_hdma::initialize_hdma();
    hdma.in_progress = true;
    hdma.transfer_length = 0b01010110;
    assert_eq!(cpu_hdma::get_hdma5(&hdma, true), 0b01010110);
}

#[test]
fn should_terminate_active_vram_dma_transfer() {
    let mut hdma = cpu_hdma::initialize_hdma();
    hdma.in_progress = true;
    hdma.completed = false;
    hdma.transfer_length = 0b01010110;
    cpu_hdma::set_hdma5(&mut hdma, true, 0x0);
    assert_eq!(hdma.in_progress, false);
    assert_eq!(cpu_hdma::get_hdma5(&hdma, true), 0b11010110);
}

#[test]
fn cheat_error_message_writes_address_in_decimal() {
    let error = gameboy_emulator::cheats::CheatError {
        kind: gameboy_emulator::cheats::CheatErrorKind::InvalidAddress(1234),
        text: String::new(),
    };
    assert_eq!(error.message(), "Invalid address: 1234");
    let zero = gameboy_emulator::cheats::CheatError {
        kind: gameboy_emulator::cheats::CheatErrorKind::InvalidAddress(0),
        text: String::new(),
    };
    assert_eq!(zero.message(), "Invalid address: 0");
}

#[test]
fn cheat_error_message_quotes_the_invalid_field() {
    let error = parse_gameshark_code("01ZZ50D0").err().unwrap();
    assert_eq!(error.message(), "Invalid new data byte: ZZ");
}

#[test]
fn validate_gameshark_code_gives_the_parse_message() {
    assert_eq!(gameboy_emulator::cheats::validate_gameshark_code("01ZZ50D0"), Some("Invalid new data byte: ZZ".to_string()));
    assert_eq!(gameboy_emulator::cheats::validate_gameshark_code("0102"), Some("Gameshark codes must be eight digits long.".to_string()));
    assert_eq!(gameboy_emulator::cheats::validate_gameshark_code("010350D0"), None);
}

#[test]
fn validate_gamegenie_code_quotes_the_invalid_digits() {
    assert_eq!(gameboy_emulator::cheats::validate_gamegenie_code("0G4-2BF-E66"), Some("Invalid new data byte: 0G".to_string()));
    assert_eq!(gameboy_emulator::cheats::validate_gamegenie_code("004-2ZF-E66"), Some("Invalid address word: 42Z".to_string()));
    assert_eq!(gameboy_emulator::cheats::validate_gamegenie_code("0042"), Some("Game Genie codes must be either eleven or seven digits long.".to_string()));
}

#[test]
fn gamegenie_code_is_complete_tells_which_codes_can_be_parsed() {
    assert!(gameboy_emulator::cheats::gamegenie_code_is_complete("0G4-2BF-E66"));
    assert!(gameboy_emulator::cheats::gamegenie_code_is_complete("00A-17B"));
    assert!(gameboy_emulator::cheats::gamegenie_code_is_complete("0042"));
    assert!(!gameboy_emulator::cheats::gamegenie_code_is_complete("A-B-C-D-EFG"));
}

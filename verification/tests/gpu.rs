use gameboy_emulator::address_bus::hdma::HDMAState;
use gameboy_emulator::gpu::colors::{
    as_cgb_bg_color_rgb, as_cgb_obj_color_rgb, calculate_color_id, get_cgb_bcpd, get_cgb_ocpd,
    initialize_palettes, lookup_cgb_background_palette, lookup_cgb_object_palette, set_cgb_bcpd, set_cgb_bcps,
    set_cgb_ocpd, set_cgb_ocps, Color, Palettes,
};
use gameboy_emulator::gpu::prioritization::{resolve_highest_priority_pixel, BackgroundPixel, SpritePixel};
use gameboy_emulator::gpu::sprites::{collect_scanline_sprites, Sprite};
use gameboy_emulator::gpu::{Gpu, GpuParams, GB_SCREEN_WIDTH};
use gameboy_emulator::utils::set_bit;

const WHITE: Color = [0xFF, 0xFF, 0xFF, 0xFF];
const LIGHT_GRAY: Color = [0xD3, 0xD3, 0xD3, 0xFF];
const DARK_GRAY: Color = [0xA9, 0xA9, 0xA9, 0xFF];
const BLACK: Color = [0x00, 0x00, 0x00, 0xFF];


// Mode transitions and registers

fn initialize_test_gpu() -> Gpu {
    let mut gpu = Gpu::new();
    gpu.lcdc = 0b10000000;
    gpu
}

fn step_gpu(gpu: &mut Gpu) {
    gpu.step(GpuParams {
        hdma: &mut HDMAState::new(),
        in_color_bios: false
    });
}

#[test]
fn should_move_from_oam_to_vram_mode() {
    let mut gpu = initialize_test_gpu();
    gpu.mode = 2;
    gpu.ly = 0;
    gpu.mode_clock = 76;
    step_gpu(&mut gpu);
    assert_eq!(gpu.mode, 3);
    assert_eq!(gpu.mode_clock, 0);
}

#[test]
fn should_move_from_vram_to_hblank_mode() {
    let mut gpu = initialize_test_gpu();
    gpu.mode = 3;
    gpu.ly = 0;
    gpu.mode_clock = 168;
    step_gpu(&mut gpu);
    assert_eq!(gpu.mode, 0);
    assert_eq!(gpu.mode_clock, 0);
}

#[test]
fn should_not_move_from_oam_to_vram_mode_too_early() {
    let mut gpu = initialize_test_gpu();
    gpu.mode = 2;
    gpu.ly = 0;
    gpu.mode_clock = 40;
    step_gpu(&mut gpu);
    assert_eq!(gpu.mode, 2);
    assert_eq!(gpu.mode_clock, 44);
}

#[test]
fn should_move_back_to_oam_mode_from_hblank_if_not_at_last_line() {
    let mut gpu = initialize_test_gpu();
    gpu.mode = 0;
    gpu.ly = 100;
    gpu.mode_clock = 200;
    step_gpu(&mut gpu);
    assert_eq!(gpu.mode, 2);
    assert_eq!(gpu.mode_clock, 0);
    assert_eq!(gpu.ly, 101);
}

#[test]
fn should_move_to_vblank_mode_from_hblank_if_at_last_line() {
    let mut gpu = initialize_test_gpu();
    gpu.mode = 0;
    gpu.ly = 143;
    gpu.mode_clock = 200;
    step_gpu(&mut gpu);
    assert_eq!(gpu.mode, 1);
    assert_eq!(gpu.mode_clock, 0);
    assert_eq!(gpu.ly, 144);
}

#[test]
fn should_fire_vblank_interrupt_when_entering_vblank_mode() {
    let mut gpu = initialize_test_gpu();
    gpu.mode = 0;
    gpu.ly = 143;
    gpu.mode_clock = 200;
    step_gpu(&mut gpu);
    assert_eq!(gpu.vblank_interrupt, true);
}

#[test]
fn should_move_back_to_oam_mode_from_vblank_at_correct_time() {
    let mut gpu = initialize_test_gpu();
    gpu.mode = 1;
    gpu.ly = 153;
    gpu.mode_clock = 452;
    step_gpu(&mut gpu);
    assert_eq!(gpu.mode, 2);
    assert_eq!(gpu.mode_clock, 0);
    assert_eq!(gpu.ly, 0);
}

#[test]
fn should_update_stat_register_with_mode_2_status() {
    let mut gpu = initialize_test_gpu();
    gpu.mode = 1;
    gpu.ly = 153;
    gpu.mode_clock = 452;
    gpu.stat = 0b00000001;
    step_gpu(&mut gpu);
    assert_eq!(gpu.stat, 0b00000110);
}

#[test]
fn should_fire_stat_interrupt_on_switch_to_mode_2_when_enabled() {
    let mut gpu = initialize_test_gpu();
    gpu.mode = 1;
    gpu.ly = 153;
    gpu.mode_clock = 452;
    gpu.stat = 0b00100001;
    step_gpu(&mut gpu);
    assert_eq!(gpu.stat_interrupt, true);
}

#[test]
fn should_update_stat_register_with_mode_3_status() {
    let mut gpu = initialize_test_gpu();
    gpu.mode = 2;
    gpu.ly = 0;
    gpu.mode_clock = 76;
    gpu.stat = 0b00000010;
    step_gpu(&mut gpu);
    assert_eq!(gpu.stat, 0b00000011);
}

#[test]
fn should_update_stat_register_with_mode_0_status() {
    let mut gpu = initialize_test_gpu();
    gpu.mode = 3;
    gpu.ly = 0;
    gpu.mode_clock = 168;
    gpu.stat = 0b00000011;
    step_gpu(&mut gpu);
    assert_eq!(gpu.stat, 0b00000000);
}

#[test]
fn should_fire_stat_interrupt_on_switch_to_mode_0_if_enabled() {
    let mut gpu = initialize_test_gpu();
    gpu.mode = 3;
    gpu.ly = 0;
    gpu.mode_clock = 168;
    gpu.stat = 0b00001011;
    step_gpu(&mut gpu);
    assert_eq!(gpu.stat_interrupt, true);
}

#[test]
fn should_update_stat_register_with_mode_1_status() {
    let mut gpu = initialize_test_gpu();
    gpu.mode = 0;
    gpu.ly = 143;
    gpu.mode_clock = 200;
    gpu.stat = 0b00000000;
    step_gpu(&mut gpu);
    assert_eq!(gpu.stat, 0b00000001);
}

#[test]
fn should_fire_stat_interrupt_on_switch_to_mode_1_if_enabled() {
    let mut gpu = initialize_test_gpu();
    gpu.mode = 0;
    gpu.ly = 143;
    gpu.mode_clock = 200;
    gpu.stat = 0b00010000;
    step_gpu(&mut gpu);
    assert_eq!(gpu.stat_interrupt, true);
}

#[test]
fn should_fire_stat_interrupt_when_lyc_equals_ly_if_enabled() {
    let mut gpu = initialize_test_gpu();
    gpu.mode = 0;
    gpu.ly = 13;
    gpu.lyc = 14;
    gpu.mode_clock = 200;
    gpu.stat = 0b01000000;
    step_gpu(&mut gpu);
    assert_eq!(gpu.stat_interrupt, true);
}

#[test]
fn should_update_stat_register_when_lyc_equals_ly() {
    let mut gpu = initialize_test_gpu();
    gpu.mode = 0;
    gpu.ly = 13;
    gpu.lyc = 14;
    gpu.mode_clock = 200;
    gpu.stat = 0b01000000;
    step_gpu(&mut gpu);
    assert_eq!(gpu.stat, 0b01000110);
}

#[test]
fn should_update_stat_register_when_lyc_is_not_equal_to_ly() {
    let mut gpu = initialize_test_gpu();
    gpu.mode = 0;
    gpu.ly = 14;
    gpu.lyc = 14;
    gpu.mode_clock = 200;
    gpu.stat = 0b01000100;
    step_gpu(&mut gpu);
    assert_eq!(gpu.stat, 0b01000010);
}

#[test]
fn should_not_fire_stat_interrupt_when_lyc_equals_ly_if_disabled() {
    let mut gpu = initialize_test_gpu();
    gpu.mode = 0;
    gpu.ly = 13;
    gpu.lyc = 14;
    gpu.mode_clock = 200;
    gpu.stat = 0b00000000;
    step_gpu(&mut gpu);
    assert_eq!(gpu.stat_interrupt, false);
}

#[test]
fn should_set_cgb_vbk() {
    let mut gpu = initialize_test_gpu();
    gpu.cgb_mode = true;
    gpu.set_cgb_vbk(1);
    assert_eq!(gpu.cgb_vbk, 1);
}

#[test]
fn should_get_cgb_vbk() {
    let mut gpu = initialize_test_gpu();
    gpu.cgb_mode = true;
    gpu.cgb_vbk = 1;
    assert_eq!(gpu.cgb_vbk(), 0xFF);
}

#[test]
fn should_ignore_all_bits_other_than_bit_0_when_getting_cgb_vbk() {
    let mut gpu = initialize_test_gpu();
    gpu.cgb_mode = true;
    gpu.cgb_vbk = 0b00101010;
    assert_eq!(gpu.cgb_vbk(), 0b11111110);
}

#[test]
fn should_not_set_cgb_vbk_if_dmg_mode() {
    let mut gpu = initialize_test_gpu();
    gpu.cgb_mode = false;
    gpu.set_cgb_vbk(1);
    assert_eq!(gpu.cgb_vbk, 0);
}

#[test]
fn should_return_ff_when_getting_cgb_vbk_if_dmg_mode() {
    let mut gpu = initialize_test_gpu();
    gpu.cgb_mode = false;
    gpu.set_cgb_vbk(0);
    assert_eq!(gpu.cgb_vbk(), 0xFF);
}

#[test]
fn should_read_from_bank_1_of_video_ram() {
    let mut gpu = initialize_test_gpu();
    gpu.cgb_mode = true;
    gpu.video_ram[0x3800] = 0xA1;
    gpu.set_cgb_vbk(1);
    assert_eq!(gpu.get_video_ram_byte(0x1800), 0xA1);
}

#[test]
fn should_set_byte_in_bank_1_of_video_ram() {
    let mut gpu = initialize_test_gpu();
    gpu.cgb_mode = true;
    gpu.set_cgb_vbk(1);
    gpu.set_video_ram_byte(0x1802, 0xA1);
    assert_eq!(gpu.video_ram[0x3802], 0xA1);
}

#[test]
fn should_read_from_bank_0_of_video_ram() {
    let mut gpu = initialize_test_gpu();
    gpu.cgb_mode = true;
    gpu.video_ram[0x1800] = 0xA1;
    gpu.set_cgb_vbk(0);
    assert_eq!(gpu.get_video_ram_byte(0x1800), 0xA1);
}

#[test]
fn should_set_byte_in_bank_0_of_video_ram() {
    let mut gpu = initialize_test_gpu();
    gpu.cgb_mode = true;
    gpu.set_cgb_vbk(0);
    gpu.set_video_ram_byte(0x1802, 0xA1);
    assert_eq!(gpu.video_ram[0x1802], 0xA1);
}
// Palettes


fn setup_test_background_palettes(palettes: &mut Palettes) {
    palettes.cgb_bcpd[0] = 0x11;
    palettes.cgb_bcpd[1] = 0x11;
    palettes.cgb_bcpd[2] = 0x22;
    palettes.cgb_bcpd[3] = 0x22;
    palettes.cgb_bcpd[4] = 0x33;
    palettes.cgb_bcpd[5] = 0x33;
    palettes.cgb_bcpd[6] = 0x44;
    palettes.cgb_bcpd[7] = 0x44;
    palettes.cgb_bcpd[8] = 0x55;
    palettes.cgb_bcpd[9] = 0x55;
    palettes.cgb_bcpd[10] = 0x66;
    palettes.cgb_bcpd[11] = 0x66;
    palettes.cgb_bcpd[12] = 0x77;
    palettes.cgb_bcpd[13] = 0x77;
    palettes.cgb_bcpd[14] = 0x88;
    palettes.cgb_bcpd[15] = 0x88;
    palettes.cgb_bcpd[16] = 0x99;
    palettes.cgb_bcpd[17] = 0x99;
    palettes.cgb_bcpd[18] = 0xAA;
    palettes.cgb_bcpd[19] = 0xAA;
    palettes.cgb_bcpd[20] = 0xBB;
    palettes.cgb_bcpd[21] = 0xBB;
    palettes.cgb_bcpd[22] = 0xCC;
    palettes.cgb_bcpd[23] = 0xCC;
    palettes.cgb_bcpd[24] = 0xDD;
    palettes.cgb_bcpd[25] = 0xDD;
    palettes.cgb_bcpd[26] = 0xEE;
    palettes.cgb_bcpd[27] = 0xEE;
    palettes.cgb_bcpd[28] = 0xFF;
    palettes.cgb_bcpd[29] = 0xFF;
}

fn setup_test_object_palettes(palettes: &mut Palettes) {
    palettes.cgb_ocpd[0] = 0x11;
    palettes.cgb_ocpd[1] = 0x11;
    palettes.cgb_ocpd[2] = 0x22;
    palettes.cgb_ocpd[3] = 0x22;
    palettes.cgb_ocpd[4] = 0x33;
    palettes.cgb_ocpd[5] = 0x33;
    palettes.cgb_ocpd[6] = 0x44;
    palettes.cgb_ocpd[7] = 0x44;
    palettes.cgb_ocpd[8] = 0x55;
    palettes.cgb_ocpd[9] = 0x55;
    palettes.cgb_ocpd[10] = 0x66;
    palettes.cgb_ocpd[11] = 0x66;
    palettes.cgb_ocpd[12] = 0x77;
    palettes.cgb_ocpd[13] = 0x77;
    palettes.cgb_ocpd[14] = 0x88;
    palettes.cgb_ocpd[15] = 0x88;
    palettes.cgb_ocpd[16] = 0x99;
    palettes.cgb_ocpd[17] = 0x99;
    palettes.cgb_ocpd[18] = 0xAA;
    palettes.cgb_ocpd[19] = 0xAA;
    palettes.cgb_ocpd[20] = 0xBB;
    palettes.cgb_ocpd[21] = 0xBB;
    palettes.cgb_ocpd[22] = 0xCC;
    palettes.cgb_ocpd[23] = 0xCC;
    palettes.cgb_ocpd[24] = 0xDD;
    palettes.cgb_ocpd[25] = 0xDD;
    palettes.cgb_ocpd[26] = 0xEE;
    palettes.cgb_ocpd[27] = 0xEE;
    palettes.cgb_ocpd[28] = 0xFF;
    palettes.cgb_ocpd[29] = 0xFF;
}

#[test]
fn should_lookup_background_palette() {
    let mut palettes = initialize_palettes();

    setup_test_background_palettes(&mut palettes);

    let palette_number = 3;
    let color_id = 1;
    let palette = lookup_cgb_background_palette(&palettes, palette_number, color_id);

    assert_eq!(palette, 0xEEEE);
}

#[test]
fn should_lookup_object_palette() {
    let mut palettes = initialize_palettes();

    setup_test_object_palettes(&mut palettes);

    let palette_number = 2;
    let color_id = 2;
    let palette = lookup_cgb_object_palette(&palettes, palette_number, color_id);

    assert_eq!(palette, 0xBBBB);
}

#[test]
fn should_lookup_background_palette_byte_via_bcpd() {
    let mut palettes = initialize_palettes();

    setup_test_background_palettes(&mut palettes);
    palettes.cgb_bcpd[2] = 0x22;
    palettes.cgb_bcpd[3] = 0xBB;

    set_cgb_bcps(&mut palettes, 0b00000011);
    let palette_byte = get_cgb_bcpd(&palettes);

    assert_eq!(palette_byte, 0xBB);
}

#[test]
fn should_lookup_object_palette_byte_via_ocpd() {
    let mut palettes = initialize_palettes();

    setup_test_object_palettes(&mut palettes);
    palettes.cgb_ocpd[2] = 0x22;
    palettes.cgb_ocpd[3] = 0xBB;

    set_cgb_ocps(&mut palettes, 0b00000011);
    let palette_byte = get_cgb_ocpd(&palettes);

    assert_eq!(palette_byte, 0xBB);
}

#[test]
fn should_write_palette_byte_via_bcpd() {
    let mut palettes = initialize_palettes();

    setup_test_background_palettes(&mut palettes);

    set_cgb_bcps(&mut palettes, 0b00000011);
    set_cgb_bcpd(&mut palettes, 0xBB);

    assert_eq!(palettes.cgb_bcpd[3], 0xBB);
}

#[test]
fn should_auto_increment_bcps_address_when_writing_palette_byte() {
    let mut palettes = initialize_palettes();

    setup_test_background_palettes(&mut palettes);

    // Set bit 7 on BCPS to 1 in order to trigger auto-increment when writing byte.
    set_cgb_bcps(&mut palettes, 0b10000011);
    set_cgb_bcpd(&mut palettes, 0xBB);

    assert_eq!(palettes.cgb_bcps, 0b10000100);
}

#[test]
fn should_auto_increment_ocps_address_when_writing_palette_byte() {
    let mut palettes = initialize_palettes();

    setup_test_object_palettes(&mut palettes);

    // Set bit 7 on OCPS to 1 in order to trigger auto-increment when writing byte.
    set_cgb_ocps(&mut palettes, 0b10000011);
    set_cgb_ocpd(&mut palettes, 0xBB);

    assert_eq!(palettes.cgb_ocps, 0b10000100); 
}

#[test]
fn should_not_auto_increment_bcps_address_when_writing_palette_byte_if_auto_incrementing_is_disabled() {
    let mut palettes = initialize_palettes();

    setup_test_background_palettes(&mut palettes);

    // Set bit 7 on BCPS to 0 in order to disable auto-increment when writing byte.
    set_cgb_bcps(&mut palettes, 0b00000011);
    set_cgb_bcpd(&mut palettes, 0xBB);

    assert_eq!(palettes.cgb_bcps, 0b00000011);
}

#[test]
fn should_not_auto_increment_ocps_address_when_writing_palette_byte_if_auto_incrementing_is_disabled() {
    let mut palettes = initialize_palettes();

    setup_test_object_palettes(&mut palettes);

    // Set bit 7 on OCPS to 0 in order to disable auto-increment when writing byte.
    set_cgb_ocps(&mut palettes, 0b00000011);
    set_cgb_ocpd(&mut palettes, 0xBB);

    assert_eq!(palettes.cgb_ocps, 0b00000011);
}

#[test]
fn should_calculate_background_color() {
    let mut palettes = initialize_palettes();

    setup_test_background_palettes(&mut palettes);

    let palette_number = 3;

    let msb_byte = 0b00101010;
    let lsb_byte = 0b11010101;

    let color_id = calculate_color_id(0, msb_byte, lsb_byte, false);
    let color = as_cgb_bg_color_rgb(&palettes, palette_number, color_id, false);

    // Palette will be 0b1110111011101110.
    assert_eq!(color, [0x73, 0xBD, 0xDE, 0xFF]);
}

#[test]
fn should_calculate_object_color() {
    let mut palettes = initialize_palettes();

    setup_test_object_palettes(&mut palettes);

    let palette_number = 3;

    let msb_byte = 0b00101010;
    let lsb_byte = 0b11010101;

    let color_id = calculate_color_id(0, msb_byte, lsb_byte, false);
    let color = as_cgb_obj_color_rgb(&palettes, palette_number, color_id, false);

    // Palette will be 0b1110111011101110.
    assert_eq!(color, Some([0x73, 0xBD, 0xDE, 0xFF])); 
}

#[test]
fn should_return_none_when_calculating_object_color_with_color_id_0() {
    let mut palettes = initialize_palettes();

    setup_test_object_palettes(&mut palettes);

    let palette_number = 3;

    // Bit 7 on both bytes set to 0 which will result in a color id of 0.
    let msb_byte = 0b00101010;
    let lsb_byte = 0b01010101;

    let color_id = calculate_color_id(0, msb_byte, lsb_byte, false);
    let color = as_cgb_obj_color_rgb(&palettes, palette_number, color_id, false);

    assert_eq!(color, None);
}

// Pixel priority


#[test]
fn should_return_background_pixel_if_no_sprite() {
    let cgb_mode = false;
    let lcdc_bg_and_window_priority = true;
    let bg_pixel = BackgroundPixel { color: LIGHT_GRAY, color_id: 1, prioritize_bg: false };
    let pixel = resolve_highest_priority_pixel(cgb_mode, lcdc_bg_and_window_priority, bg_pixel, None);
    assert_eq!(pixel, LIGHT_GRAY);
}

#[test]
fn should_return_white_if_lcdc_bg_window_priority_is_false_in_dmg_mode() {
    let cgb_mode = false;
    let lcdc_bg_and_window_priority = false;
    let bg_pixel = BackgroundPixel { color: LIGHT_GRAY, color_id: 1, prioritize_bg: false };
    let pixel = resolve_highest_priority_pixel(cgb_mode, lcdc_bg_and_window_priority, bg_pixel, None);
    assert_eq!(pixel, WHITE); 
}

#[test]
fn should_prioritize_sprite_when_background_uses_color_id_zero_in_dmg_mode() {
    let cgb_mode = false;
    let lcdc_bg_and_window_priority = true;
    let bg_pixel = BackgroundPixel { color: WHITE, color_id: 0, prioritize_bg: false };
    let sprite_pixel = SpritePixel { color: LIGHT_GRAY, prioritize_bg: true };
    let pixel = resolve_highest_priority_pixel(cgb_mode, lcdc_bg_and_window_priority, bg_pixel, Some(sprite_pixel));
    assert_eq!(pixel, LIGHT_GRAY);
}

#[test]
fn should_prioritize_sprite_when_prioritize_bg_is_false_in_dmg_mode() {
    let cgb_mode = false;
    let lcdc_bg_and_window_priority = true;
    let bg_pixel = BackgroundPixel { color: DARK_GRAY, color_id: 2, prioritize_bg: false };
    let sprite_pixel = SpritePixel { color: LIGHT_GRAY, prioritize_bg: false };
    let pixel = resolve_highest_priority_pixel(cgb_mode, lcdc_bg_and_window_priority, bg_pixel, Some(sprite_pixel));
    assert_eq!(pixel, LIGHT_GRAY);
}

#[test]
fn should_prioritize_background_when_prioritize_bg_is_true_in_dmg_mode() {
    let cgb_mode = false;
    let lcdc_bg_and_window_priority = true;
    let bg_pixel = BackgroundPixel { color: DARK_GRAY, color_id: 2, prioritize_bg: false };
    let sprite_pixel = SpritePixel { color: LIGHT_GRAY, prioritize_bg: true };
    let pixel = resolve_highest_priority_pixel(cgb_mode, lcdc_bg_and_window_priority, bg_pixel, Some(sprite_pixel));
    assert_eq!(pixel, DARK_GRAY);
}

#[test]
fn should_prioritize_sprite_when_background_uses_color_id_zero_in_cgb_mode() {
    let cgb_mode = true;
    let lcdc_bg_and_window_priority = true;
    let bg_pixel = BackgroundPixel { color: WHITE, color_id: 0, prioritize_bg: true };
    let sprite_pixel = SpritePixel { color: LIGHT_GRAY, prioritize_bg: true };
    let pixel = resolve_highest_priority_pixel(cgb_mode, lcdc_bg_and_window_priority, bg_pixel, Some(sprite_pixel));
    assert_eq!(pixel, LIGHT_GRAY);
}

#[test]
fn should_prioritize_sprite_when_lcdc_bg_window_priority_is_false_in_cgb_mode() {
    let cgb_mode = true;
    let lcdc_bg_and_window_priority = false;
    let bg_pixel = BackgroundPixel { color: DARK_GRAY, color_id: 2, prioritize_bg: true };
    let sprite_pixel = SpritePixel { color: LIGHT_GRAY, prioritize_bg: true };
    let pixel = resolve_highest_priority_pixel(cgb_mode, lcdc_bg_and_window_priority, bg_pixel, Some(sprite_pixel));
    assert_eq!(pixel, LIGHT_GRAY);
}

#[test]
fn should_prioritize_sprite_if_neither_prioritize_bg_flags_are_true() {
    let cgb_mode = true;
    let lcdc_bg_and_window_priority = true;
    let bg_pixel = BackgroundPixel { color: DARK_GRAY, color_id: 2, prioritize_bg: false };
    let sprite_pixel = SpritePixel { color: LIGHT_GRAY, prioritize_bg: false };
    let pixel = resolve_highest_priority_pixel(cgb_mode, lcdc_bg_and_window_priority, bg_pixel, Some(sprite_pixel));
    assert_eq!(pixel, LIGHT_GRAY); 
}

#[test]
fn should_prioritize_background_if_at_least_one_prioritize_bg_flag_is_true() {
    let cgb_mode = true;
    let lcdc_bg_and_window_priority = true;
    let bg_pixel = BackgroundPixel { color: DARK_GRAY, color_id: 2, prioritize_bg: true };
    let sprite_pixel = SpritePixel { color: LIGHT_GRAY, prioritize_bg: false };
    let pixel = resolve_highest_priority_pixel(cgb_mode, lcdc_bg_and_window_priority, bg_pixel, Some(sprite_pixel));
    assert_eq!(pixel, DARK_GRAY);  
}

// Sprites


fn write_sprite_bytes(object_attribute_memory: &mut [u8], sprit_number: u8, y_pos: u8, x_pos: u8, attributes: u8) {
    let index = (sprit_number * 4) as usize;
    object_attribute_memory[index] = y_pos;
    object_attribute_memory[index + 1] = x_pos;
    object_attribute_memory[index + 2] = 0x0;
    object_attribute_memory[index + 3] = attributes;
}

#[test]
fn should_get_ten_sprites_from_oam_memory() {
    let mut gpu = Gpu::new();
    
    gpu.ly = 0;

    write_sprite_bytes(&mut gpu.object_attribute_memory, 0, 0, 0, 0);
    write_sprite_bytes(&mut gpu.object_attribute_memory, 1, 16, 0, 0);
    write_sprite_bytes(&mut gpu.object_attribute_memory, 2, 44, 0, 0);
    write_sprite_bytes(&mut gpu.object_attribute_memory, 3, 9, 0x1F, 0);
    write_sprite_bytes(&mut gpu.object_attribute_memory, 4, 14, 0x2A, 0);
    write_sprite_bytes(&mut gpu.object_attribute_memory, 5, 16, 0x60, 0);
    write_sprite_bytes(&mut gpu.object_attribute_memory, 6, 0, 0xFF, 0);
    write_sprite_bytes(&mut gpu.object_attribute_memory, 7, 10, 0x3F, 0);
    write_sprite_bytes(&mut gpu.object_attribute_memory, 8, 16, 0x4A, 0);
    write_sprite_bytes(&mut gpu.object_attribute_memory, 9, 14, 0x51, 0);
    write_sprite_bytes(&mut gpu.object_attribute_memory, 10, 8, 0x22, 0);
    write_sprite_bytes(&mut gpu.object_attribute_memory, 11, 11, 0x1B, 0);
    write_sprite_bytes(&mut gpu.object_attribute_memory, 12, 13, 0x14, 0);
    write_sprite_bytes(&mut gpu.object_attribute_memory, 13, 16, 0x55, 0);
    write_sprite_bytes(&mut gpu.object_attribute_memory, 14, 14, 0x22, 0);
    write_sprite_bytes(&mut gpu.object_attribute_memory, 15, 15, 0x23, 0);

    let sprites = collect_scanline_sprites(&gpu.object_attribute_memory, gpu.ly, gpu.lcdc);

    assert_eq!(sprites.len(), 10);
    assert_eq!(sprites[0].y_pos, 0);
    assert_eq!(sprites[1].y_pos, -7);
    assert_eq!(sprites[2].y_pos, -2);
    assert_eq!(sprites[3].y_pos, 0);
    assert_eq!(sprites[4].y_pos, -6);
    assert_eq!(sprites[5].y_pos, 0);
    assert_eq!(sprites[6].y_pos, -2);
    assert_eq!(sprites[7].y_pos, -5);
    assert_eq!(sprites[8].y_pos, -3);
    assert_eq!(sprites[9].y_pos, 0);
}

#[test]
fn should_parse_sprite_attributes_correctly() {
    let mut gpu = Gpu::new();
    
    write_sprite_bytes(&mut gpu.object_attribute_memory, 0, 16, 0, 0b11000000);
    
    let sprites = collect_scanline_sprites(&gpu.object_attribute_memory, gpu.ly, gpu.lcdc);

    assert_eq!(sprites[0].priority, true);
    assert_eq!(sprites[0].y_flip, true);
    assert_eq!(sprites[0].x_flip, false);
    assert_eq!(sprites[0].dmg_palette, 0);
}

// Scanline rendering

const BLACK_TILE: [u8; 16] = [0x00, 0x00, 0x00, 0x00, 0x00, 0x00, 0x00, 0x00, 0x00, 0x00, 0x00, 0x00, 0x00, 0x00, 0x00, 0x00];
const SAMPLE_TILE_A: [u8; 16] = [0x3C, 0x7E, 0x42, 0x42, 0x42, 0x42, 0x42, 0x42, 0x7E, 0x5E, 0x7E, 0x0A, 0x7C, 0x56, 0x38, 0x7C];
const SAMPLE_TILE_B: [u8; 16] = [0xFF, 0x0, 0x7E, 0xFF, 0x85, 0x81, 0x89, 0x83, 0x93, 0x85, 0xA5, 0x8B, 0xC9, 0x97, 0x7E, 0xFF];
const WINDOW_TILE: [u8; 16] = [0xFF, 0xFF, 0xFF, 0xFF, 0xFF, 0xFF, 0xFF, 0xFF, 0xFF, 0xFF, 0xFF, 0xFF, 0xFF, 0xFF, 0xFF, 0xFF];

const RED: Color = [0xFF, 0x0, 0x0, 0xFF];
const BLUE: Color = [0x0, 0x0, 0xFF, 0xFF];

fn write_tile_to_memory(gpu: &mut Gpu, base_index: u16, index: u16, tile_bytes: [u8; 16]) {
    let offset = index * 16;
    for (tile_byte_index, tile_byte) in tile_bytes.iter().enumerate() {
        gpu.video_ram[(base_index + offset + tile_byte_index as u16) as usize] = *tile_byte;
    }
}

fn write_tile_to_bg_memory(gpu: &mut Gpu, index: u16, tile_bytes: [u8; 16]) {
    write_tile_to_memory(gpu, 0x1000, index, tile_bytes)
}

fn write_tile_to_bg_memory_in_bank_one(gpu: &mut Gpu, index: u16, tile_bytes: [u8; 16]) {
    write_tile_to_memory(gpu, 0x3000, index, tile_bytes)
}

fn write_tile_to_obj_memory(gpu: &mut Gpu, index: u16, tile_bytes: [u8; 16]) {
    write_tile_to_memory(gpu, 0x0000, index, tile_bytes)
}

fn write_tile_attributes(gpu: &mut Gpu, index: u16, attributes: u8) {
    gpu.video_ram[(0x3800 + index) as usize] = attributes;
}

fn write_sprite_to_oam(gpu: &mut Gpu, sprite: Sprite) {
    let oam_index = sprite.oam_index;
    gpu.object_attribute_memory[oam_index as usize] = (sprite.y_pos + 16) as u8;
    gpu.object_attribute_memory[(oam_index + 1) as usize] = (sprite.x_pos + 8) as u8;
    gpu.object_attribute_memory[(oam_index + 2) as usize] = sprite.tile_index;

    let mut attributes = 0;
    if sprite.priority { attributes = set_bit(attributes, 7); }
    if sprite.y_flip { attributes = set_bit(attributes, 6); }
    if sprite.x_flip { attributes = set_bit(attributes, 5); }
    if sprite.dmg_palette == 1 { attributes = set_bit(attributes, 4); }
    if sprite.cgb_from_bank_one { attributes = set_bit(attributes, 3); }
    attributes |= sprite.cgb_palette;
    gpu.object_attribute_memory[(oam_index + 3) as usize] = attributes;
}

fn write_window_tile_index_to_memory(gpu: &mut Gpu, position_index: u16, tile_index: u8) {
    gpu.video_ram[(0x1C00 + position_index) as usize] = tile_index;
}

fn initialize_monochrome_palettes(palettes: &mut Palettes) {
    // DMG Palette:
    // Black: color id 0
    // Dark Gray: color id 1
    // Light Gray: color id 2
    // White: color id 3 
    palettes.set_bgp(0b00011011);
    palettes.set_obp0(0b00011011);
}

fn initialize_color_palettes(palettes: &mut Palettes) {
    // Red
    palettes.set_cgb_bcpd_by_index(8, 0b00011111);
    palettes.set_cgb_bcpd_by_index(9, 0);

    // Green
    palettes.set_cgb_bcpd_by_index(10, 0b11100000);
    palettes.set_cgb_bcpd_by_index(11, 0b00000011);

    // Blue
    palettes.set_cgb_bcpd_by_index(12, 0);
    palettes.set_cgb_bcpd_by_index(13, 0b01111100);
}

struct FrameBufferAssertion<'a> {
    frame_buffer: &'a Vec<u8>,
    coordinates: (u32, u32)
}

impl <'a> FrameBufferAssertion<'a> {
    pub fn new(frame_buffer: &Vec<u8>) -> FrameBufferAssertion {
        FrameBufferAssertion {
            frame_buffer,
            coordinates: (0, 0),
        }
    }

    pub fn at_starting_coordinates(&mut self, coordinates: (u32, u32)) -> &mut Self {
        self.coordinates = coordinates;
        self
    }

    fn assert_pixel_color(&self, frame_buffer: &Vec<u8>, pixel_position: u32, color: Color) {
        let pixel_index = (pixel_position * 4) as usize;
        assert_eq!(frame_buffer[pixel_index], color[0]);
        assert_eq!(frame_buffer[pixel_index + 1], color[1]);
        assert_eq!(frame_buffer[pixel_index + 2], color[2]);
        assert_eq!(frame_buffer[pixel_index + 3], color[3]);
    }

    pub fn has_pixels(&self, color_pixels: &[Color]) {
        let (x, y) = self.coordinates;
        let pixel_position = y * GB_SCREEN_WIDTH + x;

        for (index, color) in color_pixels.iter().enumerate() {
            self.assert_pixel_color(self.frame_buffer, pixel_position + index as u32, *color);
        }
    }
}

fn assert_that(frame_buffer: &Vec<u8>) -> FrameBufferAssertion {
    FrameBufferAssertion::new(frame_buffer)
}

#[test]
fn should_render_tile_line() {
    let mut gpu = Gpu::new();

    initialize_monochrome_palettes(&mut gpu.palettes);

    write_tile_to_bg_memory(&mut gpu, 0, SAMPLE_TILE_A);

    gpu.ly = 0;
    gpu.lcdc = 0b10000011;

    gpu.write_scanline();

    let frame_buffer = &gpu.frame_buffer;

    assert_that(frame_buffer)
        .at_starting_coordinates((0, 0))
        .has_pixels(&[BLACK, LIGHT_GRAY, WHITE, WHITE, WHITE, WHITE, LIGHT_GRAY, BLACK]);
}

#[test]
fn should_render_multiple_tile_lines() {
    let mut gpu = Gpu::new();

    initialize_monochrome_palettes(&mut gpu.palettes);

    write_tile_to_bg_memory(&mut gpu, 0, SAMPLE_TILE_A);

    gpu.lcdc = 0b10000011;

    for _ in 0..3 {
        gpu.write_scanline();
        gpu.ly += 1;
    }

    let frame_buffer = &gpu.frame_buffer;

    assert_that(frame_buffer)
        .at_starting_coordinates((0, 0))
        .has_pixels(&[BLACK, LIGHT_GRAY, WHITE, WHITE, WHITE, WHITE, LIGHT_GRAY, BLACK]);

    assert_that(frame_buffer)
        .at_starting_coordinates((0, 1))
        .has_pixels(&[BLACK, WHITE, BLACK, BLACK, BLACK, BLACK, WHITE, BLACK]);

    assert_that(frame_buffer)
        .at_starting_coordinates((0, 2))
        .has_pixels(&[BLACK, WHITE, BLACK, BLACK, BLACK, BLACK, WHITE, BLACK]);
}

#[test]
fn should_render_multiple_tile_lines_in_color_mode() {
    let mut gpu = Gpu::new();
    
    gpu.cgb_mode = true;

    initialize_color_palettes(&mut gpu.palettes);

    write_tile_to_bg_memory(&mut gpu, 0, SAMPLE_TILE_A);

    write_tile_attributes(&mut gpu, 0, 0b00000001);

    gpu.lcdc = 0b10000011;

    for _ in 0..8 {
        gpu.write_scanline();
        gpu.ly += 1;
    }

    let frame_buffer = &gpu.frame_buffer;

    assert_that(frame_buffer)
        .at_starting_coordinates((0, 0))
        .has_pixels(&[RED, BLUE, BLACK, BLACK, BLACK, BLACK, BLUE, RED]);

    assert_that(frame_buffer)
        .at_starting_coordinates((0, 1))
        .has_pixels(&[RED, BLACK, RED, RED, RED, RED, BLACK, RED]);

    assert_that(frame_buffer)
        .at_starting_coordinates((0, 2))
        .has_pixels(&[RED, BLACK, RED, RED, RED, RED, BLACK, RED]);

    assert_that(frame_buffer)
        .at_starting_coordinates((0, 7))
        .has_pixels(&[RED, BLUE, BLACK, BLACK, BLACK, BLUE, RED, RED]); 
}

#[test]
fn should_render_multiple_tile_lines_in_color_mode_from_bank_one() {
    let mut gpu = Gpu::new();

    gpu.cgb_mode = true;

    initialize_color_palettes(&mut gpu.palettes);

    write_tile_to_bg_memory_in_bank_one(&mut gpu, 0, SAMPLE_TILE_A);

    write_tile_attributes(&mut gpu, 0, 0b00001001);

    gpu.lcdc = 0b10000011;

    for _ in 0..8 {
        gpu.write_scanline();
        gpu.ly += 1;
    }

    let frame_buffer = &gpu.frame_buffer;

    assert_that(frame_buffer)
        .at_starting_coordinates((0, 0))
        .has_pixels(&[RED, BLUE, BLACK, BLACK, BLACK, BLACK, BLUE, RED]);

    assert_that(frame_buffer)
        .at_starting_coordinates((0, 1))
        .has_pixels(&[RED, BLACK, RED, RED, RED, RED, BLACK, RED]);

    assert_that(frame_buffer)
        .at_starting_coordinates((0, 2))
        .has_pixels(&[RED, BLACK, RED, RED, RED, RED, BLACK, RED]);

    assert_that(frame_buffer)
        .at_starting_coordinates((0, 7))
        .has_pixels(&[RED, BLUE, BLACK, BLACK, BLACK, BLUE, RED, RED]); 
}

#[test]
fn should_flip_background_tile_on_y_axis() {
    let mut gpu = Gpu::new();

    gpu.cgb_mode = true;

    initialize_color_palettes(&mut gpu.palettes);

    write_tile_to_bg_memory(&mut gpu, 0, SAMPLE_TILE_A);

    write_tile_attributes(&mut gpu, 0, 0b01000001);

    gpu.lcdc = 0b10000011;

    for _ in 0..8 {
        gpu.write_scanline();
        gpu.ly += 1;
    }

    let frame_buffer = &gpu.frame_buffer;

    assert_that(frame_buffer)
        .at_starting_coordinates((0, 0))
        .has_pixels(&[RED, BLUE, BLACK, BLACK, BLACK, BLUE, RED, RED]); 

    assert_that(frame_buffer)
        .at_starting_coordinates((0, 5))
        .has_pixels(&[RED, BLACK, RED, RED, RED, RED, BLACK, RED]);

    assert_that(frame_buffer)
        .at_starting_coordinates((0, 6))
        .has_pixels(&[RED, BLACK, RED, RED, RED, RED, BLACK, RED]);

    assert_that(frame_buffer)
        .at_starting_coordinates((0, 7))
        .has_pixels(&[RED, BLUE, BLACK, BLACK, BLACK, BLACK, BLUE, RED]);
}

#[test]
fn should_flip_background_tile_on_x_axis() {
    let mut gpu = Gpu::new();

    gpu.cgb_mode = true;

    initialize_color_palettes(&mut gpu.palettes);

    write_tile_to_bg_memory(&mut gpu, 0, SAMPLE_TILE_A);

    write_tile_attributes(&mut gpu, 0, 0b00100001);

    gpu.lcdc = 0b10000011;

    for _ in 0..8 {
        gpu.write_scanline();
        gpu.ly += 1;
    }

    let frame_buffer = &gpu.frame_buffer;

    assert_that(frame_buffer)
        .at_starting_coordinates((0, 7))
        .has_pixels(&[RED, RED, BLUE, BLACK, BLACK, BLACK, BLUE, RED]); 
}

#[test]
fn should_overlay_window_over_multiple_tile_lines() {
    let mut gpu = Gpu::new();

    initialize_monochrome_palettes(&mut gpu.palettes);

    write_tile_to_bg_memory(&mut gpu, 0, SAMPLE_TILE_A);
    write_tile_to_bg_memory(&mut gpu, 1, WINDOW_TILE);
    write_window_tile_index_to_memory(&mut gpu, 0, 1);

    gpu.wy = 1;
    gpu.wx = 8;
    gpu.lcdc = 0b11100011;

    for _ in 0..3 {
        gpu.write_scanline();
        gpu.ly += 1;
    }

    let frame_buffer = &gpu.frame_buffer;

    assert_that(frame_buffer)
        .at_starting_coordinates((0, 0))
        .has_pixels(&[BLACK, LIGHT_GRAY, WHITE, WHITE, WHITE, WHITE, LIGHT_GRAY, BLACK]);

    assert_that(frame_buffer)
        .at_starting_coordinates((0, 1))
        .has_pixels(&[BLACK, WHITE, WHITE, WHITE, WHITE, WHITE, WHITE, WHITE]);

    assert_that(frame_buffer)
        .at_starting_coordinates((0, 2))
        .has_pixels(&[BLACK, WHITE, WHITE, WHITE, WHITE, WHITE, WHITE, WHITE]);
}

#[test]
fn should_render_tile_line_in_middle_of_frame() {
    let mut gpu = Gpu::new();

    initialize_monochrome_palettes(&mut gpu.palettes);

    write_tile_to_bg_memory(&mut gpu, 1, SAMPLE_TILE_A);

    gpu.video_ram[0x1A10] = 0x1;
    gpu.ly = 3;
    gpu.scy = 0x80;
    gpu.scx = 0x80;
    gpu.lcdc = 0b10000011;
    
    gpu.write_scanline();

    let frame_buffer = &gpu.frame_buffer;

    assert_that(frame_buffer)
        .at_starting_coordinates((0, 3))
        .has_pixels(&[BLACK, WHITE, BLACK, BLACK, BLACK, BLACK, WHITE, BLACK]);
}

#[test]
fn should_render_tile_line_properly_with_greater_scroll_x_value() {
    let mut gpu = Gpu::new();

    initialize_monochrome_palettes(&mut gpu.palettes);

    write_tile_to_bg_memory(&mut gpu, 1, SAMPLE_TILE_A);

    gpu.video_ram[0x1A10] = 0x1;
    gpu.ly = 3;
    gpu.scy = 0x80;
    gpu.scx = 0x82;
    gpu.lcdc = 0b10000011;

    gpu.write_scanline();

    let frame_buffer = &gpu.frame_buffer;

    assert_that(frame_buffer)
        .at_starting_coordinates((0, 3))
        .has_pixels(&[BLACK, BLACK, BLACK, BLACK, WHITE, BLACK, BLACK, BLACK]);
}

#[test]
fn should_wrap_around_when_rendering_past_max_tile_map_x_value() {
    let mut gpu = Gpu::new();

    initialize_monochrome_palettes(&mut gpu.palettes);

    write_tile_to_bg_memory(&mut gpu, 1, SAMPLE_TILE_A);

    gpu.video_ram[0x1800] = 0x1;
    gpu.ly = 0;
    gpu.scx = 0xFE;
    gpu.lcdc = 0b10000011;

    gpu.write_scanline();

    let frame_buffer = &gpu.frame_buffer;

    assert_that(frame_buffer)
        .at_starting_coordinates((0, 0))
        .has_pixels(&[BLACK, BLACK, BLACK, LIGHT_GRAY, WHITE, WHITE, WHITE, WHITE]);
}

#[test]
fn should_wrap_around_when_rendering_past_max_tile_map_y_value() {
    let mut gpu = Gpu::new();

    initialize_monochrome_palettes(&mut gpu.palettes);

    write_tile_to_bg_memory(&mut gpu, 1, SAMPLE_TILE_A);

    gpu.video_ram[0x1800] = 0x1;
    gpu.ly = 2;
    gpu.scy = 0xFE;
    gpu.lcdc = 0b10000011;

    gpu.write_scanline();

    let frame_buffer = &gpu.frame_buffer;

    assert_that(frame_buffer)
        .at_starting_coordinates((0, 2))
        .has_pixels(&[BLACK, LIGHT_GRAY, WHITE, WHITE, WHITE, WHITE, LIGHT_GRAY, BLACK]);
}

#[test]
fn should_render_tile_line_with_sprite() {
    let mut gpu = Gpu::new();

    initialize_monochrome_palettes(&mut gpu.palettes);

    write_tile_to_bg_memory(&mut gpu, 0, SAMPLE_TILE_A);
    write_tile_to_obj_memory(&mut gpu, 1, SAMPLE_TILE_B);

    write_sprite_to_oam(&mut gpu, Sprite {
        y_pos: 0,
        x_pos: 2,
        tile_index: 1,
        priority: false,
        y_flip: false,
        x_flip: false,
        dmg_palette: 0,
        oam_index: 0,
        cgb_from_bank_one: false,
        cgb_palette: 0
    });

    gpu.ly = 0;
    gpu.lcdc = 0b10000011;

    gpu.write_scanline();

    let frame_buffer: &Vec<u8> = &gpu.frame_buffer;

    assert_that(frame_buffer)
        .at_starting_coordinates((0, 0))
        .has_pixels(&[BLACK, LIGHT_GRAY, DARK_GRAY, DARK_GRAY, DARK_GRAY, DARK_GRAY, DARK_GRAY, DARK_GRAY]);
}

#[test]
fn should_render_sprite_with_white_background_if_background_and_window_enabled_is_cleared() {
     let mut gpu = Gpu::new();

    initialize_monochrome_palettes(&mut gpu.palettes);

    write_tile_to_bg_memory(&mut gpu, 0, SAMPLE_TILE_A);
    write_tile_to_obj_memory(&mut gpu, 1, SAMPLE_TILE_B);

    write_sprite_to_oam(&mut gpu, Sprite {
        y_pos: 0,
        x_pos: 2,
        tile_index: 1,
        priority: false,
        y_flip: false,
        x_flip: false,
        dmg_palette: 0,
        oam_index: 0,
        cgb_from_bank_one: false,
        cgb_palette: 0
    });

    gpu.ly = 0;
    gpu.lcdc = 0b10000010;

    gpu.write_scanline();

    let frame_buffer = &gpu.frame_buffer;

    assert_that(frame_buffer)
        .at_starting_coordinates((0, 0))
        .has_pixels(&[WHITE, WHITE, DARK_GRAY, DARK_GRAY, DARK_GRAY, DARK_GRAY, DARK_GRAY, DARK_GRAY]);
}

#[test]
fn should_render_tile_line_with_sprite_having_negative_y_pos() {
    let mut gpu = Gpu::new();

    initialize_monochrome_palettes(&mut gpu.palettes);

    write_tile_to_bg_memory(&mut gpu, 0, SAMPLE_TILE_A);
    write_tile_to_obj_memory(&mut gpu, 1, SAMPLE_TILE_B);

    write_sprite_to_oam(&mut gpu, Sprite {
        y_pos: -2,
        x_pos: 2,
        tile_index: 1,
        priority: false,
        y_flip: false,
        x_flip: false,
        dmg_palette: 0,
        oam_index: 0,
        cgb_from_bank_one: false,
        cgb_palette: 0
    });

    gpu.ly = 0;
    gpu.lcdc = 0b10000011;

    gpu.write_scanline();

    let frame_buffer = &gpu.frame_buffer;

    assert_that(frame_buffer)
        .at_starting_coordinates((0, 0))
        .has_pixels(&[BLACK, LIGHT_GRAY, WHITE, WHITE, WHITE, WHITE, LIGHT_GRAY, DARK_GRAY]);
}

#[test]
fn should_flip_sprite_on_x_axis() {
    let mut gpu = Gpu::new();

    initialize_monochrome_palettes(&mut gpu.palettes);

    write_tile_to_bg_memory(&mut gpu, 0, SAMPLE_TILE_A);
    write_tile_to_obj_memory(&mut gpu, 1, SAMPLE_TILE_B);

    write_sprite_to_oam(&mut gpu, Sprite {
        y_pos: -2,
        x_pos: 2,
        tile_index: 1,
        priority: false,
        y_flip: false,
        x_flip: true,
        dmg_palette: 0,
        oam_index: 0,
        cgb_from_bank_one: false,
        cgb_palette: 0
    });

    gpu.ly = 0;
    gpu.lcdc = 0b10000011;

    gpu.write_scanline();

    let frame_buffer = &gpu.frame_buffer;

    assert_that(frame_buffer)
        .at_starting_coordinates((0, 0))
        .has_pixels(&[BLACK, LIGHT_GRAY, WHITE, WHITE, DARK_GRAY, WHITE, LIGHT_GRAY, BLACK]);
}

#[test]
fn should_flip_sprite_on_y_axis() {
    let mut gpu = Gpu::new();

    initialize_monochrome_palettes(&mut gpu.palettes);

    write_tile_to_bg_memory(&mut gpu, 0, SAMPLE_TILE_A);
    write_tile_to_obj_memory(&mut gpu, 1, SAMPLE_TILE_B);

    write_sprite_to_oam(&mut gpu, Sprite {
        y_pos: -2,
        x_pos: 2,
        tile_index: 1,
        priority: false,
        y_flip: true,
        x_flip: false,
        dmg_palette: 0,
        oam_index: 0,
        cgb_from_bank_one: false,
        cgb_palette: 0
    });
    
    gpu.ly = 0;
    gpu.lcdc = 0b10000011;

    gpu.write_scanline();

    let frame_buffer = &gpu.frame_buffer;

    assert_that(frame_buffer)
        .at_starting_coordinates((0, 0))
        .has_pixels(&[BLACK, LIGHT_GRAY, WHITE, WHITE, DARK_GRAY, WHITE, LIGHT_GRAY, DARK_GRAY]);
}

#[test]
fn should_render_eight_by_sixteen_sprite() {
    let mut gpu = Gpu::new();

    initialize_monochrome_palettes(&mut gpu.palettes);

    write_tile_to_bg_memory(&mut gpu, 0, BLACK_TILE);
    write_tile_to_obj_memory(&mut gpu, 2, SAMPLE_TILE_A);
    write_tile_to_obj_memory(&mut gpu, 3, SAMPLE_TILE_B);

    write_sprite_to_oam(&mut gpu, Sprite {
        y_pos: 0,
        x_pos: 2,
        tile_index: 3,
        priority: false,
        y_flip: false,
        x_flip: false,
        dmg_palette: 0,
        oam_index: 0,
        cgb_from_bank_one: false,
        cgb_palette: 0
    });

    gpu.ly = 0;
    gpu.lcdc = 0b10000111;

    for _ in 0..9 {
        gpu.write_scanline();
        gpu.ly += 1;
    }

    let frame_buffer = &gpu.frame_buffer;

    assert_that(frame_buffer)
        .at_starting_coordinates((0, 0))
        .has_pixels(&[BLACK, BLACK, BLACK, LIGHT_GRAY, WHITE, WHITE, WHITE, WHITE]);

    assert_that(frame_buffer)
        .at_starting_coordinates((0, 8))
        .has_pixels(&[BLACK, BLACK, DARK_GRAY, DARK_GRAY, DARK_GRAY, DARK_GRAY, DARK_GRAY, DARK_GRAY]);
}

#[test]
fn should_prioritize_non_color_id_zero_background_colors_when_sprite_priority_flag_set_to_true() {
    let mut gpu = Gpu::new();

    initialize_monochrome_palettes(&mut gpu.palettes);

    write_tile_to_bg_memory(&mut gpu, 0, SAMPLE_TILE_A);
    write_tile_to_obj_memory(&mut gpu, 1, SAMPLE_TILE_B);

    write_sprite_to_oam(&mut gpu, Sprite {
        y_pos: 0,
        x_pos: 2,
        tile_index: 1,
        priority: true,
        y_flip: false,
        x_flip: false,
        dmg_palette: 0,
        oam_index: 0,
        cgb_from_bank_one: false,
        cgb_palette: 0
    });

    gpu.ly = 0;
    gpu.lcdc = 0b10000011;

    gpu.write_scanline();

    let frame_buffer = &gpu.frame_buffer;

    assert_that(frame_buffer)
        .at_starting_coordinates((0, 0))
        .has_pixels(&[BLACK, LIGHT_GRAY, WHITE, WHITE, WHITE, WHITE, LIGHT_GRAY, DARK_GRAY]);
}

#[test]
fn should_prioritize_background_colors_when_lcdc_bit_1_is_off() {
    let mut gpu = Gpu::new();

    initialize_monochrome_palettes(&mut gpu.palettes);

    write_tile_to_bg_memory(&mut gpu, 0, SAMPLE_TILE_A);
    write_tile_to_obj_memory(&mut gpu, 1, SAMPLE_TILE_B);

    write_sprite_to_oam(&mut gpu, Sprite {
        y_pos: 0,
        x_pos: 2,
        tile_index: 1,
        priority: false,
        y_flip: false,
        x_flip: false,
        dmg_palette: 0,
        oam_index: 0,
        cgb_from_bank_one: false,
        cgb_palette: 0
    });
    
    gpu.ly = 0;
    gpu.lcdc = 0b10000001;

    gpu.write_scanline();

    let frame_buffer = &gpu.frame_buffer;

    assert_that(frame_buffer)
        .at_starting_coordinates((0, 0))
        .has_pixels(&[BLACK, LIGHT_GRAY, WHITE, WHITE, WHITE, WHITE, LIGHT_GRAY, BLACK]);
}
#[test]
fn object_color_id_above_three_reads_the_next_palette_entry() {
    let mut palettes = initialize_palettes();
    palettes.cgb_ocpd[10] = 0x1F;
    palettes.cgb_ocpd[11] = 0x00;
    let color = as_cgb_obj_color_rgb(&palettes, 0, 5, false).unwrap();
    assert_eq!(color[0], 0xFF);
    assert_eq!(color[3], 0xFF);
}

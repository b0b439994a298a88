use crate::gpu::colors::{as_cgb_bg_color_rgb, as_dmg_bg_color_rgb, calculate_color_id, cgb_bg_color, color_id, monochrome_color, palette_key};
use crate::gpu::line_addressing::{calculate_bg_tile_map_index, calculate_tile_data_index, get_cgb_tile_attributes, tile_attributes, tile_data_index, tile_map_index};
use crate::gpu::prioritization::BackgroundPixel;
use crate::gpu::utils::{get_tile_line_bytes, tile_line_bytes};
use crate::gpu::Gpu;
use crate::utils::bit_is_set;
use vstd::prelude::*;

verus! {

/// The pixel (color, color id, priority flag) at column `bit_index` of row `row_offset` of the
/// tile that tile map entry `map_index` names.
pub open spec fn tile_pixel(gpu: &Gpu, map_index: int, row_offset: u8, bit_index: u8) -> (Seq<u8>, u8, bool) {
    let tile_index = gpu.video_ram@[map_index];
    let data_index = tile_data_index(gpu.lcdc, tile_index) as u16;
    if gpu.cgb_mode {
        let attributes = tile_attributes(gpu.video_ram@[0x2000 + map_index]);
        let (lsb, msb) = tile_line_bytes(gpu.video_ram@, data_index, row_offset, attributes.y_flip, attributes.from_bank_one);
        let dmg_compatible = gpu.key0 == 0x04;
        let palette_number = if dmg_compatible { 0 } else { attributes.palette_number };
        let id = color_id(bit_index, msb, lsb, attributes.x_flip);
        (cgb_bg_color(&gpu.palettes, palette_number, id, dmg_compatible), id, attributes.priority)
    } else {
        let (lsb, msb) = tile_line_bytes(gpu.video_ram@, data_index, row_offset, false, false);
        let id = color_id(bit_index, msb, lsb, false);
        (monochrome_color(palette_key(id, gpu.palettes.bgp)), id, false)
    }
}

pub fn read_tile_pixel(gpu: &Gpu, tile_map_index: u16, row_offset: u8, bit_index: u8) -> (pixel: BackgroundPixel)
    requires
        0x1800 <= tile_map_index < 0x2000,
        row_offset < 8,
        bit_index < 8,
    ensures
        (pixel.color@, pixel.color_id, pixel.prioritize_bg) == tile_pixel(gpu, tile_map_index as int, row_offset, bit_index),
        pixel.color_id < 4,
{
    let tile_index = gpu.video_ram[tile_map_index as usize];
    let tile_data_index = calculate_tile_data_index(gpu.lcdc, tile_index);

    if gpu.cgb_mode {
        let attributes = get_cgb_tile_attributes(&gpu.video_ram, tile_map_index);
        let (lsb_byte, msb_byte) = get_tile_line_bytes(&gpu.video_ram, tile_data_index, row_offset, attributes.y_flip, attributes.from_bank_one);
        let dmg_compatible = gpu.has_dmg_compatability();
        let palette_number = if dmg_compatible { 0 } else { attributes.palette_number };
        let color_id = calculate_color_id(bit_index, msb_byte, lsb_byte, attributes.x_flip);
        proof {
            crate::gpu::colors::lemma_palette_key_bound(color_id, gpu.palettes.bgp);
        }
        let color = as_cgb_bg_color_rgb(&gpu.palettes, palette_number, color_id, dmg_compatible);
        BackgroundPixel { color, color_id, prioritize_bg: attributes.priority }
    } else {
        let (lsb_byte, msb_byte) = get_tile_line_bytes(&gpu.video_ram, tile_data_index, row_offset, false, false);
        let color_id = calculate_color_id(bit_index, msb_byte, lsb_byte, false);
        let color = as_dmg_bg_color_rgb(&gpu.palettes, color_id);
        BackgroundPixel { color, color_id, prioritize_bg: false }
    }
}

/// The background pixel at (`x`, `y`) of the 256x256 background.
pub open spec fn bg_pixel(gpu: &Gpu, x: u8, y: u8) -> (Seq<u8>, u8, bool) {
    tile_pixel(gpu, tile_map_index(bit_is_set(gpu.lcdc, 3), y / 8, x / 8), y % 8, x % 8)
}

pub fn read_bg_color(gpu: &Gpu, x: u8, y: u8) -> (pixel: BackgroundPixel)
    ensures
        (pixel.color@, pixel.color_id, pixel.prioritize_bg) == bg_pixel(gpu, x, y),
        pixel.color_id < 4,
{
    let lcdc = gpu.lcdc;
    let column_tile_offset = y / 8;
    let row_tile_offset = x / 8;
    let tile_map_index = calculate_bg_tile_map_index(lcdc, column_tile_offset, row_tile_offset);
    read_tile_pixel(gpu, tile_map_index, y % 8, x % 8)
}

/// The background pixel shown at column `viewport_x` of the current line: the background is
/// scrolled by SCX and SCY and wraps around.
pub open spec fn scrolled_bg_pixel(gpu: &Gpu, viewport_x: u8) -> (Seq<u8>, u8, bool) {
    bg_pixel(gpu, ((viewport_x + gpu.scx) % 256) as u8, ((gpu.ly + gpu.scy) % 256) as u8)
}

impl Gpu {
    pub fn read_scrolled_bg_color(&self, viewport_x: u8) -> (pixel: BackgroundPixel)
        ensures
            (pixel.color@, pixel.color_id, pixel.prioritize_bg) == scrolled_bg_pixel(self, viewport_x),
            pixel.color_id < 4,
    {
        read_bg_color(self, viewport_x.wrapping_add(self.scx), self.ly.wrapping_add(self.scy))
    }
}

} // verus!

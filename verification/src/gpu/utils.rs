use crate::utils::{bit_is_set, is_bit_set};
use vstd::prelude::*;

verus! {

pub const LCDC_BG_AND_WINDOW_ENABLED_INDEX: u8 = 0;
pub const LCDC_OBJ_ENABLED_INDEX: u8 = 1;
pub const LCDC_OBJ_SIZE_INDEX: u8 = 2;
pub const LCDC_BG_TILE_MAP_INDEX: u8 = 3;
pub const LCDC_TILE_DATA_INDEX: u8 = 4;
pub const LCDC_WINDOW_ENABLED_INDEX: u8 = 5;
pub const LCDC_WINDOW_TILE_MAP_INDEX: u8 = 6;
pub const LCDC_ENABLED_INDEX: u8 = 7;

/// Bytes of video RAM over both banks.
pub const VIDEO_RAM_SIZE: usize = 0x4000;

pub fn get_bg_and_window_enabled_mode(lcdc: u8) -> (r: bool)
    ensures
        r == bit_is_set(lcdc, LCDC_BG_AND_WINDOW_ENABLED_INDEX),
{
    is_bit_set(lcdc, LCDC_BG_AND_WINDOW_ENABLED_INDEX)
}

pub fn get_obj_enabled_mode(lcdc: u8) -> (r: bool)
    ensures
        r == bit_is_set(lcdc, LCDC_OBJ_ENABLED_INDEX),
{
    is_bit_set(lcdc, LCDC_OBJ_ENABLED_INDEX)
}

pub fn get_obj_size_mode(lcdc: u8) -> (r: bool)
    ensures
        r == bit_is_set(lcdc, LCDC_OBJ_SIZE_INDEX),
{
    is_bit_set(lcdc, LCDC_OBJ_SIZE_INDEX)
}

pub fn get_bg_tile_map_mode(lcdc: u8) -> (r: bool)
    ensures
        r == bit_is_set(lcdc, LCDC_BG_TILE_MAP_INDEX),
{
    is_bit_set(lcdc, LCDC_BG_TILE_MAP_INDEX)
}

pub fn get_tile_data_addressing_mode(lcdc: u8) -> (r: bool)
    ensures
        r == bit_is_set(lcdc, LCDC_TILE_DATA_INDEX),
{
    is_bit_set(lcdc, LCDC_TILE_DATA_INDEX)
}

pub fn get_window_enabled_mode(lcdc: u8) -> (r: bool)
    ensures
        r == bit_is_set(lcdc, LCDC_WINDOW_ENABLED_INDEX),
{
    is_bit_set(lcdc, LCDC_WINDOW_ENABLED_INDEX)
}

pub fn get_window_tile_map_mode(lcdc: u8) -> (r: bool)
    ensures
        r == bit_is_set(lcdc, LCDC_WINDOW_TILE_MAP_INDEX),
{
    is_bit_set(lcdc, LCDC_WINDOW_TILE_MAP_INDEX)
}

pub fn get_lcd_enabled_mode(lcdc: u8) -> (r: bool)
    ensures
        r == bit_is_set(lcdc, LCDC_ENABLED_INDEX),
{
    is_bit_set(lcdc, LCDC_ENABLED_INDEX)
}

/// Index in video RAM of the low byte of row `row_offset` of a tile; a flipped tile is read
/// from its last row up.
pub open spec fn line_index(tile_data_index: u16, row_offset: u8, y_flip: bool, from_bank_one: bool) -> int {
    let byte_offset = if y_flip { 14 - row_offset * 2 } else { row_offset * 2 };
    tile_data_index + byte_offset + (if from_bank_one { 0x2000int } else { 0 })
}

fn calculate_line_index(tile_data_index: u16, row_offset: u8, y_flip: bool, from_bank_one: bool) -> (index: u16)
    requires
        row_offset < 8,
        tile_data_index <= 0x1FF0,
    ensures
        index == line_index(tile_data_index, row_offset, y_flip, from_bank_one),
        index + 1 < VIDEO_RAM_SIZE,
{
    let byte_offset = if y_flip {
        0xF - ((row_offset * 2) + 1)
    } else {
        row_offset * 2
    } as u16;

    let index = tile_data_index + byte_offset;
    if from_bank_one { index + 0x2000 } else { index }
}

/// The two bytes (low, high) of one row of a tile.
pub open spec fn tile_line_bytes(video_ram: Seq<u8>, tile_data_index: u16, row_offset: u8, y_flip: bool, from_bank_one: bool) -> (u8, u8) {
    let index = line_index(tile_data_index, row_offset, y_flip, from_bank_one);
    (video_ram[index], video_ram[index + 1])
}

pub fn get_tile_line_bytes(video_ram: &[u8; 0x4000], tile_data_index: u16, row_offset: u8, y_flip: bool, from_bank_one: bool) -> (bytes: (u8, u8))
    requires
        row_offset < 8,
        tile_data_index <= 0x1FF0,
    ensures
        bytes == tile_line_bytes(video_ram@, tile_data_index, row_offset, y_flip, from_bank_one),
{
    let line_index = calculate_line_index(tile_data_index, row_offset, y_flip, from_bank_one);
    let lsb_byte = video_ram[line_index as usize];
    let msb_byte = video_ram[(line_index + 1) as usize];
    (lsb_byte, msb_byte)
}

} // verus!

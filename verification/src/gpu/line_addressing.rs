use crate::gpu::utils::{get_bg_tile_map_mode, get_tile_data_addressing_mode, get_window_tile_map_mode};
use crate::utils::{bit_is_set, is_bit_set};
use vstd::prelude::*;

verus! {

pub const TILES_PER_ROW: u8 = 32;
pub const TILE_DATA_LENGTH: u8 = 16;

/// The CGB attributes of a background or window tile, kept in bank one of video RAM.
#[derive(Clone, Copy, Debug)]
pub struct TileAttributes {
    pub priority: bool,
    pub y_flip: bool,
    pub x_flip: bool,
    pub from_bank_one: bool,
    pub palette_number: u8,
}

/// Index in video RAM of an entry of one of the two tile maps.
pub open spec fn tile_map_index(tile_map_mode: bool, column_tile_offset: u8, row_tile_offset: u8) -> int {
    (if tile_map_mode { 0x1C00int } else { 0x1800int }) + column_tile_offset as int * 32
        + row_tile_offset as int
}

fn calculate_tile_map_index(tile_map_mode: bool, tile_map_offset: u16) -> (index: u16)
    requires
        tile_map_offset < 0x400,
    ensures
        index == (if tile_map_mode { 0x1C00int } else { 0x1800int }) + tile_map_offset,
{
    if tile_map_mode {
        0x1C00 + tile_map_offset
    } else {
        0x1800 + tile_map_offset
    }
}

fn calculate_tile_offset(column_tile_offset: u8, row_tile_offset: u8) -> (offset: u16)
    requires
        column_tile_offset < 32,
        row_tile_offset < 32,
    ensures
        offset == column_tile_offset as int * 32 + row_tile_offset as int,
        offset < 0x400,
{
    column_tile_offset as u16 * 32 + row_tile_offset as u16
}

/// The attributes stored for a tile map entry.
pub open spec fn tile_attributes(attributes_byte: u8) -> TileAttributes {
    TileAttributes {
        priority: bit_is_set(attributes_byte, 7),
        y_flip: bit_is_set(attributes_byte, 6),
        x_flip: bit_is_set(attributes_byte, 5),
        from_bank_one: bit_is_set(attributes_byte, 3),
        palette_number: attributes_byte & 0b00000111,
    }
}

pub fn get_cgb_tile_attributes(video_ram: &[u8; 0x4000], tile_map_index: u16) -> (attributes: TileAttributes)
    requires
        tile_map_index < 0x2000,
    ensures
        attributes == tile_attributes(video_ram@[0x2000 + tile_map_index]),
        attributes.palette_number < 8,
{
    let tile_attributes_index = 0x2000 + tile_map_index;
    let attributes_byte = video_ram[tile_attributes_index as usize];
    proof {
        crate::utils::lemma_u8_and_bound(attributes_byte, 0b00000111);
    }
    TileAttributes {
        priority: is_bit_set(attributes_byte, 7),
        y_flip: is_bit_set(attributes_byte, 6),
        x_flip: is_bit_set(attributes_byte, 5),
        from_bank_one: is_bit_set(attributes_byte, 3),
        palette_number: attributes_byte & 0b00000111,
    }
}

pub fn calculate_bg_tile_map_index(lcdc: u8, column_tile_offset: u8, row_tile_offset: u8) -> (index: u16)
    requires
        column_tile_offset < 32,
        row_tile_offset < 32,
    ensures
        index == tile_map_index(bit_is_set(lcdc, 3), column_tile_offset, row_tile_offset),
        0x1800 <= index < 0x2000,
{
    let tile_map_offset = calculate_tile_offset(column_tile_offset, row_tile_offset);
    let tile_map_mode = get_bg_tile_map_mode(lcdc);
    calculate_tile_map_index(tile_map_mode, tile_map_offset)
}

pub fn calculate_window_tile_map_index(lcdc: u8, column_tile_offset: u8, row_tile_offset: u8) -> (index: u16)
    requires
        column_tile_offset < 32,
        row_tile_offset < 32,
    ensures
        index == tile_map_index(bit_is_set(lcdc, 6), column_tile_offset, row_tile_offset),
        0x1800 <= index < 0x2000,
{
    let tile_map_offset = calculate_tile_offset(column_tile_offset, row_tile_offset);
    let tile_map_mode = get_window_tile_map_mode(lcdc);
    calculate_tile_map_index(tile_map_mode, tile_map_offset)
}

/// Index in video RAM of a tile's data: unsigned from 0x0000, or signed around 0x1000.
pub open spec fn tile_data_index(lcdc: u8, index: u8) -> int {
    if bit_is_set(lcdc, 4) {
        index as int * 16
    } else if index >= 128 {
        0x800 + (index as int - 128) * 16
    } else {
        0x1000 + index as int * 16
    }
}

/// Each tile takes sixteen bytes. With bit 4 of LCDC set tile numbers count up from the start
/// of video RAM; with it clear they are signed and count from 0x1000, so that tiles 128-255
/// come just before tile 0.
pub proof fn law_tile_data_addressing(lcdc: u8, index: u8)
    ensures
        lcdc & 0x10 != 0 ==> tile_data_index(lcdc, index) == index as int * 16,
        lcdc & 0x10 == 0 ==> tile_data_index(lcdc, index) == 0x1000 + (if index < 128 {
            index as int
        } else {
            index as int - 256
        }) * 16,
        0 <= tile_data_index(lcdc, index) && tile_data_index(lcdc, index) + 16 <= 0x1800,
{
    assert((lcdc >> 4u8) & 1 == 1 <==> lcdc & 0x10 != 0) by (bit_vector);
}

pub fn calculate_tile_data_index(lcdc: u8, index: u8) -> (data_index: u16)
    ensures
        data_index == tile_data_index(lcdc, index),
        data_index <= 0x17F0,
{
    let unsigned_addressing = get_tile_data_addressing_mode(lcdc);
    if unsigned_addressing {
        index as u16 * 16
    } else if index >= 128 {
        0x800 + ((index - 128) as u16 * 16)
    } else {
        0x1000 + (index as u16 * 16)
    }
}

} // verus!

use crate::gpu::background::{read_tile_pixel, tile_pixel};
use crate::gpu::line_addressing::{calculate_window_tile_map_index, tile_map_index};
use crate::gpu::prioritization::BackgroundPixel;
use crate::gpu::utils::get_window_enabled_mode;
use crate::gpu::Gpu;
use crate::utils::bit_is_set;
use vstd::prelude::*;

verus! {

/// The window pixel shown at column `viewport_x` of the current line, where the window covers
/// it: the window starts at column WX - 7 and line WY, and its rows are counted by WLY.
pub open spec fn window_pixel(gpu: &Gpu, viewport_x: u8) -> Option<(Seq<u8>, u8, bool)> {
    let offset = viewport_x - (gpu.wx - 7);
    if bit_is_set(gpu.lcdc, 5) && offset >= 0 && gpu.ly >= gpu.wy {
        Some(tile_pixel(gpu, tile_map_index(bit_is_set(gpu.lcdc, 6), gpu.wly / 8, (offset / 8) as u8), gpu.wly % 8, (offset % 8) as u8))
    } else {
        None
    }
}

impl Gpu {
    pub fn read_window_color(&self, viewport_x: u8) -> (pixel: Option<BackgroundPixel>)
        requires
            viewport_x < 160,
        ensures
            match window_pixel(self, viewport_x) {
                Some(p) => pixel matches Some(px) && (px.color@, px.color_id, px.prioritize_bg) == p && px.color_id < 4,
                None => pixel is None,
            },
    {
        let wx = self.wx;
        let wy = self.wy;
        let wly = self.wly;
        let ly = self.ly;
        let lcdc = self.lcdc;

        let x_int = viewport_x as i16;
        let wx_int = wx as i16;

        let window_enabled = get_window_enabled_mode(lcdc);

        if window_enabled && x_int >= wx_int - 7 && ly >= wy {
            let column_tile_offset = wly / 8;
            let row_tile_offset = ((x_int - (wx_int - 7)) / 8) as u8;
            let tile_map_index = calculate_window_tile_map_index(lcdc, column_tile_offset, row_tile_offset);
            let row_offset = wly % 8;
            let bit_index = ((x_int - (wx_int - 7)) % 8) as u8;
            Some(read_tile_pixel(self, tile_map_index, row_offset, bit_index))
        } else {
            None
        }
    }
}

} // verus!

use crate::gpu::background::scrolled_bg_pixel;
use crate::gpu::colors::Color;
use crate::gpu::prioritization::{highest_priority_color, resolve_highest_priority_pixel, sprite_pixel_view};
use crate::gpu::sprites::{collect_scanline_sprites, scanline_sprites, sprite_pixel};
use crate::gpu::utils::{get_bg_and_window_enabled_mode, get_obj_size_mode};
use crate::gpu::window::window_pixel;
use crate::gpu::{same_registers, Gpu, FRAME_BUFFER_SIZE};
use crate::utils::bit_is_set;
use vstd::prelude::*;

verus! {

/// The color of the pixel at column `x` of the current line: the window where it covers the
/// pixel, else the scrolled background, against the sprite pixel there.
pub open spec fn line_pixel(gpu: &Gpu, x: u8) -> Seq<u8> {
    let bg = match window_pixel(gpu, x) {
        Some(p) => p,
        None => scrolled_bg_pixel(gpu, x),
    };
    let sprites = scanline_sprites(gpu.object_attribute_memory@, gpu.ly, bit_is_set(gpu.lcdc, 2), 40);
    highest_priority_color(gpu.cgb_mode, bit_is_set(gpu.lcdc, 0), bg.0, bg.1, bg.2, sprite_pixel(gpu, sprites, x))
}

/// Index in the frame buffer of byte `k` of the pixel at (`x`, `y`).
pub open spec fn pixel_byte_index(x: int, y: int, k: int) -> int {
    (y * 160 + x) * 4 + k
}

impl Gpu {
    /// The colors of the 160 pixels of the current line.
    pub fn render_line(&self) -> (colors: Vec<Color>)
        ensures
            colors@.len() == 160,
            forall|x: int| 0 <= x < 160 ==> (#[trigger] colors@[x])@ == line_pixel(self, x as u8),
    {
        let ly = self.ly;
        let lcdc = self.lcdc;
        let sprite_buffer = collect_scanline_sprites(&self.object_attribute_memory, ly, lcdc);
        let lcdc_bg_and_window_priority = get_bg_and_window_enabled_mode(lcdc);
        let mut colors: Vec<Color> = Vec::new();
        let mut viewport_x: u8 = 0;

        while viewport_x < 160
            invariant
                viewport_x <= 160,
                colors@.len() == viewport_x,
                lcdc == self.lcdc,
                lcdc_bg_and_window_priority == bit_is_set(lcdc, 0),
                sprite_buffer@ == scanline_sprites(self.object_attribute_memory@, self.ly, bit_is_set(lcdc, 2), 40),
                forall|i: int| 0 <= i < sprite_buffer@.len() ==> (#[trigger] sprite_buffer@[i]).wf(),
                forall|x: int| 0 <= x < viewport_x ==> (#[trigger] colors@[x])@ == line_pixel(self, x as u8),
            decreases 160 - viewport_x,
        {
            let bg_pixel = match self.read_window_color(viewport_x) {
                Some(pixel) => pixel,
                None => self.read_scrolled_bg_color(viewport_x),
            };
            let maybe_sprite_pixel = self.read_sprite_pixel_color(&sprite_buffer, viewport_x);
            let color = resolve_highest_priority_pixel(self.cgb_mode, lcdc_bg_and_window_priority, bg_pixel, maybe_sprite_pixel);
            colors.push(color);
            viewport_x += 1;
        }

        colors
    }

    /// Draws the current line into the frame buffer.
    pub fn write_scanline(&mut self)
        requires
            old(self).wf(),
            old(self).ly < 144,
        ensures
            final(self).wf(),
            same_registers(*final(self), *old(self)),
            forall|x: int, k: int| 0 <= x < 160 && 0 <= k < 4
                ==> final(self).frame_buffer@[#[trigger] pixel_byte_index(x, old(self).ly as int, k)] == line_pixel(old(self), x as u8)[k],
            forall|i: int| 0 <= i < FRAME_BUFFER_SIZE && !(old(self).ly * 640 <= i < old(self).ly * 640 + 640)
                ==> final(self).frame_buffer@[i] == old(self).frame_buffer@[i],
    {
        let colors = self.render_line();
        let row_start: usize = self.ly as usize * 640;
        let ghost old_buffer = self.frame_buffer@;
        let ghost ly = self.ly;
        let mut x: usize = 0;

        while x < 160
            invariant
                x <= 160,
                ly < 144,
                row_start == ly * 640,
                ly == old(self).ly,
                self.wf() == old(self).wf(),
                self.frame_buffer@.len() == old(self).frame_buffer@.len(),
                same_registers(*self, *old(self)),
                colors@.len() == 160,
                self.frame_buffer@.len() == FRAME_BUFFER_SIZE,
                forall|j: int, k: int| 0 <= j < x && 0 <= k < 4
                    ==> self.frame_buffer@[#[trigger] pixel_byte_index(j, ly as int, k)] == colors@[j]@[k],
                forall|i: int| 0 <= i < FRAME_BUFFER_SIZE && !(row_start <= i < row_start + x * 4)
                    ==> self.frame_buffer@[i] == old_buffer[i],
            decreases 160 - x,
        {
            let color = colors[x];
            let pixel_index = row_start + x * 4;
            self.frame_buffer.set(pixel_index, color[0]);
            self.frame_buffer.set(pixel_index + 1, color[1]);
            self.frame_buffer.set(pixel_index + 2, color[2]);
            self.frame_buffer.set(pixel_index + 3, color[3]);
            x += 1;
        }
    }
}

} // verus!

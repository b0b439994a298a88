use crate::gpu::colors::{white, Color};
use vstd::prelude::*;

verus! {

/// A background or window pixel, with what the sprite priority rules need to know of it.
#[derive(Clone, Copy, Debug)]
pub struct BackgroundPixel {
    pub color: Color,
    pub color_id: u8,
    pub prioritize_bg: bool,
}

/// An opaque sprite pixel.
#[derive(Clone, Copy, Debug)]
pub struct SpritePixel {
    pub color: Color,
    pub prioritize_bg: bool,
}

/// Whether a sprite pixel (with its priority flag) wins over a background pixel of the given
/// color id and priority flag.
pub open spec fn sprite_wins(cgb_mode: bool, lcdc_bg_and_window_priority: bool, bg_color_id: u8, bg_prioritize: bool, sprite_prioritize: bool) -> bool {
    if !cgb_mode {
        (bg_color_id == 0 && sprite_prioritize) || !sprite_prioritize
    } else {
        bg_color_id == 0 || !lcdc_bg_and_window_priority || (!bg_prioritize && !sprite_prioritize)
    }
}

/// The color shown for a pixel: the sprite's where it wins, white for a disabled DMG
/// background, the background's otherwise.
pub open spec fn highest_priority_color(cgb_mode: bool, lcdc_bg_and_window_priority: bool, bg_color: Seq<u8>, bg_color_id: u8, bg_prioritize: bool, sprite: Option<(Seq<u8>, bool)>) -> Seq<u8> {
    match sprite {
        Some((sprite_color, sprite_prioritize)) => if sprite_wins(cgb_mode, lcdc_bg_and_window_priority, bg_color_id, bg_prioritize, sprite_prioritize) {
            sprite_color
        } else {
            bg_color
        },
        None => if !cgb_mode && !lcdc_bg_and_window_priority {
            seq![0xFFu8, 0xFF, 0xFF, 0xFF]
        } else {
            bg_color
        },
    }
}

/// On the DMG a sprite pixel is drawn over the background unless it asks for background
/// priority, and then only over color 0. On the CGB it is drawn over background color 0
/// always, over any background while bit 0 of LCDC is clear, and otherwise only where neither
/// the tile nor the sprite asks for background priority. Without a sprite pixel the background
/// shows, white on a DMG whose background is off.
pub proof fn law_pixel_priority(
    cgb_mode: bool,
    lcdc_bg_and_window_priority: bool,
    bg_color: Seq<u8>,
    bg_color_id: u8,
    bg_prioritize: bool,
    sprite_color: Seq<u8>,
    sprite_prioritize: bool,
)
    ensures
        !cgb_mode && !sprite_prioritize ==> highest_priority_color(cgb_mode, lcdc_bg_and_window_priority, bg_color,
            bg_color_id, bg_prioritize, Some((sprite_color, sprite_prioritize))) == sprite_color,
        !cgb_mode && sprite_prioritize ==> highest_priority_color(cgb_mode, lcdc_bg_and_window_priority, bg_color,
            bg_color_id, bg_prioritize, Some((sprite_color, sprite_prioritize))) == (if bg_color_id == 0 {
            sprite_color
        } else {
            bg_color
        }),
        cgb_mode && (bg_color_id == 0 || !lcdc_bg_and_window_priority) ==> highest_priority_color(cgb_mode,
            lcdc_bg_and_window_priority, bg_color, bg_color_id, bg_prioritize, Some((sprite_color, sprite_prioritize)))
            == sprite_color,
        cgb_mode && bg_color_id != 0 && lcdc_bg_and_window_priority ==> highest_priority_color(cgb_mode,
            lcdc_bg_and_window_priority, bg_color, bg_color_id, bg_prioritize, Some((sprite_color, sprite_prioritize)))
            == (if !bg_prioritize && !sprite_prioritize {
            sprite_color
        } else {
            bg_color
        }),
        highest_priority_color(cgb_mode, lcdc_bg_and_window_priority, bg_color, bg_color_id, bg_prioritize, None)
            == (if !cgb_mode && !lcdc_bg_and_window_priority {
            seq![0xFFu8, 0xFF, 0xFF, 0xFF]
        } else {
            bg_color
        }),
{
}

/// A sprite pixel as plain values.
pub open spec fn sprite_pixel_view(p: Option<SpritePixel>) -> Option<(Seq<u8>, bool)> {
    match p {
        Some(px) => Some((px.color@, px.prioritize_bg)),
        None => None,
    }
}

pub fn resolve_highest_priority_pixel(cgb_mode: bool, lcdc_bg_and_window_priority: bool, bg_pixel: BackgroundPixel, maybe_sprite_pixel: Option<SpritePixel>) -> (color: Color)
    ensures
        color@ == highest_priority_color(cgb_mode, lcdc_bg_and_window_priority, bg_pixel.color@, bg_pixel.color_id, bg_pixel.prioritize_bg, sprite_pixel_view(maybe_sprite_pixel)),
{
    match maybe_sprite_pixel {
        Some(sprite_pixel) => {
            if !cgb_mode {
                if (bg_pixel.color_id == 0 && sprite_pixel.prioritize_bg) || !sprite_pixel.prioritize_bg {
                    sprite_pixel.color
                } else {
                    bg_pixel.color
                }
            } else if bg_pixel.color_id == 0 || !lcdc_bg_and_window_priority || (!bg_pixel.prioritize_bg
                && !sprite_pixel.prioritize_bg) {
                sprite_pixel.color
            } else {
                bg_pixel.color
            }
        },
        None => {
            if !cgb_mode && !lcdc_bg_and_window_priority {
                white()
            } else {
                bg_pixel.color
            }
        },
    }
}

} // verus!

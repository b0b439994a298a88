use crate::gpu::colors::{as_cgb_obj_color_rgb, as_dmg_obj_color_rgb, calculate_color_id, cgb_obj_color, color_id, dmg_object_palette, monochrome_color, obj_palette_key, Color};
use crate::gpu::prioritization::SpritePixel;
use crate::gpu::utils::{get_obj_enabled_mode, get_obj_size_mode, get_tile_line_bytes, tile_line_bytes};
use crate::gpu::Gpu;
use crate::utils::{bit_is_set, get_bit, is_bit_set};
use vstd::prelude::*;

verus! {

pub const SPRITE_LIMIT_PER_SCANLINE: usize = 10;
pub const TOTAL_SPRITES: u16 = 40;
pub const TILE_DATA_BYTE_SIZE: u16 = 16;
pub const SPRITE_BYTE_SIZE: u16 = 4;
pub const SPRITE_WIDTH: i16 = 8;
pub const CGB_OPRI_PRIORITY_BIT: u8 = 0;

/// One object of OAM, with its position on the screen (which may lie partly off it).
#[derive(Clone, Copy, Debug)]
pub struct Sprite {
    pub y_pos: i16,
    pub x_pos: i16,
    pub tile_index: u8,
    pub priority: bool,
    pub y_flip: bool,
    pub x_flip: bool,
    pub dmg_palette: u8,
    pub oam_index: u16,
    pub cgb_from_bank_one: bool,
    pub cgb_palette: u8,
}

/// Whether one sprite is drawn over another: by OAM position alone, or else by X position
/// with OAM position breaking ties.
pub open spec fn higher_priority(a: Sprite, b: Sprite, oam_location_prioritization: bool) -> bool {
    (oam_location_prioritization && a.oam_index < b.oam_index) || (!oam_location_prioritization
        && (a.x_pos < b.x_pos || (a.x_pos == b.x_pos && a.oam_index < b.oam_index)))
}

/// Without OAM-location prioritization (DMG) the sprite further left is drawn over the other,
/// and the earlier one in OAM only when both have the same X; with it, the earlier one in OAM
/// is drawn over the other whatever their X. No sprite is above itself, and of two sprites at
/// most one is above the other.
pub proof fn law_sprite_priority(a: Sprite, b: Sprite, oam_location_prioritization: bool)
    ensures
        !oam_location_prioritization && a.x_pos < b.x_pos ==> higher_priority(a, b, oam_location_prioritization),
        !oam_location_prioritization && a.x_pos > b.x_pos ==> !higher_priority(a, b, oam_location_prioritization),
        !oam_location_prioritization && a.x_pos == b.x_pos ==> (higher_priority(a, b, oam_location_prioritization)
            <==> a.oam_index < b.oam_index),
        oam_location_prioritization ==> (higher_priority(a, b, oam_location_prioritization) <==> a.oam_index
            < b.oam_index),
        !higher_priority(a, a, oam_location_prioritization),
        !(higher_priority(a, b, oam_location_prioritization) && higher_priority(b, a, oam_location_prioritization)),
{
}

impl Sprite {
    /// Values a sprite read from OAM can have.
    pub open spec fn wf(&self) -> bool {
        &&& -16 <= self.y_pos <= 239
        &&& -8 <= self.x_pos <= 247
        &&& self.dmg_palette <= 1
        &&& self.cgb_palette < 8
        &&& self.oam_index < 160
    }

    pub fn has_higher_priority_than(&self, compared_sprite: &Sprite, oam_location_prioritization: bool) -> (r: bool)
        ensures
            r == higher_priority(*self, *compared_sprite, oam_location_prioritization),
    {
        let has_lower_x = self.x_pos < compared_sprite.x_pos;
        let has_same_x = self.x_pos == compared_sprite.x_pos;
        let located_earlier_in_oam = self.oam_index < compared_sprite.oam_index;
        (oam_location_prioritization && located_earlier_in_oam) || (!oam_location_prioritization
            && (has_lower_x || (has_same_x && located_earlier_in_oam)))
    }
}

/// Whether a sprite of 8 or 16 rows covers line `y`.
pub open spec fn in_scanline(sprite_y_pos: i16, y: int, eight_by_sixteen_mode: bool) -> bool {
    let last_row = sprite_y_pos + if eight_by_sixteen_mode { 16int } else { 8int };
    y >= sprite_y_pos && y < last_row && last_row >= 0
}

/// A sprite covers the on-screen lines from its Y position on: eight of them, or sixteen in
/// 8x16 mode.
pub proof fn law_sprite_height(sprite_y_pos: i16, y: int, eight_by_sixteen_mode: bool)
    requires
        y >= 0,
    ensures
        !eight_by_sixteen_mode ==> (in_scanline(sprite_y_pos, y, eight_by_sixteen_mode) <==> sprite_y_pos <= y
            < sprite_y_pos + 8),
        eight_by_sixteen_mode ==> (in_scanline(sprite_y_pos, y, eight_by_sixteen_mode) <==> sprite_y_pos <= y
            < sprite_y_pos + 16),
{
}

fn within_scanline(sprite_y_pos: i16, y_int: i16, eight_by_sixteen_mode: bool) -> (r: bool)
    requires
        -16 <= sprite_y_pos <= 239,
    ensures
        r == in_scanline(sprite_y_pos, y_int as int, eight_by_sixteen_mode),
{
    let sprite_height: i16 = if eight_by_sixteen_mode { 16 } else { 8 };
    let last_row = sprite_y_pos + sprite_height;
    y_int >= sprite_y_pos && y_int < last_row && last_row >= 0
}

/// Whether a sprite covers the pixel at (`x`, `y`).
pub open spec fn overlaps(sprite: Sprite, x: int, y: int, eight_by_sixteen_mode: bool) -> bool {
    in_scanline(sprite.y_pos, y, eight_by_sixteen_mode) && x >= sprite.x_pos && x < sprite.x_pos + 8
}

fn sprite_overlaps_coordinates(sprite_x_pos: i16, sprite_y_pos: i16, x_int: i16, y_int: i16, eight_by_sixteen_mode: bool) -> (r: bool)
    requires
        -16 <= sprite_y_pos <= 239,
        -8 <= sprite_x_pos <= 247,
    ensures
        r == (in_scanline(sprite_y_pos, y_int as int, eight_by_sixteen_mode) && x_int >= sprite_x_pos
            && x_int < sprite_x_pos + 8),
{
    within_scanline(sprite_y_pos, y_int, eight_by_sixteen_mode) && x_int >= sprite_x_pos && x_int < sprite_x_pos
        + SPRITE_WIDTH
}

/// The sprite stored at entry `sprite_number` of OAM.
pub open spec fn sprite_at(oam: Seq<u8>, sprite_number: int) -> Sprite {
    let oam_index = sprite_number * 4;
    let attributes = oam[oam_index + 3];
    Sprite {
        y_pos: (oam[oam_index] - 16) as i16,
        x_pos: (oam[oam_index + 1] - 8) as i16,
        tile_index: oam[oam_index + 2],
        priority: bit_is_set(attributes, 7),
        y_flip: bit_is_set(attributes, 6),
        x_flip: bit_is_set(attributes, 5),
        dmg_palette: (attributes >> 4u8) & 1,
        oam_index: oam_index as u16,
        cgb_from_bank_one: bit_is_set(attributes, 3),
        cgb_palette: attributes & 0b111,
    }
}

fn pull_sprite(object_attribute_memory: &[u8; 0xa0], sprite_number: u16) -> (sprite: Sprite)
    requires
        sprite_number < 40,
    ensures
        sprite == sprite_at(object_attribute_memory@, sprite_number as int),
        sprite.wf(),
{
    let oam_index = sprite_number * SPRITE_BYTE_SIZE;

    let y_pos = object_attribute_memory[oam_index as usize];
    let x_pos = object_attribute_memory[(oam_index + 1) as usize];
    let tile_index = object_attribute_memory[(oam_index + 2) as usize];
    let attributes = object_attribute_memory[(oam_index + 3) as usize];
    proof {
        crate::utils::lemma_u8_and_bound(attributes, 0b111);
    }

    Sprite {
        y_pos: (y_pos as i16 - 16),
        x_pos: (x_pos as i16 - 8),
        tile_index,
        priority: is_bit_set(attributes, 7),
        y_flip: is_bit_set(attributes, 6),
        x_flip: is_bit_set(attributes, 5),
        dmg_palette: get_bit(attributes, 4),
        oam_index,
        cgb_from_bank_one: is_bit_set(attributes, 3),
        cgb_palette: attributes & 0b111,
    }
}

/// The sprites on line `ly` among the first `n` entries of OAM, in OAM order, at most ten.
pub open spec fn scanline_sprites(oam: Seq<u8>, ly: u8, eight_by_sixteen_mode: bool, n: nat) -> Seq<Sprite>
    decreases n,
{
    if n == 0 {
        Seq::empty()
    } else {
        let earlier = scanline_sprites(oam, ly, eight_by_sixteen_mode, (n - 1) as nat);
        let sprite = sprite_at(oam, n - 1);
        if earlier.len() < 10 && in_scanline(sprite.y_pos, ly as int, eight_by_sixteen_mode) {
            earlier.push(sprite)
        } else {
            earlier
        }
    }
}

proof fn lemma_scanline_sprites_len(oam: Seq<u8>, ly: u8, mode: bool, n: nat)
    ensures
        scanline_sprites(oam, ly, mode, n).len() <= 10,
        scanline_sprites(oam, ly, mode, n).len() <= n,
    decreases n,
{
    if n > 0 {
        lemma_scanline_sprites_len(oam, ly, mode, (n - 1) as nat);
    }
}

proof fn lemma_scanline_sprites_full(oam: Seq<u8>, ly: u8, mode: bool, n: nat, m: nat)
    requires
        n <= m,
        scanline_sprites(oam, ly, mode, n).len() == 10,
    ensures
        scanline_sprites(oam, ly, mode, m) == scanline_sprites(oam, ly, mode, n),
    decreases m,
{
    if m > n {
        lemma_scanline_sprites_full(oam, ly, mode, n, (m - 1) as nat);
    }
}

/// The sprites of line `ly`: the first ten in OAM order whose rows cover it.
pub fn collect_scanline_sprites(object_attribute_memory: &[u8; 0xa0], ly: u8, lcdc: u8) -> (sprites: Vec<Sprite>)
    ensures
        sprites@ == scanline_sprites(object_attribute_memory@, ly, bit_is_set(lcdc, 2), 40),
        sprites@.len() <= 10,
        forall|i: int| 0 <= i < sprites@.len() ==> (#[trigger] sprites@[i]).wf(),
{
    let mut sprites: Vec<Sprite> = Vec::new();

    let eight_by_sixteen_mode = get_obj_size_mode(lcdc);
    let mut sprite_number: u16 = 0;

    while sprite_number < TOTAL_SPRITES
        invariant
            sprite_number <= 40,
            eight_by_sixteen_mode == bit_is_set(lcdc, 2),
            sprites@ == scanline_sprites(object_attribute_memory@, ly, eight_by_sixteen_mode, sprite_number as nat),
            sprites@.len() < 10,
            forall|i: int| 0 <= i < sprites@.len() ==> (#[trigger] sprites@[i]).wf(),
        decreases 40 - sprite_number,
    {
        let sprite = pull_sprite(object_attribute_memory, sprite_number);

        let y_int = ly as i16;

        if within_scanline(sprite.y_pos, y_int, eight_by_sixteen_mode) {
            sprites.push(sprite);

            if sprites.len() == SPRITE_LIMIT_PER_SCANLINE {
                assert(sprites@ == scanline_sprites(object_attribute_memory@, ly, eight_by_sixteen_mode, (sprite_number + 1) as nat));
                proof {
                    lemma_scanline_sprites_full(object_attribute_memory@, ly, eight_by_sixteen_mode, (sprite_number + 1) as nat, 40);
                    assert(eight_by_sixteen_mode == bit_is_set(lcdc, 2));
                    assert(sprites@ == scanline_sprites(object_attribute_memory@, ly, eight_by_sixteen_mode, 40));
                }
                return sprites;
            }
        }
        sprite_number += 1;
    }

    sprites
}

/// The sprites of a buffer that cover the pixel at (`x`, `y`), in buffer order.
pub open spec fn covering_sprites(sprites: Seq<Sprite>, x: u8, y: u8, eight_by_sixteen_mode: bool) -> Seq<Sprite>
    decreases sprites.len(),
{
    if sprites.len() == 0 {
        Seq::empty()
    } else {
        let earlier = covering_sprites(sprites.drop_last(), x, y, eight_by_sixteen_mode);
        if overlaps(sprites.last(), x as int, y as int, eight_by_sixteen_mode) {
            earlier.push(sprites.last())
        } else {
            earlier
        }
    }
}

proof fn lemma_covering_sprites_wf(sprites: Seq<Sprite>, x: u8, y: u8, mode: bool)
    requires
        forall|i: int| 0 <= i < sprites.len() ==> (#[trigger] sprites[i]).wf(),
    ensures
        forall|i: int|
            0 <= i < covering_sprites(sprites, x, y, mode).len() ==> (#[trigger] covering_sprites(sprites, x, y, mode)[i]).wf()
                && overlaps(covering_sprites(sprites, x, y, mode)[i], x as int, y as int, mode),
    decreases sprites.len(),
{
    if sprites.len() > 0 {
        let rest = sprites.drop_last();
        assert forall|i: int| 0 <= i < rest.len() implies (#[trigger] rest[i]).wf() by {
            assert(rest[i] == sprites[i]);
        }
        lemma_covering_sprites_wf(rest, x, y, mode);
        let c = covering_sprites(rest, x, y, mode);
        let all = covering_sprites(sprites, x, y, mode);
        assert(sprites.last() == sprites[sprites.len() - 1]);
        assert forall|i: int| 0 <= i < all.len() implies (#[trigger] all[i]).wf() && overlaps(all[i], x as int, y as int, mode) by {
            if i < c.len() {
                assert(all[i] == c[i]);
            }
        }
    }
}

fn lookup_possible_sprites(sprite_buffer: &Vec<Sprite>, x: u8, y: u8, eight_by_sixteen_mode: bool) -> (found: Vec<Sprite>)
    requires
        forall|i: int| 0 <= i < sprite_buffer@.len() ==> (#[trigger] sprite_buffer@[i]).wf(),
    ensures
        found@ == covering_sprites(sprite_buffer@, x, y, eight_by_sixteen_mode),
{
    let mut found_sprites: Vec<Sprite> = Vec::new();
    let mut i: usize = 0;

    while i < sprite_buffer.len()
        invariant
            i <= sprite_buffer@.len(),
            forall|j: int| 0 <= j < sprite_buffer@.len() ==> (#[trigger] sprite_buffer@[j]).wf(),
            found_sprites@ == covering_sprites(sprite_buffer@.subrange(0, i as int), x, y, eight_by_sixteen_mode),
        decreases sprite_buffer@.len() - i,
    {
        let sprite = sprite_buffer[i];
        let x_int = x as i16;
        let y_int = y as i16;

        assert(sprite_buffer@.subrange(0, i + 1).drop_last() == sprite_buffer@.subrange(0, i as int));
        if sprite_overlaps_coordinates(sprite.x_pos, sprite.y_pos, x_int, y_int, eight_by_sixteen_mode) {
            found_sprites.push(sprite);
        }
        i += 1;
    }
    assert(sprite_buffer@.subrange(0, i as int) == sprite_buffer@);

    found_sprites
}

/// The tile of a sprite that covers a line: in 8x16 mode the top or bottom one of a pair.
pub open spec fn sprite_tile_index(sprite: Sprite, y: int, eight_by_sixteen_mode: bool) -> u8 {
    if eight_by_sixteen_mode && y - sprite.y_pos >= 8 {
        if sprite.y_flip { sprite.tile_index & 0xFE } else { sprite.tile_index | 0x01 }
    } else if eight_by_sixteen_mode {
        if sprite.y_flip { sprite.tile_index | 0x01 } else { sprite.tile_index & 0xFE }
    } else {
        sprite.tile_index
    }
}

fn calculate_tile_index(sprite: &Sprite, y_int: i16, eight_by_sixteen_mode: bool) -> (index: u8)
    ensures
        index == sprite_tile_index(*sprite, y_int as int, eight_by_sixteen_mode),
{
    if eight_by_sixteen_mode && (y_int as i32 - sprite.y_pos as i32) >= 8 {
        if sprite.y_flip { sprite.tile_index & 0xFE } else { sprite.tile_index | 0x01 }
    } else if eight_by_sixteen_mode {
        if sprite.y_flip { sprite.tile_index | 0x01 } else { sprite.tile_index & 0xFE }
    } else {
        sprite.tile_index
    }
}

/// The color a sprite gives the pixel at (`x`, `y`) that it covers, if not transparent.
pub open spec fn sprite_pixel_color(gpu: &Gpu, sprite: Sprite, x: u8, y: u8) -> Option<Seq<u8>> {
    let mode = bit_is_set(gpu.lcdc, 2);
    let tile_data_index = (sprite_tile_index(sprite, y as int, mode) as int * 16) as u16;
    let row_offset = ((y - sprite.y_pos) % 8) as u8;
    let column_offset = (x - sprite.x_pos) as u8;
    let from_bank_one = if gpu.cgb_mode { sprite.cgb_from_bank_one } else { false };
    let (lsb, msb) = tile_line_bytes(gpu.video_ram@, tile_data_index, row_offset, sprite.y_flip, from_bank_one);
    let id = color_id(column_offset, msb, lsb, sprite.x_flip);
    if gpu.cgb_mode {
        let dmg_compatible = gpu.key0 == 0x04;
        let palette_number = if dmg_compatible { sprite.dmg_palette } else { sprite.cgb_palette };
        cgb_obj_color(&gpu.palettes, palette_number, id, dmg_compatible)
    } else {
        match obj_palette_key(id, dmg_object_palette(&gpu.palettes, sprite.dmg_palette)) {
            Some(key) => Some(monochrome_color(key)),
            None => None,
        }
    }
}

/// The sprite that wins a pixel among covering sprites, scanned in order, with its color:
/// the first one, replaced by a later opaque one when the winner so far is transparent or the
/// later one has higher priority.
pub open spec fn winning_sprite(gpu: &Gpu, sprites: Seq<Sprite>, x: u8, y: u8, oam_location_prioritization: bool) -> Option<(Sprite, Option<Seq<u8>>)>
    decreases sprites.len(),
{
    if sprites.len() == 0 {
        None
    } else {
        let sprite = sprites.last();
        let color = sprite_pixel_color(gpu, sprite, x, y);
        match winning_sprite(gpu, sprites.drop_last(), x, y, oam_location_prioritization) {
            None => Some((sprite, color)),
            Some((best, best_color)) => match (color, best_color) {
                (Some(c), Some(_)) => if higher_priority(sprite, best, oam_location_prioritization) {
                    Some((sprite, Some(c)))
                } else {
                    Some((best, best_color))
                },
                (Some(c), None) => Some((sprite, Some(c))),
                _ => Some((best, best_color)),
            },
        }
    }
}

/// The sprite pixel drawn at column `viewport_x` of the current line, if any.
pub open spec fn sprite_pixel(gpu: &Gpu, sprite_buffer: Seq<Sprite>, viewport_x: u8) -> Option<(Seq<u8>, bool)> {
    let mode = bit_is_set(gpu.lcdc, 2);
    let oam_location_prioritization = gpu.cgb_mode && !bit_is_set(gpu.cgb_opri, 0);
    if bit_is_set(gpu.lcdc, 1) {
        match winning_sprite(gpu, covering_sprites(sprite_buffer, viewport_x, gpu.ly, mode), viewport_x, gpu.ly, oam_location_prioritization) {
            Some((sprite, Some(color))) => Some((color, sprite.priority)),
            _ => None,
        }
    } else {
        None
    }
}

impl Gpu {
    fn calculate_sprite_pixel_color(&self, sprite: &Sprite, x: u8, y: u8) -> (c: Option<Color>)
        requires
            sprite.wf(),
            overlaps(*sprite, x as int, y as int, bit_is_set(self.lcdc, 2)),
        ensures
            match sprite_pixel_color(self, *sprite, x, y) {
                Some(color) => c matches Some(col) && col@ == color,
                None => c is None,
            },
    {
        let y_int = y as i16;
        let x_int = x as i16;

        let lcdc = self.lcdc;
        let eight_by_sixteen_mode = get_obj_size_mode(lcdc);

        let calculated_index = calculate_tile_index(sprite, y_int, eight_by_sixteen_mode);
        let tile_data_index = calculated_index as u16 * TILE_DATA_BYTE_SIZE;
        let row_offset = ((y_int - sprite.y_pos) % 8) as u8;
        let column_offset = x_int - sprite.x_pos;

        let from_bank_one = if self.cgb_mode { sprite.cgb_from_bank_one } else { false };
        let (lsb_byte, msb_byte) = get_tile_line_bytes(&self.video_ram, tile_data_index, row_offset, sprite.y_flip, from_bank_one);

        if self.cgb_mode {
            let dmg_compatible = self.has_dmg_compatability();
            let palette_number = if dmg_compatible { sprite.dmg_palette } else { sprite.cgb_palette };
            let color_id = calculate_color_id(column_offset as u8, msb_byte, lsb_byte, sprite.x_flip);
            proof {
                crate::gpu::colors::lemma_palette_key_bound(color_id, dmg_object_palette(&self.palettes, palette_number));
            }
            as_cgb_obj_color_rgb(&self.palettes, palette_number, color_id, dmg_compatible)
        } else {
            let color_id = calculate_color_id(column_offset as u8, msb_byte, lsb_byte, sprite.x_flip);
            as_dmg_obj_color_rgb(&self.palettes, sprite.dmg_palette, color_id)
        }
    }

    fn resolve_highest_priority_sprite(&self, sprites: &Vec<Sprite>, x: u8, y: u8) -> (r: Option<(Sprite, Option<Color>)>)
        requires
            forall|i: int| 0 <= i < sprites@.len() ==> (#[trigger] sprites@[i]).wf()
                && overlaps(sprites@[i], x as int, y as int, bit_is_set(self.lcdc, 2)),
        ensures
            match winning_sprite(self, sprites@, x, y, self.cgb_mode && !bit_is_set(self.cgb_opri, 0)) {
                None => r is None,
                Some((sprite, None)) => r matches Some((s, None)) && s == sprite,
                Some((sprite, Some(color))) => r matches Some((s, Some(col))) && s == sprite && col@ == color,
            },
    {
        let mut maybe_highest_priority: Option<(Sprite, Option<Color>)> = None;
        let cgb_mode = self.cgb_mode;
        let oam_location_prioritization = cgb_mode && !is_bit_set(self.cgb_opri, CGB_OPRI_PRIORITY_BIT);
        let ghost olp = oam_location_prioritization;
        let mut i: usize = 0;

        while i < sprites.len()
            invariant
                i <= sprites@.len(),
                olp == (self.cgb_mode && !bit_is_set(self.cgb_opri, 0)),
                oam_location_prioritization == olp,
                forall|j: int| 0 <= j < sprites@.len() ==> (#[trigger] sprites@[j]).wf()
                    && overlaps(sprites@[j], x as int, y as int, bit_is_set(self.lcdc, 2)),
                match winning_sprite(self, sprites@.subrange(0, i as int), x, y, olp) {
                    None => maybe_highest_priority is None,
                    Some((sprite, None)) => maybe_highest_priority matches Some((s, None)) && s == sprite,
                    Some((sprite, Some(color))) => maybe_highest_priority matches Some((s, Some(col))) && s == sprite && col@ == color,
                },
            decreases sprites@.len() - i,
        {
            let sprite = sprites[i];
            assert(sprites@.subrange(0, i + 1).drop_last() == sprites@.subrange(0, i as int));
            assert(sprites@.subrange(0, i + 1).last() == sprite);
            let maybe_color = self.calculate_sprite_pixel_color(&sprite, x, y);
            match maybe_highest_priority {
                Some(highest_priority) => {
                    let current_highest_priority_sprite = highest_priority.0;
                    match (maybe_color, highest_priority.1) {
                        (Some(color), Some(_)) => {
                            if sprite.has_higher_priority_than(&current_highest_priority_sprite, oam_location_prioritization) {
                                maybe_highest_priority = Some((sprite, Some(color)));
                            }
                        },
                        (Some(color), None) => {
                            maybe_highest_priority = Some((sprite, Some(color)));
                        },
                        _ => {},
                    }
                },
                None => {
                    maybe_highest_priority = Some((sprite, maybe_color));
                },
            }
            i += 1;
        }
        assert(sprites@.subrange(0, i as int) == sprites@);

        maybe_highest_priority
    }

    pub fn read_sprite_pixel_color(&self, sprite_buffer: &Vec<Sprite>, viewport_x: u8) -> (p: Option<SpritePixel>)
        requires
            forall|i: int| 0 <= i < sprite_buffer@.len() ==> (#[trigger] sprite_buffer@[i]).wf(),
        ensures
            match sprite_pixel(self, sprite_buffer@, viewport_x) {
                Some((color, prioritize_bg)) => p matches Some(px) && px.color@ == color && px.prioritize_bg == prioritize_bg,
                None => p is None,
            },
    {
        let lcdc = self.lcdc;
        let ly = self.ly;

        let eight_by_sixteen_mode = get_obj_size_mode(lcdc);
        let sprites_enabled = get_obj_enabled_mode(lcdc);

        let possible_sprites = lookup_possible_sprites(sprite_buffer, viewport_x, ly, eight_by_sixteen_mode);
        proof {
            lemma_covering_sprites_wf(sprite_buffer@, viewport_x, ly, eight_by_sixteen_mode);
        }

        if sprites_enabled {
            match self.resolve_highest_priority_sprite(&possible_sprites, viewport_x, ly) {
                Some((highest_priority_sprite, maybe_color)) => {
                    let prioritize_bg = highest_priority_sprite.priority;
                    match maybe_color {
                        Some(color) => Some(SpritePixel { color, prioritize_bg }),
                        None => None,
                    }
                },
                _ => None,
            }
        } else {
            None
        }
    }
}

} // verus!

use crate::utils::{bit_is_set, get_bit, is_bit_set};
use vstd::prelude::*;

verus! {

/// Each RGBA color is represented in four bytes.
pub type Color = [u8; 4];

pub const COLORS_PER_PALETTE: usize = 4;
pub const CGB_PALETTES: usize = 8;

pub fn black() -> (c: Color)
    ensures
        c@ == seq![0x0u8, 0x0, 0x0, 0xFF],
{
    let c = [0x0, 0x0, 0x0, 0xFF];
    assert(c@ =~= seq![0x0u8, 0x0, 0x0, 0xFF]);
    c
}

pub fn dark_gray() -> (c: Color)
    ensures
        c@ == seq![0xA9u8, 0xA9, 0xA9, 0xFF],
{
    let c = [0xA9, 0xA9, 0xA9, 0xFF];
    assert(c@ =~= seq![0xA9u8, 0xA9, 0xA9, 0xFF]);
    c
}

pub fn light_gray() -> (c: Color)
    ensures
        c@ == seq![0xD3u8, 0xD3, 0xD3, 0xFF],
{
    let c = [0xD3, 0xD3, 0xD3, 0xFF];
    assert(c@ =~= seq![0xD3u8, 0xD3, 0xD3, 0xFF]);
    c
}

pub fn white() -> (c: Color)
    ensures
        c@ == seq![0xFFu8, 0xFF, 0xFF, 0xFF],
{
    let c = [0xFF, 0xFF, 0xFF, 0xFF];
    assert(c@ =~= seq![0xFFu8, 0xFF, 0xFF, 0xFF]);
    c
}

/// The four shades of the DMG, lightest first.
pub open spec fn monochrome_color(key: u8) -> Seq<u8> {
    if key == 0 {
        seq![0xFFu8, 0xFF, 0xFF, 0xFF]
    } else if key == 1 {
        seq![0xD3u8, 0xD3, 0xD3, 0xFF]
    } else if key == 2 {
        seq![0xA9u8, 0xA9, 0xA9, 0xFF]
    } else {
        seq![0x0u8, 0x0, 0x0, 0xFF]
    }
}

fn monochrome_color_exec(key: u8) -> (c: Color)
    requires
        key < 4,
    ensures
        c@ == monochrome_color(key),
{
    if key == 0 {
        white()
    } else if key == 1 {
        light_gray()
    } else if key == 2 {
        dark_gray()
    } else {
        black()
    }
}

/// The DMG palette registers and the CGB palette memory with its index registers.
pub struct Palettes {
    pub bgp: u8,
    pub obp0: u8,
    pub obp1: u8,
    pub cgb_bcpd: [u8; 64],
    pub cgb_ocpd: [u8; 64],
    pub cgb_bcps: u8,
    pub cgb_ocps: u8,
}

pub fn initialize_palettes() -> (p: Palettes)
    ensures
        p.bgp == 0 && p.obp0 == 0 && p.obp1 == 0 && p.cgb_bcps == 0 && p.cgb_ocps == 0,
        forall|i: int| 0 <= i < 64 ==> p.cgb_bcpd@[i] == 0 && p.cgb_ocpd@[i] == 0,
{
    Palettes { bgp: 0, obp0: 0, obp1: 0, cgb_bcpd: [0; 64], cgb_ocpd: [0; 64], cgb_bcps: 0, cgb_ocps: 0 }
}

/// The two-bit color id of a pixel: bit `7 - index` (or `index` when flipped) of the high and
/// low bytes of a tile line.
pub open spec fn color_id(bit_index: u8, msb_byte: u8, lsb_byte: u8, x_flip: bool) -> u8 {
    let index = if x_flip { bit_index } else { (7 - bit_index) as u8 };
    (((msb_byte >> index) & 1) * 2 + ((lsb_byte >> index) & 1)) as u8
}

pub fn calculate_color_id(bit_index: u8, msb_byte: u8, lsb_byte: u8, x_flip: bool) -> (id: u8)
    requires
        bit_index < 8,
    ensures
        id == color_id(bit_index, msb_byte, lsb_byte, x_flip),
        id < 4,
{
    let calculated_index = if x_flip { bit_index } else { 7 - bit_index };
    let msb = get_bit(msb_byte, calculated_index);
    let lsb = get_bit(lsb_byte, calculated_index);
    (msb * 2) + lsb
}

/// The two-bit shade that a palette register gives a color id.
pub open spec fn palette_key(color_id: u8, palette: u8) -> u8 {
    if color_id == 3 {
        (palette & 0b11000000) / 64
    } else if color_id == 2 {
        (palette & 0b00110000) / 16
    } else if color_id == 1 {
        (palette & 0b00001100) / 4
    } else {
        palette & 0b00000011
    }
}

pub proof fn lemma_palette_key_bound(color_id: u8, palette: u8)
    ensures
        palette_key(color_id, palette) < 4,
{
    crate::utils::lemma_u8_and_bound(palette, 0b11);
    crate::utils::lemma_u8_and_bound(palette, 0b1100);
    crate::utils::lemma_u8_and_bound(palette, 0b110000);
    crate::utils::lemma_u8_and_bound(palette, 0b11000000);
}

fn as_bg_color_key(color_id: u8, palette: u8) -> (key: u8)
    ensures
        key == palette_key(color_id, palette),
        key < 4,
{
    proof {
        lemma_palette_key_bound(color_id, palette);
    }
    match color_id {
        0b11 => (palette & 0b11000000) / 64,
        0b10 => (palette & 0b00110000) / 16,
        0b01 => (palette & 0b00001100) / 4,
        _ => palette & 0b00000011,
    }
}

/// Objects are transparent where the color id is zero.
pub open spec fn obj_palette_key(color_id: u8, palette: u8) -> Option<u8> {
    if color_id == 1 || color_id == 2 || color_id == 3 {
        Some(palette_key(color_id, palette))
    } else {
        None
    }
}

fn as_obj_color_key(color_id: u8, palette: u8) -> (key: Option<u8>)
    ensures
        key == obj_palette_key(color_id, palette),
        key matches Some(k) ==> k < 4,
{
    match color_id {
        0b11 | 0b10 | 0b01 => Some(as_bg_color_key(color_id, palette)),
        _ => None,
    }
}

/// A palette register holds one two-bit shade per color id, id 0 in bits 0-1 up to id 3 in
/// bits 6-7, and objects are transparent where the color id is 0. Shade 0 is white, shade 3
/// black, and each shade is darker than the one before it.
pub proof fn law_palette_shades(palette: u8)
    ensures
        palette_key(0, palette) == palette & 0x03,
        palette_key(1, palette) == (palette >> 2u8) & 0x03,
        palette_key(2, palette) == (palette >> 4u8) & 0x03,
        palette_key(3, palette) == palette >> 6u8,
        obj_palette_key(0, palette) is None,
        obj_palette_key(3, palette) == Some(palette >> 6u8),
        monochrome_color(0) == seq![0xFFu8, 0xFF, 0xFF, 0xFF],
        monochrome_color(3) == seq![0u8, 0, 0, 0xFF],
        monochrome_color(0)[0] > monochrome_color(1)[0] > monochrome_color(2)[0] > monochrome_color(3)[0],
{
    assert((palette & 0b11000000) / 64 == palette >> 6u8 && (palette & 0b00110000) / 16 == (palette >> 4u8) & 0x03
        && (palette & 0b00001100) / 4 == (palette >> 2u8) & 0x03) by (bit_vector);
}

/// Pixel `i` of a tile line, counted from the left, takes bit `7 - i` of both bytes of the
/// line, the high byte giving the upper bit of the color id; a flipped line is the mirror image.
pub proof fn law_color_id_bits(i: u8, msb_byte: u8, lsb_byte: u8)
    requires
        i < 8,
    ensures
        color_id(i, msb_byte, lsb_byte, false) >= 2 <==> msb_byte & (0x80u8 >> i) != 0,
        color_id(i, msb_byte, lsb_byte, false) % 2 == 1 <==> lsb_byte & (0x80u8 >> i) != 0,
        color_id(i, msb_byte, lsb_byte, true) == color_id((7 - i) as u8, msb_byte, lsb_byte, false),
        color_id(i, msb_byte, lsb_byte, false) < 4,
{
    let index: u8 = (7 - i) as u8;
    let high: u8 = (msb_byte >> index) & 1;
    let low: u8 = (lsb_byte >> index) & 1;
    assert(high <= 1 && low <= 1 && (high == 1 <==> msb_byte & (0x80u8 >> i) != 0) && (low == 1 <==> lsb_byte
        & (0x80u8 >> i) != 0)) by (bit_vector)
        requires
            i < 8,
            index == 7 - i,
            high == (msb_byte >> index) & 1,
            low == (lsb_byte >> index) & 1,
    ;
}

pub open spec fn dmg_object_palette(palettes: &Palettes, palette_number: u8) -> u8 {
    if palette_number == 0 { palettes.obp0 } else { palettes.obp1 }
}

fn resolve_dmg_object_palette(palettes: &Palettes, palette_number: u8) -> (p: u8)
    ensures
        p == dmg_object_palette(palettes, palette_number),
{
    if palette_number == 0 {
        palettes.obp0
    } else {
        palettes.obp1
    }
}

pub fn as_dmg_bg_color_rgb(palettes: &Palettes, color_id: u8) -> (c: Color)
    ensures
        c@ == monochrome_color(palette_key(color_id, palettes.bgp)),
{
    let key = as_bg_color_key(color_id, palettes.bgp);
    monochrome_color_exec(key)
}

pub fn as_dmg_obj_color_rgb(palettes: &Palettes, palette_number: u8, color_id: u8) -> (c: Option<Color>)
    ensures
        match obj_palette_key(color_id, dmg_object_palette(palettes, palette_number)) {
            Some(key) => c matches Some(color) && color@ == monochrome_color(key),
            None => c is None,
        },
{
    let palette = resolve_dmg_object_palette(palettes, palette_number);
    match as_obj_color_key(color_id, palette) {
        Some(key) => Some(monochrome_color_exec(key)),
        None => None,
    }
}

/// Byte offset of a color within CGB palette memory.
pub open spec fn cgb_palette_data_index(palette_number: u8, color_id: u8) -> int {
    ((palette_number as int) * 4 + color_id as int) * 2
}

/// An RGB555 color scaled to eight bits per channel.
pub open spec fn rgb555_color(rgb555: u16) -> Seq<u8> {
    let red = rgb555 % 32;
    let green = (rgb555 / 32) % 32;
    let blue = (rgb555 / 1024) % 32;
    seq![(red * 255 / 31) as u8, (green * 255 / 31) as u8, (blue * 255 / 31) as u8, 0xFFu8]
}

fn rgb555_as_color(rgb555: u16) -> (c: Color)
    ensures
        c@ == rgb555_color(rgb555),
{
    let red = rgb555 % 32;
    let green = (rgb555 / 32) % 32;
    let blue = (rgb555 / 1024) % 32;

    // Takes the five bits of each color channel and scales them to eight bits.
    let scaled_red = (red * 0xFF) / 31;
    let scaled_green = (green * 0xFF) / 31;
    let scaled_blue = (blue * 0xFF) / 31;

    let c = [scaled_red as u8, scaled_green as u8, scaled_blue as u8, 0xFF];
    assert(c@ =~= rgb555_color(rgb555));
    c
}

/// The little-endian word at an even index of palette memory.
pub open spec fn palette_word(data: Seq<u8>, index: int) -> u16 {
    (data[index] as int + data[index + 1] as int * 256) as u16
}

/// A CGB color word holds red in bits 0-4, green in bits 5-9 and blue in bits 10-14, bit 15
/// playing no part; each five-bit channel is scaled to eight bits, 0 to 0 and 31 to 255, and
/// the color is opaque.
pub proof fn law_rgb555_channels(rgb555: u16)
    ensures
        rgb555_color(rgb555).len() == 4,
        rgb555_color(rgb555)[0] == ((rgb555 & 0x1F) as int * 255 / 31) as u8,
        rgb555_color(rgb555)[1] == (((rgb555 >> 5u16) & 0x1F) as int * 255 / 31) as u8,
        rgb555_color(rgb555)[2] == (((rgb555 >> 10u16) & 0x1F) as int * 255 / 31) as u8,
        rgb555_color(rgb555)[3] == 0xFF,
        rgb555_color(rgb555) == rgb555_color(rgb555 & 0x7FFF),
        rgb555_color(0x7FFF) == seq![0xFFu8, 0xFF, 0xFF, 0xFF],
        rgb555_color(0) == seq![0u8, 0, 0, 0xFF],
{
    let x: u16 = rgb555;
    let y: u16 = rgb555 & 0x7FFF;
    assert(x % 32 == x & 0x1F && (x / 32) % 32 == (x >> 5u16) & 0x1F && (x / 1024) % 32 == (x >> 10u16) & 0x1F
        && y % 32 == x % 32 && (y / 32) % 32 == (x / 32) % 32 && (y / 1024) % 32 == (x / 1024) % 32) by (bit_vector)
        requires
            y == x & 0x7FFF,
    ;
    assert(rgb555_color(x) =~= rgb555_color(y));
    assert(rgb555_color(0x7FFF) =~= seq![0xFFu8, 0xFF, 0xFF, 0xFF]);
    assert(rgb555_color(0) =~= seq![0u8, 0, 0, 0xFF]);
}

fn lookup_cgb_palette(data: &[u8; 64], palette_number: u8, color_id: u8) -> (w: u16)
    requires
        palette_number as int * 4 + color_id < 32,
    ensures
        w == palette_word(data@, cgb_palette_data_index(palette_number, color_id)),
{
    let index = ((palette_number as usize * COLORS_PER_PALETTE) + color_id as usize) * 2;
    (data[index] as u16) + (data[index + 1] as u16) * 256
}

pub fn lookup_cgb_background_palette(palettes: &Palettes, palette_number: u8, color_id: u8) -> (w: u16)
    requires
        palette_number as int * 4 + color_id < 32,
    ensures
        w == palette_word(palettes.cgb_bcpd@, cgb_palette_data_index(palette_number, color_id)),
{
    lookup_cgb_palette(&palettes.cgb_bcpd, palette_number, color_id)
}

pub fn lookup_cgb_object_palette(palettes: &Palettes, palette_number: u8, color_id: u8) -> (w: u16)
    requires
        palette_number as int * 4 + color_id < 32,
    ensures
        w == palette_word(palettes.cgb_ocpd@, cgb_palette_data_index(palette_number, color_id)),
{
    lookup_cgb_palette(&palettes.cgb_ocpd, palette_number, color_id)
}

/// A CGB background color; in DMG compatibility mode the color id first goes through BGP.
pub open spec fn cgb_bg_color(palettes: &Palettes, palette_number: u8, color_id: u8, dmg_compatible: bool) -> Seq<u8> {
    let id = if dmg_compatible { palette_key(color_id, palettes.bgp) } else { color_id };
    rgb555_color(palette_word(palettes.cgb_bcpd@, cgb_palette_data_index(palette_number, id)))
}

pub fn as_cgb_bg_color_rgb(palettes: &Palettes, palette_number: u8, color_id: u8, dmg_compatible: bool) -> (c: Color)
    requires
        palette_number as int * 4 + (if dmg_compatible { palette_key(color_id, palettes.bgp) } else { color_id }) < 32,
    ensures
        c@ == cgb_bg_color(palettes, palette_number, color_id, dmg_compatible),
{
    let palette = if dmg_compatible {
        let key = as_bg_color_key(color_id, palettes.bgp);
        lookup_cgb_background_palette(palettes, palette_number, key)
    } else {
        lookup_cgb_background_palette(palettes, palette_number, color_id)
    };
    rgb555_as_color(palette)
}

/// A CGB object color, transparent for color id zero; in DMG compatibility mode the color id
/// first goes through OBP0 or OBP1.
pub open spec fn cgb_obj_color(palettes: &Palettes, palette_number: u8, color_id: u8, dmg_compatible: bool) -> Option<Seq<u8>> {
    if color_id == 0 {
        None
    } else if dmg_compatible {
        match obj_palette_key(color_id, dmg_object_palette(palettes, palette_number)) {
            Some(key) => Some(rgb555_color(palette_word(palettes.cgb_ocpd@, cgb_palette_data_index(palette_number, key)))),
            None => None,
        }
    } else {
        Some(rgb555_color(palette_word(palettes.cgb_ocpd@, cgb_palette_data_index(palette_number, color_id))))
    }
}

pub fn as_cgb_obj_color_rgb(palettes: &Palettes, palette_number: u8, color_id: u8, dmg_compatible: bool) -> (c: Option<Color>)
    requires
        color_id != 0 ==> if dmg_compatible {
            obj_palette_key(color_id, dmg_object_palette(palettes, palette_number)) matches Some(key)
                ==> palette_number as int * 4 + key < 32
        } else {
            palette_number as int * 4 + color_id < 32
        },
    ensures
        match cgb_obj_color(palettes, palette_number, color_id, dmg_compatible) {
            Some(color) => c matches Some(col) && col@ == color,
            None => c is None,
        },
{
    if color_id == 0 {
        None
    } else if dmg_compatible {
        let palette = resolve_dmg_object_palette(palettes, palette_number);
        match as_obj_color_key(color_id, palette) {
            Some(key) => Some(rgb555_as_color(lookup_cgb_object_palette(palettes, palette_number, key))),
            None => None,
        }
    } else {
        Some(rgb555_as_color(lookup_cgb_object_palette(palettes, palette_number, color_id)))
    }
}

pub fn get_cgb_bcps(palettes: &Palettes) -> (r: u8)
    ensures
        r == palettes.cgb_bcps,
{
    palettes.cgb_bcps
}

pub fn set_cgb_bcps(palettes: &mut Palettes, value: u8)
    ensures
        *final(palettes) == (Palettes { cgb_bcps: value, ..*old(palettes) }),
{
    palettes.cgb_bcps = value;
}

pub fn get_cgb_ocps(palettes: &Palettes) -> (r: u8)
    ensures
        r == palettes.cgb_ocps,
{
    palettes.cgb_ocps
}

pub fn set_cgb_ocps(palettes: &mut Palettes, value: u8)
    ensures
        *final(palettes) == (Palettes { cgb_ocps: value, ..*old(palettes) }),
{
    palettes.cgb_ocps = value;
}

/// Reading BCPD gives the byte of background palette memory that BCPS points at.
pub fn get_cgb_bcpd(palettes: &Palettes) -> (r: u8)
    ensures
        r == palettes.cgb_bcpd@[(palettes.cgb_bcps & 0x3F) as int],
{
    proof {
        crate::utils::lemma_u8_and_bound(palettes.cgb_bcps, 0x3F);
    }
    let address = (palettes.cgb_bcps & 0b00111111) as usize;
    palettes.cgb_bcpd[address]
}

/// The index register after a data write: with bit 7 set it moves on by one.
pub open spec fn auto_incremented(index_register: u8) -> u8 {
    if bit_is_set(index_register, 7) {
        (((index_register + 1) % 256) as u8) | 0x80
    } else {
        index_register
    }
}

fn auto_increment(index_register: u8) -> (r: u8)
    ensures
        r == auto_incremented(index_register),
{
    if is_bit_set(index_register, 7) {
        index_register.wrapping_add(1) | 0x80
    } else {
        index_register
    }
}

/// Writing BCPD stores the byte where BCPS points and auto-increments BCPS when asked to.
pub fn set_cgb_bcpd(palettes: &mut Palettes, value: u8)
    ensures
        final(palettes).cgb_bcpd@ == old(palettes).cgb_bcpd@.update((old(palettes).cgb_bcps & 0x3F) as int, value),
        final(palettes).cgb_bcps == auto_incremented(old(palettes).cgb_bcps),
        *final(palettes) == (Palettes { cgb_bcpd: final(palettes).cgb_bcpd, cgb_bcps: final(palettes).cgb_bcps, ..*old(palettes) }),
{
    proof {
        crate::utils::lemma_u8_and_bound(palettes.cgb_bcps, 0x3F);
    }
    let address = (palettes.cgb_bcps & 0b00111111) as usize;
    palettes.cgb_bcpd[address] = value;
    palettes.cgb_bcps = auto_increment(palettes.cgb_bcps);
}

/// Reading OCPD gives the byte of object palette memory that OCPS points at.
pub fn get_cgb_ocpd(palettes: &Palettes) -> (r: u8)
    ensures
        r == palettes.cgb_ocpd@[(palettes.cgb_ocps & 0x3F) as int],
{
    proof {
        crate::utils::lemma_u8_and_bound(palettes.cgb_ocps, 0x3F);
    }
    let address = (palettes.cgb_ocps & 0b00111111) as usize;
    palettes.cgb_ocpd[address]
}

/// Writing OCPD stores the byte where OCPS points and auto-increments OCPS when asked to.
pub fn set_cgb_ocpd(palettes: &mut Palettes, value: u8)
    ensures
        final(palettes).cgb_ocpd@ == old(palettes).cgb_ocpd@.update((old(palettes).cgb_ocps & 0x3F) as int, value),
        final(palettes).cgb_ocps == auto_incremented(old(palettes).cgb_ocps),
        *final(palettes) == (Palettes { cgb_ocpd: final(palettes).cgb_ocpd, cgb_ocps: final(palettes).cgb_ocps, ..*old(palettes) }),
{
    proof {
        crate::utils::lemma_u8_and_bound(palettes.cgb_ocps, 0x3F);
    }
    let address = (palettes.cgb_ocps & 0b00111111) as usize;
    palettes.cgb_ocpd[address] = value;
    palettes.cgb_ocps = auto_increment(palettes.cgb_ocps);
}

impl Palettes {
    pub fn new() -> (p: Palettes)
        ensures
            p.bgp == 0 && p.obp0 == 0 && p.obp1 == 0 && p.cgb_bcps == 0 && p.cgb_ocps == 0,
            forall|i: int| 0 <= i < 64 ==> p.cgb_bcpd@[i] == 0 && p.cgb_ocpd@[i] == 0,
    {
        initialize_palettes()
    }

    pub fn bgp(&self) -> (r: u8)
        ensures
            r == self.bgp,
    {
        self.bgp
    }

    pub fn set_bgp(&mut self, value: u8)
        ensures
            *final(self) == (Palettes { bgp: value, ..*old(self) }),
    {
        self.bgp = value;
    }

    pub fn obp0(&self) -> (r: u8)
        ensures
            r == self.obp0,
    {
        self.obp0
    }

    pub fn set_obp0(&mut self, value: u8)
        ensures
            *final(self) == (Palettes { obp0: value, ..*old(self) }),
    {
        self.obp0 = value;
    }

    pub fn obp1(&self) -> (r: u8)
        ensures
            r == self.obp1,
    {
        self.obp1
    }

    pub fn set_obp1(&mut self, value: u8)
        ensures
            *final(self) == (Palettes { obp1: value, ..*old(self) }),
    {
        self.obp1 = value;
    }

    /// Stores a byte of background palette memory directly.
    pub fn set_cgb_bcpd_by_index(&mut self, index: usize, value: u8)
        requires
            index < 64,
        ensures
            final(self).cgb_bcpd@ == old(self).cgb_bcpd@.update(index as int, value),
            *final(self) == (Palettes { cgb_bcpd: final(self).cgb_bcpd, ..*old(self) }),
    {
        self.cgb_bcpd[index] = value;
    }

    /// Stores a byte of object palette memory directly.
    pub fn set_cgb_ocpd_by_index(&mut self, index: usize, value: u8)
        requires
            index < 64,
        ensures
            final(self).cgb_ocpd@ == old(self).cgb_ocpd@.update(index as int, value),
            *final(self) == (Palettes { cgb_ocpd: final(self).cgb_ocpd, ..*old(self) }),
    {
        self.cgb_ocpd[index] = value;
    }
}

/// With auto-increment on, each data write moves the index register on to the next byte of
/// palette memory, wrapping from the last byte to the first, and auto-increment stays on.
pub proof fn law_auto_increment_advances(index_register: u8)
    requires
        bit_is_set(index_register, 7),
    ensures
        auto_incremented(index_register) & 0x3F == ((index_register & 0x3F) + 1) % 64,
        bit_is_set(auto_incremented(index_register), 7),
{
    assert(((((index_register + 1) % 256) as u8) | 0x80) & 0x3F == ((index_register & 0x3F) + 1) % 64) by (bit_vector);
    assert((((((index_register + 1) % 256) as u8) | 0x80) >> 7) & 1 == 1) by (bit_vector);
}

} // verus!

use crate::address_bus::hdma::HDMAState;
use crate::gpu::colors::Palettes;
use crate::gpu::scanline::{line_pixel, pixel_byte_index};
use crate::gpu::utils::{get_lcd_enabled_mode, get_window_enabled_mode};
use crate::utils::{bit_is_set, get_t_cycle_increment, is_bit_set, t_cycle_increment};
use vstd::prelude::*;

verus! {

pub const GB_SCREEN_WIDTH: u32 = 160;
pub const GB_SCREEN_HEIGHT: u32 = 144;
pub const BYTES_PER_COLOR: u32 = 4;
/// Bytes of one RGBA frame.
pub const FRAME_BUFFER_SIZE: usize = 92160;

pub const OAM_MODE: u8 = 2;
pub const OAM_TIME: u16 = 80;
pub const VRAM_MODE: u8 = 3;
pub const VRAM_TIME: u16 = 172;
pub const HBLANK_MODE: u8 = 0;
pub const HBLANK_TIME: u16 = 204;
pub const VBLANK_MODE: u8 = 1;
pub const SCANLINE_RENDER_TIME: u16 = 456;
pub const FRAME_SCANLINE_COUNT: u8 = 154;
pub const VBLANK_SCANLINE_COUNT: u8 = 10;

pub const STAT_INTERRUPT_LYC_CHECK_BIT: u8 = 6;
pub const OAM_MODE_STAT_SOURCE_BIT: u8 = 5;
pub const VBLANK_MODE_STAT_SOURCE_BIT: u8 = 4;
pub const HBLANK_MODE_STAT_SOURCE_BIT: u8 = 3;

/// The picture processing unit: its registers, video RAM (two banks), object attribute memory
/// and the frame being drawn. `frame_ready` is raised when a frame is complete; whoever shows
/// frames takes the frame buffer and lowers it.
pub struct Gpu {
    pub mode: u8,
    pub mode_clock: u16,
    pub lcdc: u8,
    pub scy: u8,
    pub scx: u8,
    pub wx: u8,
    pub wy: u8,
    pub wly: u8,
    pub ly: u8,
    pub lyc: u8,
    pub stat: u8,
    pub palettes: Palettes,
    pub cgb_vbk: u8,
    pub cgb_opri: u8,
    pub key0: u8,
    pub frame_buffer: Vec<u8>,
    pub video_ram: [u8; 0x4000],
    pub object_attribute_memory: [u8; 0xa0],
    pub cgb_mode: bool,
    pub cgb_double_speed: bool,
    pub stat_interrupt: bool,
    pub vblank_interrupt: bool,
    pub frame_ready: bool,
    pub oam_scan_row: u8,
}

/// What the GPU needs of the rest of the machine for one step.
pub struct GpuParams<'a> {
    pub hdma: &'a mut HDMAState,
    pub in_color_bios: bool,
}

pub fn initialize_blank_frame() -> (frame: Vec<u8>)
    ensures
        frame@.len() == FRAME_BUFFER_SIZE,
        forall|i: int| 0 <= i < FRAME_BUFFER_SIZE ==> frame@[i] == 0xFF,
{
    vec![0xFF; FRAME_BUFFER_SIZE]
}

/// The mode bits of STAT replaced by a new mode.
pub open spec fn stat_with_mode(stat: u8, mode: u8) -> u8 {
    (stat & 0b11111100) | mode
}

/// The registers after a mode switch: STAT shows the mode, and the STAT interrupt fires when
/// the mode's interrupt source is selected.
pub open spec fn after_mode_switch(g: Gpu, new_mode: u8) -> Gpu {
    let stat = stat_with_mode(g.stat, new_mode);
    let fire = (new_mode == OAM_MODE && bit_is_set(stat, OAM_MODE_STAT_SOURCE_BIT)) || (new_mode
        == VBLANK_MODE && bit_is_set(stat, VBLANK_MODE_STAT_SOURCE_BIT)) || (new_mode
        == HBLANK_MODE && bit_is_set(stat, HBLANK_MODE_STAT_SOURCE_BIT));
    Gpu { mode: new_mode, stat, stat_interrupt: g.stat_interrupt || fire, ..g }
}

/// The registers after LY is compared with LYC: the coincidence bit of STAT follows the
/// comparison, and a coincidence fires the STAT interrupt when that source is selected.
pub open spec fn after_ly_compare(g: Gpu) -> Gpu {
    if g.ly == g.lyc {
        let stat = g.stat | 0b00000100;
        Gpu { stat, stat_interrupt: g.stat_interrupt || bit_is_set(stat, STAT_INTERRUPT_LYC_CHECK_BIT), ..g }
    } else {
        Gpu { stat: g.stat & 0b11111011, ..g }
    }
}

/// STAT after a mode switch shows the new mode in bits 0-1 and keeps its other bits. The STAT
/// interrupt is raised on entering mode 2, 1 or 0 exactly when bit 5, 4 or 3 of STAT selects
/// that mode, never by entering mode 3, and one already raised stays raised.
pub proof fn law_mode_switch_interrupt(g: Gpu, new_mode: u8)
    requires
        new_mode < 4,
    ensures
        after_mode_switch(g, new_mode).mode == new_mode,
        after_mode_switch(g, new_mode).stat & 0x03 == new_mode,
        after_mode_switch(g, new_mode).stat & 0xFC == g.stat & 0xFC,
        new_mode == 2 ==> (after_mode_switch(g, new_mode).stat_interrupt <==> g.stat_interrupt || g.stat & 0x20
            != 0),
        new_mode == 1 ==> (after_mode_switch(g, new_mode).stat_interrupt <==> g.stat_interrupt || g.stat & 0x10
            != 0),
        new_mode == 0 ==> (after_mode_switch(g, new_mode).stat_interrupt <==> g.stat_interrupt || g.stat & 0x08
            != 0),
        new_mode == 3 ==> after_mode_switch(g, new_mode).stat_interrupt == g.stat_interrupt,
{
    let s: u8 = g.stat;
    let st: u8 = stat_with_mode(s, new_mode);
    assert(st & 0x03 == new_mode && st & 0xFC == s & 0xFC && ((st >> 5u8) & 1 == 1 <==> s & 0x20 != 0) && ((st
        >> 4u8) & 1 == 1 <==> s & 0x10 != 0) && ((st >> 3u8) & 1 == 1 <==> s & 0x08 != 0)) by (bit_vector)
        requires
            new_mode < 4,
            st == (s & 0b11111100) | new_mode,
    ;
}

/// After LY is compared with LYC, bit 2 of STAT is set exactly when they are equal and the
/// other bits of STAT are kept; the STAT interrupt is raised by the equality when bit 6 of STAT
/// selects it, and one already raised stays raised.
pub proof fn law_ly_compare(g: Gpu)
    ensures
        after_ly_compare(g).stat & 0x04 != 0 <==> g.ly == g.lyc,
        after_ly_compare(g).stat & 0xFB == g.stat & 0xFB,
        after_ly_compare(g).stat_interrupt <==> g.stat_interrupt || (g.ly == g.lyc && g.stat & 0x40 != 0),
{
    let s: u8 = g.stat;
    assert((s | 0b00000100) & 0x04 != 0 && (s | 0b00000100) & 0xFB == s & 0xFB && (((s | 0b00000100) >> 6u8) & 1
        == 1 <==> s & 0x40 != 0) && (s & 0b11111011) & 0x04 == 0 && (s & 0b11111011) & 0xFB == s & 0xFB)
        by (bit_vector);
}

/// Whether the window lies on the screen.
pub open spec fn window_visible(wx: u8, wy: u8) -> bool {
    (wx < 7 || wx - 7 < 160) && wy < 144
}

/// The end of an HBlank: the window line counter advances where the window was drawn, the
/// mode becomes VBlank after the last visible line (firing the VBlank interrupt and completing
/// the frame) or OAM scan otherwise, and LY advances.
pub open spec fn after_hblank(g: Gpu) -> Gpu {
    let wly = if bit_is_set(g.lcdc, 5) && window_visible(g.wx, g.wy) && g.ly >= g.wy {
        ((g.wly + 1) % 256) as u8
    } else {
        g.wly
    };
    let g1 = Gpu { wly, ..g };
    let g2 = if g.ly == 143 {
        Gpu { vblank_interrupt: true, frame_ready: true, ..after_mode_switch(g1, VBLANK_MODE) }
    } else {
        after_mode_switch(g1, OAM_MODE)
    };
    after_ly_compare(Gpu { ly: ((g.ly + 1) % 256) as u8, mode_clock: 0, ..g2 })
}

/// The end of one VBlank line: LY advances, and after the last line the frame starts over.
pub open spec fn after_vblank_line(g: Gpu) -> Gpu {
    let ly = ((g.ly + 1) % 256) as u8;
    let g1 = if ly > 153 {
        after_mode_switch(Gpu { ly: 0, wly: 0, mode_clock: 0, ..g }, OAM_MODE)
    } else {
        Gpu { ly, mode_clock: 0, ..g }
    };
    after_ly_compare(g1)
}

/// The registers after one machine cycle (the frame buffer is left as it was).
pub open spec fn stepped(g: Gpu) -> Gpu {
    if !bit_is_set(g.lcdc, 7) {
        g
    } else {
        let g1 = Gpu { mode_clock: (g.mode_clock + t_cycle_increment(g.cgb_double_speed)) as u16, ..g };
        if g.mode == OAM_MODE {
            if g1.mode_clock >= OAM_TIME { after_mode_switch(Gpu { mode_clock: 0, ..g1 }, VRAM_MODE) } else { g1 }
        } else if g.mode == VRAM_MODE {
            if g1.mode_clock >= VRAM_TIME { after_mode_switch(Gpu { mode_clock: 0, ..g1 }, HBLANK_MODE) } else { g1 }
        } else if g.mode == HBLANK_MODE {
            if g1.mode_clock >= HBLANK_TIME { after_hblank(g1) } else { g1 }
        } else if g.mode == VBLANK_MODE {
            if g1.mode_clock >= SCANLINE_RENDER_TIME { after_vblank_line(g1) } else { g1 }
        } else {
            g1
        }
    }
}

/// Whether a step ends pixel transfer, where the line is drawn.
pub open spec fn ends_pixel_transfer(g: Gpu) -> bool {
    bit_is_set(g.lcdc, 7) && g.mode == VRAM_MODE
        && g.mode_clock + t_cycle_increment(g.cgb_double_speed) >= VRAM_TIME
}

/// Every register of two GPU states agrees; the frame buffer may differ.
pub open spec fn same_registers(a: Gpu, b: Gpu) -> bool {
    &&& a.mode == b.mode
    &&& a.mode_clock == b.mode_clock
    &&& a.lcdc == b.lcdc
    &&& a.scy == b.scy
    &&& a.scx == b.scx
    &&& a.wx == b.wx
    &&& a.wy == b.wy
    &&& a.wly == b.wly
    &&& a.ly == b.ly
    &&& a.lyc == b.lyc
    &&& a.stat == b.stat
    &&& a.palettes == b.palettes
    &&& a.cgb_vbk == b.cgb_vbk
    &&& a.cgb_opri == b.cgb_opri
    &&& a.key0 == b.key0
    &&& a.video_ram == b.video_ram
    &&& a.object_attribute_memory == b.object_attribute_memory
    &&& a.cgb_mode == b.cgb_mode
    &&& a.cgb_double_speed == b.cgb_double_speed
    &&& a.stat_interrupt == b.stat_interrupt
    &&& a.vblank_interrupt == b.vblank_interrupt
    &&& a.frame_ready == b.frame_ready
    &&& a.oam_scan_row == b.oam_scan_row
}

/// Index into the two banks of video RAM: bank one when a CGB selects it with VBK.
pub open spec fn video_ram_index(cgb_mode: bool, cgb_vbk: u8, index: u16) -> int {
    if cgb_mode && cgb_vbk & 1 == 1 { index + 0x2000 } else { index as int }
}

/// What a write of LCDC does: the register takes the value; turning the LCD off (bit 7 clear)
/// resets LY, the window line, the mode clock and the mode (to HBlank) and blanks the frame.
pub open spec fn lcdc_written(a: Gpu, b: Gpu, value: u8) -> bool {
    &&& b.lcdc == value
    &&& bit_is_set(value, 7) ==> b == (Gpu { lcdc: value, ..a })
    &&& !bit_is_set(value, 7) ==> b == (Gpu {
        lcdc: value,
        ly: 0,
        wly: 0,
        mode_clock: 0,
        mode: HBLANK_MODE,
        stat: stat_with_mode(a.stat, HBLANK_MODE),
        frame_buffer: b.frame_buffer,
        ..a
    })
    &&& !bit_is_set(value, 7) ==> forall|i: int| 0 <= i < FRAME_BUFFER_SIZE ==> b.frame_buffer@[i] == 0xFF
}

impl Gpu {
    pub open spec fn wf(&self) -> bool {
        &&& self.frame_buffer@.len() == FRAME_BUFFER_SIZE
        &&& self.mode < 4
        &&& self.mode_clock <= 460
    }

    pub fn new() -> (gpu: Self)
        ensures
            gpu.wf(),
            gpu.mode == OAM_MODE,
            gpu.mode_clock == 0,
            gpu.lcdc == 0 && gpu.scy == 0 && gpu.scx == 0 && gpu.wx == 0 && gpu.wy == 0,
            gpu.wly == 0 && gpu.ly == 0 && gpu.lyc == 0 && gpu.stat == 0,
            gpu.cgb_vbk == 0 && gpu.cgb_opri == 0 && gpu.key0 == 0,
            forall|i: int| 0 <= i < 0x4000 ==> gpu.video_ram@[i] == 0,
            forall|i: int| 0 <= i < 0xa0 ==> gpu.object_attribute_memory@[i] == 0,
            forall|i: int| 0 <= i < FRAME_BUFFER_SIZE ==> gpu.frame_buffer@[i] == 0xFF,
            !gpu.cgb_mode && !gpu.cgb_double_speed,
            !gpu.stat_interrupt && !gpu.vblank_interrupt && !gpu.frame_ready,
            gpu.oam_scan_row == 0xFF,
    {
        Gpu {
            mode: 2,
            mode_clock: 0,
            lcdc: 0,
            scy: 0,
            scx: 0,
            wx: 0,
            wy: 0,
            wly: 0,
            ly: 0,
            lyc: 0,
            stat: 0,
            palettes: Palettes::new(),
            cgb_vbk: 0,
            cgb_opri: 0,
            key0: 0,
            frame_buffer: initialize_blank_frame(),
            video_ram: [0; 0x4000],
            object_attribute_memory: [0; 0xa0],
            cgb_mode: false,
            cgb_double_speed: false,
            stat_interrupt: false,
            vblank_interrupt: false,
            frame_ready: false,
            oam_scan_row: 0xFF,
        }
    }

    fn lyc_check_enabled(&self) -> (r: bool)
        ensures
            r == bit_is_set(self.stat, STAT_INTERRUPT_LYC_CHECK_BIT),
    {
        is_bit_set(self.stat, STAT_INTERRUPT_LYC_CHECK_BIT)
    }

    fn update_mode(&mut self, new_mode: u8)
        requires
            new_mode < 4,
        ensures
            *final(self) == after_mode_switch(*old(self), new_mode),
    {
        self.mode = new_mode;

        let stat = (self.stat & 0b11111100) | new_mode;
        self.stat = stat;

        let fire_interrupt_on_mode_switch = (new_mode == OAM_MODE && is_bit_set(stat, OAM_MODE_STAT_SOURCE_BIT))
            || (new_mode == VBLANK_MODE && is_bit_set(stat, VBLANK_MODE_STAT_SOURCE_BIT))
            || (new_mode == HBLANK_MODE && is_bit_set(stat, HBLANK_MODE_STAT_SOURCE_BIT));

        if fire_interrupt_on_mode_switch {
            self.stat_interrupt = true;
        }
    }

    fn compare_ly_and_lyc(&mut self)
        ensures
            *final(self) == after_ly_compare(*old(self)),
    {
        if self.ly == self.lyc {
            self.stat |= 0b00000100;

            if self.lyc_check_enabled() {
                self.stat_interrupt = true;
            }
        } else {
            self.stat &= 0b11111011;
        }
    }

    pub fn has_dmg_compatability(&self) -> (r: bool)
        ensures
            r == (self.key0 == 0x04),
    {
        self.key0 == 0x04
    }

    /// One machine cycle of the GPU. The line is drawn when pixel transfer ends, unless the CGB
    /// boot ROM runs; a line outside the screen (LY written past the last visible line) is not
    /// drawn.
    #[verifier::spinoff_prover]
    #[verifier::rlimit(40)]
    pub fn step(&mut self, params: GpuParams)
        requires
            old(self).wf(),
        ensures
            final(self).wf(),
            final(self).video_ram == old(self).video_ram,
            final(self).object_attribute_memory == old(self).object_attribute_memory,
            final(self).cgb_vbk == old(self).cgb_vbk,
            final(self).cgb_mode == old(self).cgb_mode,
            final(self).cgb_double_speed == old(self).cgb_double_speed,
            same_registers(*final(self), stepped(*old(self))),
            ends_pixel_transfer(*old(self)) ==> *final(params.hdma) == (if old(params.hdma).in_progress {
                HDMAState { hblank_started: true, ..*old(params.hdma) }
            } else {
                *old(params.hdma)
            }),
            !ends_pixel_transfer(*old(self)) ==> *final(params.hdma) == *old(params.hdma),
            !(ends_pixel_transfer(*old(self)) && !params.in_color_bios && old(self).ly < 144)
                ==> final(self).frame_buffer@ == old(self).frame_buffer@,
            ends_pixel_transfer(*old(self)) && !params.in_color_bios && old(self).ly < 144 ==> {
                &&& forall|x: int, k: int| 0 <= x < 160 && 0 <= k < 4
                    ==> final(self).frame_buffer@[#[trigger] pixel_byte_index(x, old(self).ly as int, k)]
                        == line_pixel(&stepped(*old(self)), x as u8)[k]
                &&& forall|i: int| 0 <= i < FRAME_BUFFER_SIZE && !(old(self).ly * 640 <= i < old(self).ly * 640 + 640)
                    ==> final(self).frame_buffer@[i] == old(self).frame_buffer@[i]
            },
    {
        let lcdc = self.lcdc;
        let lcd_enabled = get_lcd_enabled_mode(lcdc);

        if lcd_enabled {
            self.mode_clock = self.mode_clock + get_t_cycle_increment(self.cgb_double_speed) as u16;

            if self.mode == OAM_MODE {
                if self.mode_clock >= OAM_TIME {
                    self.mode_clock = 0;
                    self.update_mode(VRAM_MODE);
                }
            } else if self.mode == VRAM_MODE {
                if self.mode_clock >= VRAM_TIME {
                    self.end_pixel_transfer(params.hdma, params.in_color_bios);
                }
            } else if self.mode == HBLANK_MODE {
                if self.mode_clock >= HBLANK_TIME {
                    self.end_hblank();
                }
            } else if self.mode == VBLANK_MODE {
                if self.mode_clock >= SCANLINE_RENDER_TIME {
                    self.end_vblank_line();
                }
            }
        }
    }

    fn end_pixel_transfer(&mut self, hdma: &mut HDMAState, in_color_bios: bool)
        requires
            old(self).frame_buffer@.len() == FRAME_BUFFER_SIZE,
            old(self).mode < 4,
        ensures
            final(self).wf(),
            same_registers(*final(self), after_mode_switch(Gpu { mode_clock: 0, ..*old(self) }, HBLANK_MODE)),
            *final(hdma) == (if old(hdma).in_progress { HDMAState { hblank_started: true, ..*old(hdma) } } else { *old(hdma) }),
            !(!in_color_bios && old(self).ly < 144) ==> final(self).frame_buffer@ == old(self).frame_buffer@,
            !in_color_bios && old(self).ly < 144 ==> {
                &&& forall|x: int, k: int| 0 <= x < 160 && 0 <= k < 4
                    ==> final(self).frame_buffer@[#[trigger] pixel_byte_index(x, old(self).ly as int, k)]
                        == line_pixel(&after_mode_switch(Gpu { mode_clock: 0, ..*old(self) }, HBLANK_MODE), x as u8)[k]
                &&& forall|i: int| 0 <= i < FRAME_BUFFER_SIZE && !(old(self).ly * 640 <= i < old(self).ly * 640 + 640)
                    ==> final(self).frame_buffer@[i] == old(self).frame_buffer@[i]
            },
    {
        self.mode_clock = 0;
        self.update_mode(HBLANK_MODE);
        hdma.set_hblank_started(true);
        if !in_color_bios && self.ly < 144 {
            self.write_scanline();
        }
    }

    fn end_hblank(&mut self)
        requires
            old(self).frame_buffer@.len() == FRAME_BUFFER_SIZE,
            old(self).mode < 4,
        ensures
            final(self).wf(),
            *final(self) == after_hblank(*old(self)),
    {
        let lcdc = self.lcdc;
        let wx = self.wx;
        let wy = self.wy;
        let window_enabled = get_window_enabled_mode(lcdc);
        let window_visible = (wx < 7 || wx - 7 < GB_SCREEN_WIDTH as u8) && wy < GB_SCREEN_HEIGHT as u8;

        if window_enabled && window_visible && self.ly >= wy {
            self.wly = self.wly.wrapping_add(1);
        }

        if self.ly == FRAME_SCANLINE_COUNT - VBLANK_SCANLINE_COUNT - 1 {
            self.update_mode(VBLANK_MODE);
            self.frame_ready = true;
            self.vblank_interrupt = true;
        } else {
            self.update_mode(OAM_MODE);
        }

        self.ly = self.ly.wrapping_add(1);
        self.mode_clock = 0;

        self.compare_ly_and_lyc();
    }

    fn end_vblank_line(&mut self)
        requires
            old(self).frame_buffer@.len() == FRAME_BUFFER_SIZE,
            old(self).mode < 4,
        ensures
            final(self).wf(),
            *final(self) == after_vblank_line(*old(self)),
    {
        self.mode_clock = 0;
        self.ly = self.ly.wrapping_add(1);

        if self.ly > FRAME_SCANLINE_COUNT - 1 {
            self.ly = 0;
            self.wly = 0;
            self.update_mode(OAM_MODE);
        }

        self.compare_ly_and_lyc();
    }
}

impl Gpu {
    fn calculate_video_ram_index(&self, index: u16) -> (r: u16)
        requires
            index < 0x2000,
        ensures
            r == video_ram_index(self.cgb_mode, self.cgb_vbk, index),
            r < 0x4000,
    {
        if self.cgb_mode {
            let bank = self.cgb_vbk & 0b1;
            if bank == 1 { index + 0x2000 } else { index }
        } else {
            index
        }
    }

    /// A byte of the video RAM bank that VBK selects.
    pub fn get_video_ram_byte(&self, index: u16) -> (r: u8)
        requires
            index < 0x2000,
        ensures
            r == self.video_ram@[video_ram_index(self.cgb_mode, self.cgb_vbk, index)],
    {
        let calculated_index = self.calculate_video_ram_index(index);
        self.video_ram[calculated_index as usize]
    }

    pub fn set_video_ram_byte(&mut self, index: u16, value: u8)
        requires
            index < 0x2000,
        ensures
            *final(self) == (Gpu { video_ram: final(self).video_ram, ..*old(self) }),
            final(self).video_ram@ == old(self).video_ram@.update(video_ram_index(old(self).cgb_mode, old(self).cgb_vbk, index), value),
    {
        let calculated_index = self.calculate_video_ram_index(index);
        self.video_ram[calculated_index as usize] = value;
    }

    pub fn get_object_attribute_memory_byte(&self, index: u16) -> (r: u8)
        requires
            index < 0xa0,
        ensures
            r == self.object_attribute_memory@[index as int],
    {
        self.object_attribute_memory[index as usize]
    }

    pub fn set_object_attribute_memory_byte(&mut self, index: u16, value: u8)
        requires
            index < 0xa0,
        ensures
            *final(self) == (Gpu { object_attribute_memory: final(self).object_attribute_memory, ..*old(self) }),
            final(self).object_attribute_memory@ == old(self).object_attribute_memory@.update(index as int, value),
    {
        self.object_attribute_memory[index as usize] = value;
    }

    /// VBK as read: the bank bit with the other bits set, or 0xFF outside CGB mode.
    pub fn cgb_vbk(&self) -> (r: u8)
        ensures
            r == (if self.cgb_mode { self.cgb_vbk | 0b11111110 } else { 0xFF }),
    {
        if self.cgb_mode {
            self.cgb_vbk | 0b11111110
        } else {
            0xFF
        }
    }

    pub fn set_cgb_vbk(&mut self, value: u8)
        ensures
            *final(self) == (if old(self).cgb_mode { Gpu { cgb_vbk: value, ..*old(self) } } else { *old(self) }),
    {
        if self.cgb_mode {
            self.cgb_vbk = value;
        }
    }

    /// OPRI as read: its priority bit, or 0xFF outside CGB mode.
    pub fn cgb_opri(&self) -> (r: u8)
        ensures
            r == (if self.cgb_mode { self.cgb_opri & 0b1 } else { 0xFF }),
    {
        if self.cgb_mode {
            self.cgb_opri & 0b1
        } else {
            0xFF
        }
    }

    pub fn set_cgb_opri(&mut self, value: u8)
        ensures
            *final(self) == (if old(self).cgb_mode { Gpu { cgb_opri: value & 0b1, ..*old(self) } } else { *old(self) }),
    {
        if self.cgb_mode {
            self.cgb_opri = value & 0b1;
        }
    }

    /// Writes LCDC; turning the LCD off resets the line counters and the mode to HBlank and
    /// blanks the frame.
    pub fn set_lcdc(&mut self, value: u8)
        requires
            old(self).wf(),
        ensures
            final(self).wf(),
            lcdc_written(*old(self), *final(self), value),
            final(self).lcdc == value,
            bit_is_set(value, 7) ==> *final(self) == (Gpu { lcdc: value, ..*old(self) }),
            !bit_is_set(value, 7) ==> *final(self) == (Gpu {
                lcdc: value,
                ly: 0,
                wly: 0,
                mode_clock: 0,
                mode: HBLANK_MODE,
                stat: stat_with_mode(old(self).stat, HBLANK_MODE),
                frame_buffer: final(self).frame_buffer,
                ..*old(self)
            }),
            !bit_is_set(value, 7) ==> forall|i: int| 0 <= i < FRAME_BUFFER_SIZE ==> final(self).frame_buffer@[i] == 0xFF,
    {
        self.lcdc = value;
        let lcd_enabled = get_lcd_enabled_mode(value);
        if !lcd_enabled {
            self.ly = 0;
            self.wly = 0;
            self.mode_clock = 0;
            self.mode = HBLANK_MODE;
            self.stat = (self.stat & 0b11111100) | HBLANK_MODE;
            self.frame_buffer = initialize_blank_frame();
        }
    }

    pub fn set_mode(&mut self, value: u8)
        requires
            old(self).wf(),
            value < 4,
        ensures
            final(self).wf(),
            *final(self) == (Gpu { mode: value, ..*old(self) }),
    {
        self.mode = value;
    }

    pub fn lcdc(&self) -> (r: u8)
        ensures
            r == self.lcdc,
    {
        self.lcdc
    }

    pub fn stat(&self) -> (r: u8)
        ensures
            r == self.stat,
    {
        self.stat
    }

    pub fn set_stat(&mut self, value: u8)
        ensures
            *final(self) == (Gpu { stat: value, ..*old(self) }),
    {
        self.stat = value;
    }

    pub fn ly(&self) -> (r: u8)
        ensures
            r == self.ly,
    {
        self.ly
    }

    pub fn set_ly(&mut self, value: u8)
        ensures
            *final(self) == (Gpu { ly: value, ..*old(self) }),
    {
        self.ly = value;
    }

    pub fn set_lyc(&mut self, value: u8)
        ensures
            *final(self) == (Gpu { lyc: value, ..*old(self) }),
    {
        self.lyc = value;
    }

    pub fn set_scy(&mut self, value: u8)
        ensures
            *final(self) == (Gpu { scy: value, ..*old(self) }),
    {
        self.scy = value;
    }

    pub fn set_scx(&mut self, value: u8)
        ensures
            *final(self) == (Gpu { scx: value, ..*old(self) }),
    {
        self.scx = value;
    }

    pub fn set_wy(&mut self, value: u8)
        ensures
            *final(self) == (Gpu { wy: value, ..*old(self) }),
    {
        self.wy = value;
    }

    pub fn set_wx(&mut self, value: u8)
        ensures
            *final(self) == (Gpu { wx: value, ..*old(self) }),
    {
        self.wx = value;
    }

    pub fn set_key0(&mut self, value: u8)
        ensures
            *final(self) == (Gpu { key0: value, ..*old(self) }),
    {
        self.key0 = value;
    }

    pub fn stat_interrupt(&self) -> (r: bool)
        ensures
            r == self.stat_interrupt,
    {
        self.stat_interrupt
    }

    pub fn set_stat_interrupt(&mut self, value: bool)
        ensures
            *final(self) == (Gpu { stat_interrupt: value, ..*old(self) }),
    {
        self.stat_interrupt = value;
    }

    pub fn vblank_interrupt(&self) -> (r: bool)
        ensures
            r == self.vblank_interrupt,
    {
        self.vblank_interrupt
    }

    pub fn set_vblank_interrupt(&mut self, value: bool)
        ensures
            *final(self) == (Gpu { vblank_interrupt: value, ..*old(self) }),
    {
        self.vblank_interrupt = value;
    }

    pub fn set_cgb_mode(&mut self, value: bool)
        ensures
            *final(self) == (Gpu { cgb_mode: value, ..*old(self) }),
    {
        self.cgb_mode = value;
    }

    pub fn set_cgb_double_speed(&mut self, value: bool)
        ensures
            *final(self) == (Gpu { cgb_double_speed: value, ..*old(self) }),
    {
        self.cgb_double_speed = value;
    }
}

/// The GPU registers after `n` machine cycles.
pub open spec fn gpu_steps(g: Gpu, n: nat) -> Gpu
    decreases n,
{
    if n == 0 { g } else { stepped(gpu_steps(g, (n - 1) as nat)) }
}

proof fn lemma_gpu_steps_add(g: Gpu, a: nat, b: nat)
    ensures
        gpu_steps(g, a + b) == gpu_steps(gpu_steps(g, a), b),
    decreases b,
{
    if b > 0 {
        lemma_gpu_steps_add(g, a, (b - 1) as nat);
        assert(gpu_steps(g, a + b) == stepped(gpu_steps(g, (a + b - 1) as nat)));
    }
}

/// The clock cycles that a mode of a visible line lasts.
pub open spec fn mode_time(mode: u8) -> u16 {
    if mode == OAM_MODE { OAM_TIME } else if mode == VRAM_MODE { VRAM_TIME } else { HBLANK_TIME }
}

proof fn lemma_within_mode(g: Gpu, k: nat)
    requires
        bit_is_set(g.lcdc, 7),
        !g.cgb_double_speed,
        g.mode == OAM_MODE || g.mode == VRAM_MODE || g.mode == HBLANK_MODE,
        g.mode_clock == 0,
        4 * k < mode_time(g.mode),
    ensures
        gpu_steps(g, k).mode == g.mode,
        gpu_steps(g, k).mode_clock == 4 * k,
        gpu_steps(g, k).ly == g.ly,
        gpu_steps(g, k).lcdc == g.lcdc,
        gpu_steps(g, k).cgb_double_speed == g.cgb_double_speed,
    decreases k,
{
    if k > 0 {
        lemma_within_mode(g, (k - 1) as nat);
    }
}

proof fn lemma_mode_ends(g: Gpu)
    requires
        bit_is_set(g.lcdc, 7),
        !g.cgb_double_speed,
        g.mode == OAM_MODE || g.mode == VRAM_MODE || g.mode == HBLANK_MODE,
        g.mode_clock == 0,
        g.ly < 143,
    ensures
        gpu_steps(g, (mode_time(g.mode) / 4) as nat).mode == (if g.mode == OAM_MODE { VRAM_MODE } else if g.mode == VRAM_MODE { HBLANK_MODE } else { OAM_MODE }),
        gpu_steps(g, (mode_time(g.mode) / 4) as nat).mode_clock == 0,
        gpu_steps(g, (mode_time(g.mode) / 4) as nat).ly == (if g.mode == HBLANK_MODE { g.ly + 1 } else { g.ly as int }),
        gpu_steps(g, (mode_time(g.mode) / 4) as nat).lcdc == g.lcdc,
        gpu_steps(g, (mode_time(g.mode) / 4) as nat).cgb_double_speed == g.cgb_double_speed,
{
    let n = (mode_time(g.mode) / 4) as nat;
    lemma_within_mode(g, (n - 1) as nat);
    assert(gpu_steps(g, n) == stepped(gpu_steps(g, (n - 1) as nat)));
}

/// In single speed with the LCD on, a visible line takes 114 machine cycles (456 clock
/// cycles): 20 in OAM scan, 43 in pixel transfer and 51 in HBlank, after which LY has advanced
/// and the next line's OAM scan begins.
pub proof fn law_visible_line_timing(g: Gpu)
    requires
        bit_is_set(g.lcdc, 7),
        !g.cgb_double_speed,
        g.mode == OAM_MODE,
        g.mode_clock == 0,
        g.ly < 143,
    ensures
        gpu_steps(g, 20).mode == VRAM_MODE,
        gpu_steps(g, 63).mode == HBLANK_MODE,
        gpu_steps(g, 114).mode == OAM_MODE,
        gpu_steps(g, 114).mode_clock == 0,
        gpu_steps(g, 114).ly == g.ly + 1,
{
    lemma_mode_ends(g);
    let g1 = gpu_steps(g, 20);
    lemma_mode_ends(g1);
    lemma_gpu_steps_add(g, 20, 43);
    let g2 = gpu_steps(g, 63);
    lemma_mode_ends(g2);
    lemma_gpu_steps_add(g, 63, 51);
}

} // verus!

pub mod background;
pub mod colors;
pub mod line_addressing;
pub mod prioritization;
pub mod scanline;
pub mod sprites;
pub mod utils;
pub mod window;

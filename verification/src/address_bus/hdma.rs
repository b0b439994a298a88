use crate::utils::{bit_is_set, is_bit_set};
use vstd::prelude::*;

verus! {

#[derive(PartialEq, Eq, Structural, Clone, Copy, Debug)]
pub enum VRAMTransferMode {
    GeneralPurpose,
    HBlank,
}

/// The CGB VRAM DMA registers (HDMA1-HDMA5) and the progress of a running transfer.
pub struct HDMAState {
    pub hdma1: u8,
    pub hdma2: u8,
    pub hdma3: u8,
    pub hdma4: u8,
    pub offset: u16,
    pub transfer_length: u8,
    pub transfer_mode: VRAMTransferMode,
    pub in_progress: bool,
    pub completed: bool,
    pub hblank_started: bool,
    pub cgb_mode: bool,
    pub cgb_double_speed: bool,
}

pub const VRAM_TRANSFER_INDEX: u8 = 7;
pub const BLOCK_SIZE: u8 = 16;

/// The value that reading HDMA5 gives.
pub open spec fn hdma5_value(h: HDMAState) -> u8 {
    if h.cgb_mode {
        if h.in_progress {
            h.transfer_length & 0x7F
        } else if h.completed {
            0xFF
        } else {
            0x80 | (h.transfer_length & 0x7F)
        }
    } else {
        0xFF
    }
}

/// The state after a write of `value` to HDMA5.
pub open spec fn after_hdma5_write(h: HDMAState, value: u8) -> HDMAState {
    if h.cgb_mode {
        if h.in_progress && !bit_is_set(value, VRAM_TRANSFER_INDEX) {
            HDMAState { in_progress: false, offset: 0, ..h }
        } else {
            HDMAState {
                transfer_length: value & 0x7F,
                transfer_mode: if bit_is_set(value, VRAM_TRANSFER_INDEX) {
                    VRAMTransferMode::HBlank
                } else {
                    VRAMTransferMode::GeneralPurpose
                },
                in_progress: true,
                completed: false,
                ..h
            }
        }
    } else {
        h
    }
}

/// The VRAM DMA source address: HDMA1 as high byte, the upper nibble of HDMA2 as low byte.
pub open spec fn vram_dma_source(hdma1: u8, hdma2: u8) -> u16 {
    (hdma1 as u16 * 256 + (hdma2 & 0xF0) as u16) as u16
}

/// The VRAM DMA destination: 0x8000 plus bits 0-4 of HDMA3 and the upper nibble of HDMA4.
pub open spec fn vram_dma_destination(hdma3: u8, hdma4: u8) -> u16 {
    (0x8000 + (hdma3 & 0x1F) as u16 * 256 + (hdma4 & 0xF0) as u16) as u16
}

impl HDMAState {
    pub fn new() -> (h: Self)
        ensures
            h == (HDMAState {
                hdma1: 0,
                hdma2: 0,
                hdma3: 0,
                hdma4: 0,
                offset: 0,
                transfer_length: 0,
                transfer_mode: VRAMTransferMode::GeneralPurpose,
                in_progress: false,
                completed: true,
                hblank_started: false,
                cgb_mode: false,
                cgb_double_speed: false,
            }),
    {
        HDMAState {
            hdma1: 0x0,
            hdma2: 0x0,
            hdma3: 0x0,
            hdma4: 0x0,
            offset: 0x0,
            transfer_length: 0x0,
            transfer_mode: VRAMTransferMode::GeneralPurpose,
            in_progress: false,
            completed: true,
            hblank_started: false,
            cgb_mode: false,
            cgb_double_speed: false,
        }
    }

    pub fn set_hdma1(&mut self, value: u8)
        ensures
            *final(self) == (if old(self).cgb_mode { HDMAState { hdma1: value, ..*old(self) } } else { *old(self) }),
    {
        if self.cgb_mode {
            self.hdma1 = value;
        }
    }

    pub fn set_hdma2(&mut self, value: u8)
        ensures
            *final(self) == (if old(self).cgb_mode { HDMAState { hdma2: value, ..*old(self) } } else { *old(self) }),
    {
        if self.cgb_mode {
            self.hdma2 = value;
        }
    }

    pub fn set_hdma3(&mut self, value: u8)
        ensures
            *final(self) == (if old(self).cgb_mode { HDMAState { hdma3: value, ..*old(self) } } else { *old(self) }),
    {
        if self.cgb_mode {
            self.hdma3 = value;
        }
    }

    pub fn set_hdma4(&mut self, value: u8)
        ensures
            *final(self) == (if old(self).cgb_mode { HDMAState { hdma4: value, ..*old(self) } } else { *old(self) }),
    {
        if self.cgb_mode {
            self.hdma4 = value;
        }
    }

    /// A write to HDMA5 either stops a running transfer (bit 7 clear) or starts one with the
    /// given length and mode.
    pub fn set_hdma5(&mut self, value: u8)
        ensures
            *final(self) == after_hdma5_write(*old(self), value),
    {
        if self.cgb_mode {
            if self.in_progress && !is_bit_set(value, VRAM_TRANSFER_INDEX) {
                self.in_progress = false;
                self.offset = 0;
            } else {
                self.transfer_length = value & 0b01111111;

                let transfer_bit_set = is_bit_set(value, VRAM_TRANSFER_INDEX);
                let mode = if transfer_bit_set {
                    VRAMTransferMode::HBlank
                } else {
                    VRAMTransferMode::GeneralPurpose
                };
                self.transfer_mode = mode;

                self.in_progress = true;
                self.completed = false;
            }
        }
    }

    pub fn hdma5(&self) -> (r: u8)
        ensures
            r == hdma5_value(*self),
    {
        if self.cgb_mode {
            if self.in_progress {
                self.transfer_length & 0b01111111
            } else if self.completed {
                0xFF
            } else {
                0b10000000 | (self.transfer_length & 0b01111111)
            }
        } else {
            0xFF
        }
    }

    /// Records the start of an HBlank, but only while a transfer runs.
    pub fn set_hblank_started(&mut self, value: bool)
        ensures
            *final(self) == (if old(self).in_progress { HDMAState { hblank_started: value, ..*old(self) } } else { *old(self) }),
    {
        if self.in_progress {
            self.hblank_started = value;
        }
    }

    pub fn get_vram_dma_source(&self) -> (r: u16)
        ensures
            r == vram_dma_source(self.hdma1, self.hdma2),
    {
        (self.hdma1 as u16) * 256 + ((self.hdma2 & 0b11110000) as u16)
    }

    pub fn get_vram_dma_destination(&self) -> (r: u16)
        ensures
            r == vram_dma_destination(self.hdma3, self.hdma4),
    {
        proof {
            crate::utils::lemma_u8_and_bound(self.hdma3, 0x1F);
            crate::utils::lemma_u8_and_bound(self.hdma4, 0xF0);
        }
        0x8000 + ((self.hdma3 & 0b00011111) as u16) * 256 + ((self.hdma4 & 0b11110000) as u16)
    }

    pub fn hblank_started(&self) -> (r: bool)
        ensures
            r == self.hblank_started,
    {
        self.hblank_started
    }

    pub fn offset(&self) -> (r: u16)
        ensures
            r == self.offset,
    {
        self.offset
    }

    pub fn set_offset(&mut self, offset: u16)
        ensures
            *final(self) == (HDMAState { offset, ..*old(self) }),
    {
        self.offset = offset;
    }

    pub fn transfer_length(&self) -> (r: u8)
        ensures
            r == self.transfer_length,
    {
        self.transfer_length
    }

    pub fn set_transfer_length(&mut self, transfer_length: u8)
        ensures
            *final(self) == (HDMAState { transfer_length, ..*old(self) }),
    {
        self.transfer_length = transfer_length;
    }

    pub fn transfer_mode(&self) -> (r: &VRAMTransferMode)
        ensures
            *r == self.transfer_mode,
    {
        &self.transfer_mode
    }

    pub fn in_progress(&self) -> (r: bool)
        ensures
            r == self.in_progress,
    {
        self.in_progress
    }

    pub fn set_in_progress(&mut self, in_progress: bool)
        ensures
            *final(self) == (HDMAState { in_progress, ..*old(self) }),
    {
        self.in_progress = in_progress;
    }

    pub fn completed(&self) -> (r: bool)
        ensures
            r == self.completed,
    {
        self.completed
    }

    pub fn set_completed(&mut self, completed: bool)
        ensures
            *final(self) == (HDMAState { completed, ..*old(self) }),
    {
        self.completed = completed;
    }

    pub fn set_cgb_mode(&mut self, cgb_mode: bool)
        ensures
            *final(self) == (HDMAState { cgb_mode, ..*old(self) }),
    {
        self.cgb_mode = cgb_mode;
    }

    pub fn cgb_double_speed(&self) -> (r: bool)
        ensures
            r == self.cgb_double_speed,
    {
        self.cgb_double_speed
    }

    pub fn set_cgb_double_speed(&mut self, cgb_double_speed: bool)
        ensures
            *final(self) == (HDMAState { cgb_double_speed, ..*old(self) }),
    {
        self.cgb_double_speed = cgb_double_speed;
    }
}

} // verus!

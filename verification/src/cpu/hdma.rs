use crate::utils::{bit_is_set, is_bit_set};
use vstd::prelude::*;

verus! {

#[derive(PartialEq, Eq, Structural, Clone, Copy, Debug)]
pub enum VRAMTransferMode {
    GeneralPurpose,
    HBlank,
}

/// The VRAM DMA registers with the progress of a transfer; the registers only take writes
/// in CGB mode.
#[derive(PartialEq, Eq, Structural, Clone, Copy, Debug)]
pub struct HDMAState {
    pub hdma1: u8,
    pub hdma2: u8,
    pub hdma3: u8,
    pub hdma4: u8,
    pub offset: u16,
    pub transfer_length: u8,
    pub transfer_mode: VRAMTransferMode,
    pub in_progress: bool,
    pub completed: bool,
    pub hblank_started: bool,
}

pub fn initialize_hdma() -> (state: HDMAState)
    ensures
        state == (HDMAState {
            hdma1: 0,
            hdma2: 0,
            hdma3: 0,
            hdma4: 0,
            offset: 0,
            transfer_length: 0,
            transfer_mode: VRAMTransferMode::GeneralPurpose,
            in_progress: false,
            completed: true,
            hblank_started: false,
        }),
{
    HDMAState {
        hdma1: 0x0,
        hdma2: 0x0,
        hdma3: 0x0,
        hdma4: 0x0,
        offset: 0x0,
        transfer_length: 0x0,
        transfer_mode: VRAMTransferMode::GeneralPurpose,
        in_progress: false,
        completed: true,
        hblank_started: false,
    }
}

pub const VRAM_TRANSFER_INDEX: u8 = 7;

pub fn set_hdma1(hdma: &mut HDMAState, cgb_mode: bool, value: u8)
    ensures
        *final(hdma) == (if cgb_mode { HDMAState { hdma1: value, ..*old(hdma) } } else { *old(hdma) }),
{
    if cgb_mode {
        hdma.hdma1 = value;
    }
}

pub fn set_hdma2(hdma: &mut HDMAState, cgb_mode: bool, value: u8)
    ensures
        *final(hdma) == (if cgb_mode { HDMAState { hdma2: value, ..*old(hdma) } } else { *old(hdma) }),
{
    if cgb_mode {
        hdma.hdma2 = value;
    }
}

pub fn set_hdma3(hdma: &mut HDMAState, cgb_mode: bool, value: u8)
    ensures
        *final(hdma) == (if cgb_mode { HDMAState { hdma3: value, ..*old(hdma) } } else { *old(hdma) }),
{
    if cgb_mode {
        hdma.hdma3 = value;
    }
}

pub fn set_hdma4(hdma: &mut HDMAState, cgb_mode: bool, value: u8)
    ensures
        *final(hdma) == (if cgb_mode { HDMAState { hdma4: value, ..*old(hdma) } } else { *old(hdma) }),
{
    if cgb_mode {
        hdma.hdma4 = value;
    }
}

/// A write to HDMA5 in CGB mode: with bit 7 clear during an HBlank transfer it stops the
/// transfer; otherwise it starts one of the given length and mode.
pub fn set_hdma5(hdma: &mut HDMAState, cgb_mode: bool, value: u8)
    ensures
        !cgb_mode ==> *final(hdma) == *old(hdma),
        cgb_mode && old(hdma).in_progress && !bit_is_set(value, VRAM_TRANSFER_INDEX) ==> *final(hdma) == (HDMAState { in_progress: false, ..*old(hdma) }),
        cgb_mode && !(old(hdma).in_progress && !bit_is_set(value, VRAM_TRANSFER_INDEX)) ==> *final(hdma) == (HDMAState {
            transfer_length: value & 0b01111111,
            transfer_mode: if bit_is_set(value, VRAM_TRANSFER_INDEX) { VRAMTransferMode::HBlank } else { VRAMTransferMode::GeneralPurpose },
            in_progress: true,
            completed: false,
            ..*old(hdma)
        }),
{
    if cgb_mode {
        if hdma.in_progress && !is_bit_set(value, VRAM_TRANSFER_INDEX) {
            hdma.in_progress = false;
        } else {
            hdma.transfer_length = value & 0b01111111;
            let transfer_bit_set = is_bit_set(value, VRAM_TRANSFER_INDEX);
            let mode = if transfer_bit_set { VRAMTransferMode::HBlank } else { VRAMTransferMode::GeneralPurpose };
            hdma.transfer_mode = mode;
            hdma.in_progress = true;
            hdma.completed = false;
        }
    }
}

/// HDMA5 as read: the remaining length while a transfer runs, 0xFF once one completes, and
/// 0xFF outside CGB mode.
pub fn get_hdma5(hdma: &HDMAState, cgb_mode: bool) -> (r: u8)
    ensures
        r == (if cgb_mode {
            if hdma.in_progress {
                hdma.transfer_length & 0b01111111
            } else if hdma.completed {
                0xFF
            } else {
                0b10000000 | (hdma.transfer_length & 0b01111111)
            }
        } else {
            0xFF
        }),
{
    if cgb_mode {
        if hdma.in_progress {
            hdma.transfer_length & 0b01111111
        } else if hdma.completed {
            0xFF
        } else {
            0b10000000 | (hdma.transfer_length & 0b01111111)
        }
    } else {
        0xFF
    }
}

pub fn get_vram_dma_source(hdma: &HDMAState) -> (source: u16)
    ensures
        source == hdma.hdma1 as int * 256 + (hdma.hdma2 as int / 16) * 16,
{
    (hdma.hdma1 as u16) * 256 + ((hdma.hdma2 as u16) / 16) * 16
}

pub fn get_vram_dma_destination(hdma: &HDMAState) -> (destination: u16)
    ensures
        destination == 0x8000 + (hdma.hdma3 as int % 32) * 256 + (hdma.hdma4 as int / 16) * 16,
{
    let offset = ((hdma.hdma3 as u16) % 32) * 256 + ((hdma.hdma4 as u16) / 16) * 16;
    0x8000 + offset
}

pub fn set_hblank_started(hdma: &mut HDMAState, value: bool)
    ensures
        *final(hdma) == (if old(hdma).in_progress { HDMAState { hblank_started: value, ..*old(hdma) } } else { *old(hdma) }),
{
    if hdma.in_progress {
        hdma.hblank_started = value;
    }
}

} // verus!

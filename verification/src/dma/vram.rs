use crate::utils::{bit_is_set, is_bit_set};
use vstd::prelude::*;

verus! {

#[derive(PartialEq, Eq, Structural, Clone, Copy, Debug)]
pub enum VRAMTransferMode {
    GeneralPurpose,
    HBlank,
}

/// The five VRAM DMA registers, as written.
#[derive(PartialEq, Eq, Structural, Clone, Copy, Debug)]
pub struct VRAMDMAState {
    pub hdma1: u8,
    pub hdma2: u8,
    pub hdma3: u8,
    pub hdma4: u8,
    pub hdma5: u8,
}

pub fn initialize_vram_dma() -> (state: VRAMDMAState)
    ensures
        state == (VRAMDMAState { hdma1: 0, hdma2: 0, hdma3: 0, hdma4: 0, hdma5: 0 }),
{
    VRAMDMAState { hdma1: 0x0, hdma2: 0x0, hdma3: 0x0, hdma4: 0x0, hdma5: 0x0 }
}

pub fn set_hdma1(state: &mut VRAMDMAState, value: u8)
    ensures
        *final(state) == (VRAMDMAState { hdma1: value, ..*old(state) }),
{
    state.hdma1 = value;
}

pub fn set_hdma2(state: &mut VRAMDMAState, value: u8)
    ensures
        *final(state) == (VRAMDMAState { hdma2: value, ..*old(state) }),
{
    state.hdma2 = value;
}

pub fn set_hdma3(state: &mut VRAMDMAState, value: u8)
    ensures
        *final(state) == (VRAMDMAState { hdma3: value, ..*old(state) }),
{
    state.hdma3 = value;
}

pub fn set_hdma4(state: &mut VRAMDMAState, value: u8)
    ensures
        *final(state) == (VRAMDMAState { hdma4: value, ..*old(state) }),
{
    state.hdma4 = value;
}

pub fn set_hdma5(state: &mut VRAMDMAState, value: u8)
    ensures
        *final(state) == (VRAMDMAState { hdma5: value, ..*old(state) }),
{
    state.hdma5 = value;
}

/// The source: HDMA1 high, HDMA2 low, with the low four bits dropped.
pub fn get_vram_dma_source(state: &VRAMDMAState) -> (source: u16)
    ensures
        source == state.hdma1 as int * 256 + (state.hdma2 as int / 16) * 16,
{
    (state.hdma1 as u16) * 256 + ((state.hdma2 as u16) / 16) * 16
}

/// The destination in video RAM: the low 13 bits of HDMA3:HDMA4, in 16-byte steps.
pub fn get_vram_dma_destination(state: &VRAMDMAState) -> (destination: u16)
    ensures
        destination == 0x8000 + (state.hdma3 as int % 32) * 256 + (state.hdma4 as int / 16) * 16,
{
    let offset = ((state.hdma3 as u16) % 32) * 256 + ((state.hdma4 as u16) / 16) * 16;
    0x8000 + offset
}

pub const VRAM_TRANSFER_INDEX: u8 = 7;

pub fn get_vram_dma_transfer_mode(state: &VRAMDMAState) -> (mode: VRAMTransferMode)
    ensures
        mode == (if bit_is_set(state.hdma5, VRAM_TRANSFER_INDEX) { VRAMTransferMode::HBlank } else { VRAMTransferMode::GeneralPurpose }),
{
    let transfer_bit_set = is_bit_set(state.hdma5, VRAM_TRANSFER_INDEX);
    if transfer_bit_set { VRAMTransferMode::HBlank } else { VRAMTransferMode::GeneralPurpose }
}

/// Bytes to transfer: sixteen times one more than HDMA5's low seven bits.
pub fn calculate_vram_dma_transfer_length(state: &VRAMDMAState) -> (length: u16)
    ensures
        length == (state.hdma5 as int % 128 + 1) * 16,
{
    let length = (state.hdma5 % 128) as u16;
    (length + 1) * 0x10
}

} // verus!

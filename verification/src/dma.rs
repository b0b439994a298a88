use crate::address_bus::dma::DMAState as OAMDMAState;
use crate::dma::vram::{initialize_vram_dma, VRAMDMAState};
use vstd::prelude::*;

verus! {

/// Both DMA engines: OAM DMA and VRAM DMA.
pub struct DMAState {
    pub oam: OAMDMAState,
    pub vram: VRAMDMAState,
}

pub fn initialize_dma() -> (state: DMAState)
    ensures
        !state.oam.in_progress && state.oam.offset == 0 && state.oam.delay == 0 && state.oam.source == 0,
        state.vram == initialize_vram_dma_spec(),
{
    DMAState { oam: OAMDMAState::new(), vram: initialize_vram_dma() }
}

pub open spec fn initialize_vram_dma_spec() -> VRAMDMAState {
    VRAMDMAState { hdma1: 0, hdma2: 0, hdma3: 0, hdma4: 0, hdma5: 0 }
}

} // verus!

pub mod vram;

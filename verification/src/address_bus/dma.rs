use vstd::prelude::*;

verus! {

/// The OAM DMA transfer: its source address, how far it has got and its start-up delay.
pub struct DMAState {
    pub source: u16,
    pub offset: u8,
    pub delay: u8,
    pub in_progress: bool,
}

pub const DMA_TRANSFER_BYTES: u8 = 160;

/// The DMA state after a write of the DMA register: the source page is set; a transfer that is
/// not yet running starts from offset 0 after a delay of two machine cycles.
pub open spec fn dma_started(d: DMAState, source: u8) -> DMAState {
    if d.in_progress {
        DMAState { source: (source as u16 * 256) as u16, ..d }
    } else {
        DMAState { source: (source as u16 * 256) as u16, offset: 0, delay: 2, in_progress: true }
    }
}

impl DMAState {
    pub fn new() -> (dma: Self)
        ensures
            dma == (DMAState { source: 0, offset: 0, delay: 0, in_progress: false }),
    {
        DMAState { source: 0x0, offset: 0x0, delay: 0, in_progress: false }
    }

    /// A write to the DMA register sets the source page; a transfer that is not yet running
    /// starts from offset 0 after a delay of two machine cycles.
    pub fn start_dma(&mut self, source: u8)
        ensures
            *final(self) == dma_started(*old(self), source),
            final(self).source == source as u16 * 256,
            old(self).in_progress ==> final(self).offset == old(self).offset && final(self).delay
                == old(self).delay && final(self).in_progress,
            !old(self).in_progress ==> final(self).offset == 0 && final(self).delay == 2
                && final(self).in_progress,
    {
        self.source = (source as u16) * 256;

        if !self.in_progress {
            self.offset = 0x0;
            self.delay = 2;
            self.in_progress = true;
        }
    }

    /// The page written to the DMA register.
    pub fn source(&self) -> (r: u8)
        ensures
            r == self.source / 256,
    {
        (self.source / 256) as u8
    }

    pub fn offset(&self) -> (r: u8)
        ensures
            r == self.offset,
    {
        self.offset
    }

    pub fn delay(&self) -> (r: u8)
        ensures
            r == self.delay,
    {
        self.delay
    }

    pub fn set_delay(&mut self, delay: u8)
        ensures
            *final(self) == (DMAState { delay, ..*old(self) }),
    {
        self.delay = delay;
    }

    pub fn in_progress(&self) -> (r: bool)
        ensures
            r == self.in_progress,
    {
        self.in_progress
    }

    pub fn source_address(&self) -> (r: u16)
        ensures
            r == self.source,
    {
        self.source
    }

    pub fn set_in_progress(&mut self, in_progress: bool)
        ensures
            *final(self) == (DMAState { in_progress, ..*old(self) }),
    {
        self.in_progress = in_progress;
    }

    pub fn decrement_delay(&mut self)
        requires
            old(self).delay > 0,
        ensures
            *final(self) == (DMAState { delay: (old(self).delay - 1) as u8, ..*old(self) }),
    {
        self.delay -= 1;
    }

    pub fn set_source_address(&mut self, source: u16)
        ensures
            *final(self) == (DMAState { source, ..*old(self) }),
    {
        self.source = source;
    }

    pub fn set_offset(&mut self, offset: u8)
        ensures
            *final(self) == (DMAState { offset, ..*old(self) }),
    {
        self.offset = offset;
    }
}

} // verus!

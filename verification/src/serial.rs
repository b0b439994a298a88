use crate::utils::{bit_is_set, is_bit_set};
use vstd::prelude::*;

verus! {

/// Machine cycles that one bit of a transfer takes with the internal 8192 Hz clock.
pub const SERIAL_CYCLES_PER_BIT: u16 = 128;

/// The serial port (SB and SC). No partner is ever connected: a transfer on the internal
/// clock shifts in ones and completes after eight bit periods; one on the external clock never
/// completes.
pub struct Serial {
    pub data: u8,
    pub control: u8,
    pub interrupt: bool,
    pub cgb_mode: bool,
    pub cgb_double_speed: bool,
    pub clock: u16,
    pub bits_transferred: u8,
}

/// Whether a transfer on the internal clock is running.
pub open spec fn transferring(control: u8) -> bool {
    bit_is_set(control, 7) && bit_is_set(control, 0)
}

/// The serial port after one machine cycle: a running internal-clock transfer shifts in a one
/// bit each bit period, and after the eighth clears the transfer flag and raises the interrupt.
pub open spec fn serial_stepped(s: Serial) -> Serial {
    if !transferring(s.control) {
        s
    } else if s.clock + 1 < SERIAL_CYCLES_PER_BIT {
        Serial { clock: (s.clock + 1) as u16, ..s }
    } else if s.bits_transferred + 1 < 8 {
        Serial { clock: 0, bits_transferred: (s.bits_transferred + 1) as u8, data: ((s.data as int * 2) % 256 + 1) as u8, ..s }
    } else {
        Serial {
            clock: 0,
            bits_transferred: 0,
            data: ((s.data as int * 2) % 256 + 1) as u8,
            control: s.control & 0x7F,
            interrupt: true,
            ..s
        }
    }
}

impl Serial {
    pub open spec fn wf(&self) -> bool {
        &&& self.clock < SERIAL_CYCLES_PER_BIT
        &&& self.bits_transferred < 8
    }

    pub fn new() -> (s: Self)
        ensures
            s.wf(),
            s.data == 0 && s.control == 0 && !s.interrupt && !s.cgb_mode && !s.cgb_double_speed,
            s.clock == 0 && s.bits_transferred == 0,
    {
        Serial { data: 0, control: 0, interrupt: false, cgb_mode: false, cgb_double_speed: false, clock: 0, bits_transferred: 0 }
    }

    /// One machine cycle: a running internal-clock transfer shifts in a one bit each bit
    /// period, and after the eighth clears the transfer flag and raises the interrupt.
    pub fn step(&mut self)
        requires
            old(self).wf(),
        ensures
            final(self).wf(),
            *final(self) == serial_stepped(*old(self)),
            !transferring(old(self).control) ==> *final(self) == *old(self),
            transferring(old(self).control) && old(self).clock + 1 < SERIAL_CYCLES_PER_BIT
                ==> *final(self) == (Serial { clock: (old(self).clock + 1) as u16, ..*old(self) }),
            transferring(old(self).control) && old(self).clock + 1 == SERIAL_CYCLES_PER_BIT && old(self).bits_transferred + 1 < 8
                ==> *final(self) == (Serial {
                    clock: 0,
                    bits_transferred: (old(self).bits_transferred + 1) as u8,
                    data: ((old(self).data as int * 2) % 256 + 1) as u8,
                    ..*old(self)
                }),
            transferring(old(self).control) && old(self).clock + 1 == SERIAL_CYCLES_PER_BIT && old(self).bits_transferred + 1 == 8
                ==> *final(self) == (Serial {
                    clock: 0,
                    bits_transferred: 0,
                    data: ((old(self).data as int * 2) % 256 + 1) as u8,
                    control: old(self).control & 0x7F,
                    interrupt: true,
                    ..*old(self)
                }),
    {
        if is_bit_set(self.control, 7) && is_bit_set(self.control, 0) {
            if self.clock + 1 < SERIAL_CYCLES_PER_BIT {
                self.clock = self.clock + 1;
            } else {
                self.clock = 0;
                self.data = ((self.data % 128) * 2) + 1;
                if self.bits_transferred + 1 < 8 {
                    self.bits_transferred = self.bits_transferred + 1;
                } else {
                    self.bits_transferred = 0;
                    self.control = self.control & 0x7F;
                    self.interrupt = true;
                }
            }
        }
    }

    pub fn data(&self) -> (r: u8)
        ensures
            r == self.data,
    {
        self.data
    }

    pub fn set_data(&mut self, value: u8)
        ensures
            *final(self) == (Serial { data: value, ..*old(self) }),
    {
        self.data = value;
    }

    /// SC as read: the transfer and clock bits, with the unused bits set.
    pub fn control(&self) -> (r: u8)
        ensures
            r == self.control | 0x7E,
    {
        self.control | 0x7E
    }

    /// Writes SC; starting a transfer restarts the bit clock.
    pub fn set_control(&mut self, value: u8)
        requires
            old(self).wf(),
        ensures
            final(self).wf(),
            *final(self) == (Serial { control: value, clock: 0, bits_transferred: 0, ..*old(self) }),
    {
        self.control = value;
        self.clock = 0;
        self.bits_transferred = 0;
    }

    pub fn interrupt(&self) -> (r: bool)
        ensures
            r == self.interrupt,
    {
        self.interrupt
    }

    pub fn set_interrupt(&mut self, value: bool)
        ensures
            *final(self) == (Serial { interrupt: value, ..*old(self) }),
    {
        self.interrupt = value;
    }

    pub fn set_cgb_mode(&mut self, value: bool)
        ensures
            *final(self) == (Serial { cgb_mode: value, ..*old(self) }),
    {
        self.cgb_mode = value;
    }

    pub fn set_cgb_double_speed(&mut self, value: bool)
        ensures
            *final(self) == (Serial { cgb_double_speed: value, ..*old(self) }),
    {
        self.cgb_double_speed = value;
    }
}

} // verus!

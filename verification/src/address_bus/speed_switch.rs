use vstd::prelude::*;

verus! {

/// The CGB speed switch (KEY1): whether double speed is active and whether a switch is armed.
pub struct SpeedSwitch {
    pub cgb_double_speed: bool,
    pub cgb_mode: bool,
    pub armed: bool,
}

pub const SPEED_SWITCH_ARMED_INDEX: u8 = 0;

/// The value that reading KEY1 gives.
pub open spec fn key1_value(s: SpeedSwitch) -> u8 {
    if s.cgb_mode {
        (if s.cgb_double_speed { 0x80u8 } else { 0u8 }) | (if s.armed { 1u8 } else { 0u8 })
    } else {
        0xFF
    }
}

impl SpeedSwitch {
    pub fn new() -> (s: Self)
        ensures
            s == (SpeedSwitch { cgb_double_speed: false, cgb_mode: false, armed: false }),
    {
        SpeedSwitch { cgb_double_speed: false, cgb_mode: false, armed: false }
    }

    pub fn cgb_double_speed(&self) -> (r: bool)
        ensures
            r == self.cgb_double_speed,
    {
        self.cgb_double_speed
    }

    pub fn armed(&self) -> (r: bool)
        ensures
            r == self.armed,
    {
        self.armed
    }

    pub fn set_armed(&mut self, armed: bool)
        ensures
            *final(self) == (SpeedSwitch { armed, ..*old(self) }),
    {
        self.armed = armed;
    }

    pub fn key1(&self) -> (r: u8)
        ensures
            r == key1_value(*self),
    {
        if self.cgb_mode {
            let double_speed_bit: u8 = if self.cgb_double_speed { 1 } else { 0 };
            let speed_switch_armed_bit: u8 = if self.armed { 1 } else { 0 };
            let r = (double_speed_bit << 7) | speed_switch_armed_bit;
            assert(r == (if double_speed_bit == 1 { 0x80u8 } else { 0u8 }) | speed_switch_armed_bit) by (bit_vector)
                requires r == (double_speed_bit << 7) | speed_switch_armed_bit, double_speed_bit <= 1;
            r
        } else {
            0xFF
        }
    }

    /// In CGB mode bit 0 of the written value arms or disarms the speed switch.
    pub fn set_key1(&mut self, value: u8)
        ensures
            old(self).cgb_mode ==> *final(self) == (SpeedSwitch {
                armed: crate::utils::bit_is_set(value, SPEED_SWITCH_ARMED_INDEX),
                ..*old(self)
            }),
            !old(self).cgb_mode ==> *final(self) == *old(self),
    {
        if self.cgb_mode {
            self.armed = crate::utils::is_bit_set(value, SPEED_SWITCH_ARMED_INDEX);
        }
    }

    pub fn set_cgb_double_speed(&mut self, cgb_double_speed: bool)
        ensures
            *final(self) == (SpeedSwitch { cgb_double_speed, ..*old(self) }),
    {
        self.cgb_double_speed = cgb_double_speed;
    }

    pub fn set_cgb_mode(&mut self, cgb_mode: bool)
        ensures
            *final(self) == (SpeedSwitch { cgb_mode, ..*old(self) }),
    {
        self.cgb_mode = cgb_mode;
    }
}

} // verus!

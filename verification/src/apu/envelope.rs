use crate::utils::{bit_is_set, is_bit_set};
use vstd::prelude::*;

verus! {

/// The volume envelope of a channel (NRx2): its settings, current volume and sweep timer.
pub struct Envelope {
    pub initial_settings: u8,
    pub current_volume: u8,
    pub timer: u8,
}

pub const ENVELOPE_DIRECTION_INDEX: u8 = 3;

/// The envelope after one envelope clock: the timer counts down from the sweep pace, and
/// each time it runs out the volume moves one step up or down, staying within 0..=15.
pub open spec fn envelope_after_step(e: Envelope) -> Envelope {
    let pace = e.initial_settings & 0b111;
    let upwards = bit_is_set(e.initial_settings, ENVELOPE_DIRECTION_INDEX);
    if pace == 0 {
        e
    } else {
        let timer = if e.timer > 0 { (e.timer - 1) as u8 } else { 0u8 };
        if timer == 0 {
            let volume = if upwards && e.current_volume < 0xF {
                (e.current_volume + 1) as u8
            } else if !upwards && e.current_volume > 0 {
                (e.current_volume - 1) as u8
            } else {
                e.current_volume
            };
            Envelope { timer: pace, current_volume: volume, ..e }
        } else {
            Envelope { timer, ..e }
        }
    }
}

/// A pace of zero in bits 0-2 of NRx2 stops the envelope. Otherwise each clock counts the timer
/// down, and when it runs out the timer reloads with the pace and the volume takes one step,
/// up toward 15 when bit 3 is set and down toward 0 when it is clear. The volume never leaves
/// 0..=15, and the settings stay as they are.
pub proof fn law_envelope_step(e: Envelope)
    ensures
        e.initial_settings & 0x07 == 0 ==> envelope_after_step(e) == e,
        e.initial_settings & 0x07 != 0 && e.timer > 1 ==> envelope_after_step(e) == (Envelope {
            timer: (e.timer - 1) as u8,
            ..e
        }),
        e.initial_settings & 0x07 != 0 && e.timer <= 1 ==> envelope_after_step(e).timer == e.initial_settings & 0x07,
        e.initial_settings & 0x07 != 0 && e.timer <= 1 && e.initial_settings & 0x08 != 0 && e.current_volume < 15
            ==> envelope_after_step(e).current_volume == e.current_volume + 1,
        e.initial_settings & 0x07 != 0 && e.timer <= 1 && e.initial_settings & 0x08 == 0 && e.current_volume > 0
            ==> envelope_after_step(e).current_volume == e.current_volume - 1,
        e.current_volume <= 15 ==> envelope_after_step(e).current_volume <= 15,
        envelope_after_step(e).initial_settings == e.initial_settings,
{
    let settings: u8 = e.initial_settings;
    assert((settings >> 3u8) & 1 == 1 <==> settings & 0x08 != 0) by (bit_vector);
}

impl Envelope {
    pub fn new() -> (e: Self)
        ensures
            e == (Envelope { initial_settings: 0, current_volume: 0, timer: 0 }),
    {
        Envelope { initial_settings: 0, current_volume: 0, timer: 0 }
    }

    pub fn step(&mut self)
        ensures
            *final(self) == envelope_after_step(*old(self)),
    {
        let initial_timer = self.initial_settings & 0b00000111;
        let is_upwards = is_bit_set(self.initial_settings, ENVELOPE_DIRECTION_INDEX);

        if initial_timer != 0 {
            if self.timer > 0 {
                self.timer -= 1
            }
            if self.timer == 0 {
                self.timer = initial_timer;

                if (self.current_volume < 0xF && is_upwards) || (self.current_volume > 0x0
                    && !is_upwards) {
                    if is_upwards {
                        self.current_volume += 1;
                    } else {
                        self.current_volume -= 1;
                    }
                }
            }
        }
    }

    /// Loads the sweep pace into the timer and the initial volume (the upper nibble).
    pub fn reset_settings(&mut self)
        ensures
            *final(self) == (Envelope {
                timer: old(self).initial_settings & 0b111,
                current_volume: old(self).initial_settings / 16,
                ..*old(self)
            }),
    {
        let initial_timer = self.initial_settings & 0b00000111;
        let initial_volume = self.initial_settings / 16;
        self.timer = initial_timer;
        self.current_volume = initial_volume;
    }

    /// The DAC is off when the initial volume is zero and the direction is downwards.
    pub fn should_disable_dac(&self) -> (r: bool)
        ensures
            r == (self.initial_settings & 0xF8 == 0),
    {
        self.initial_settings & 0xF8 == 0
    }

    pub fn current_volume(&self) -> (r: u8)
        ensures
            r == self.current_volume,
    {
        self.current_volume
    }

    pub fn set_current_volume(&mut self, volume: u8)
        ensures
            *final(self) == (Envelope { current_volume: volume, ..*old(self) }),
    {
        self.current_volume = volume;
    }

    pub fn initial_settings(&self) -> (r: u8)
        ensures
            r == self.initial_settings,
    {
        self.initial_settings
    }

    pub fn set_initial_settings(&mut self, value: u8)
        ensures
            *final(self) == (Envelope { initial_settings: value, ..*old(self) }),
    {
        self.initial_settings = value;
    }

    pub fn timer(&self) -> (r: u8)
        ensures
            r == self.timer,
    {
        self.timer
    }

    pub fn set_timer(&mut self, timer: u8)
        ensures
            *final(self) == (Envelope { timer, ..*old(self) }),
    {
        self.timer = timer;
    }
}

} // verus!

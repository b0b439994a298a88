use vstd::prelude::*;

verus! {

/// The length timer of a channel, counting down to the moment the channel is switched off.
pub struct Length {
    pub initial_settings: u8,
    pub timer: u16,
    pub max_length: u16,
}

pub const WAVE_MAX_LENGTH: u16 = 256;
pub const DEFAULT_MAX_LENGTH: u16 = 64;

/// The initial length encoded in the settings: the whole byte for the wave channel, the low
/// six bits otherwise.
pub open spec fn initial_length(initial_settings: u8, max_length: u16) -> u16 {
    if max_length == WAVE_MAX_LENGTH {
        initial_settings as u16
    } else {
        (initial_settings & 0b111111) as u16
    }
}

impl Length {
    pub fn new(max_length: u16) -> (l: Self)
        ensures
            l == (Length { initial_settings: 0, timer: 0, max_length }),
    {
        Length { initial_settings: 0, timer: 0, max_length }
    }

    /// A copy of the timer with its settings cleared, as the APU keeps it on a DMG power-off.
    pub fn reset_initial_settings(original_length: &Length) -> (l: Length)
        ensures
            l == (Length {
                initial_settings: 0,
                timer: original_length.timer,
                max_length: original_length.max_length,
            }),
    {
        Length {
            initial_settings: 0,
            timer: original_length.timer,
            max_length: original_length.max_length,
        }
    }

    pub fn step(&mut self)
        ensures
            *final(self) == (Length {
                timer: if old(self).timer > 0 { (old(self).timer - 1) as u16 } else { 0 },
                ..*old(self)
            }),
    {
        if self.timer > 0 {
            self.timer -= 1;
        }
    }

    pub fn timer_expired(&self) -> (r: bool)
        ensures
            r == (self.timer == 0),
    {
        self.timer == 0
    }

    /// The timer starts at the maximum length minus the initial length of the settings.
    pub fn initialize_timer(&mut self)
        requires
            old(self).max_length >= initial_length(old(self).initial_settings, old(self).max_length),
        ensures
            *final(self) == (Length {
                timer: (old(self).max_length - initial_length(
                    old(self).initial_settings,
                    old(self).max_length,
                )) as u16,
                ..*old(self)
            }),
    {
        let initial_length: u16 = if self.max_length == WAVE_MAX_LENGTH {
            self.initial_settings as u16
        } else {
            (self.initial_settings & 0b00111111) as u16
        };
        self.timer = self.max_length - initial_length;
    }

    pub fn reload_timer(&mut self)
        ensures
            *final(self) == (Length {
                timer: if old(self).timer == 0 { old(self).max_length } else { old(self).timer },
                ..*old(self)
            }),
    {
        if self.timer == 0 {
            self.timer = self.max_length;
        }
    }

    pub fn at_max_length(&self) -> (r: bool)
        ensures
            r == (self.timer == self.max_length),
    {
        self.timer == self.max_length
    }

    pub fn initial_settings(&self) -> (r: u8)
        ensures
            r == self.initial_settings,
    {
        self.initial_settings
    }

    pub fn set_initial_settings(&mut self, initial_settings: u8)
        ensures
            *final(self) == (Length { initial_settings, ..*old(self) }),
    {
        self.initial_settings = initial_settings;
    }

    pub fn timer(&self) -> (r: u16)
        ensures
            r == self.timer,
    {
        self.timer
    }

    pub fn set_timer(&mut self, timer: u16)
        ensures
            *final(self) == (Length { timer, ..*old(self) }),
    {
        self.timer = timer;
    }
}

} // verus!

use crate::apu::period::{Period, period_value};
use crate::utils::{bit_is_set, is_bit_set};
use vstd::prelude::*;

verus! {

/// The frequency sweep of channel 1 (NR10).
pub struct Sweep {
    pub initial_settings: u8,
    pub enabled: bool,
    pub shadow_frequency: u16,
    pub timer: u8,
    pub frequency_calculated: bool,
    pub should_disable_channel: bool,
}

pub const SWEEP_DIRECTION_INDEX: u8 = 3;

pub open spec fn sweep_shift(settings: u8) -> u8 {
    settings & 0b111
}

pub open spec fn sweep_period(settings: u8) -> u8 {
    (settings & 0b01110000) / 16
}

/// The next frequency: the shadow frequency plus or minus itself shifted right.
pub open spec fn next_frequency(s: Sweep) -> u16 {
    let delta = s.shadow_frequency >> (sweep_shift(s.initial_settings) as u16);
    if bit_is_set(s.initial_settings, SWEEP_DIRECTION_INDEX) {
        (s.shadow_frequency - delta) as u16
    } else {
        (s.shadow_frequency + delta) as u16
    }
}

/// With bit 3 of NR10 set the sweep lowers the frequency, else it raises it, each time by the
/// shadow frequency shifted right by the shift in bits 0-2.
pub proof fn law_sweep_direction(s: Sweep)
    ensures
        s.initial_settings & 0x08 != 0 ==> next_frequency(s) <= s.shadow_frequency && s.shadow_frequency
            - next_frequency(s) == s.shadow_frequency >> ((s.initial_settings & 0x07) as u16),
        s.initial_settings & 0x08 == 0 && frequency_computable(s) ==> next_frequency(s) >= s.shadow_frequency
            && next_frequency(s) - s.shadow_frequency == s.shadow_frequency >> ((s.initial_settings & 0x07) as u16),
{
    let settings: u8 = s.initial_settings;
    let f: u16 = s.shadow_frequency;
    let shift: u16 = (settings & 0x07) as u16;
    assert(((settings >> 3u8) & 1 == 1 <==> settings & 0x08 != 0) && f >> shift <= f) by (bit_vector);
}

/// Computing the next frequency cannot overflow.
pub open spec fn frequency_computable(s: Sweep) -> bool {
    s.shadow_frequency + (s.shadow_frequency >> (sweep_shift(s.initial_settings) as u16)) <= 0xFFFF
}

/// The state after computing the next frequency: a result above 2047 marks the channel for
/// disabling, any other marks that a frequency was calculated.
pub open spec fn after_calculation(s: Sweep) -> Sweep {
    if next_frequency(s) > 2047 {
        Sweep { should_disable_channel: true, ..s }
    } else {
        Sweep { frequency_calculated: true, ..s }
    }
}

/// The timer reload value: the sweep period, or 8 for a period of zero.
pub open spec fn sweep_timer_for(period: u8) -> u8 {
    if period > 0 { period } else { 8 }
}

/// The sweep and the channel period after one sweep clock.
pub open spec fn after_sweep_step(s: Sweep, p: Period) -> (Sweep, Period) {
    let timer = if s.timer > 0 { (s.timer - 1) as u8 } else { 0u8 };
    let s1 = Sweep { timer, ..s };
    if timer == 0 {
        let sp = sweep_period(s.initial_settings);
        let s2 = Sweep { timer: sweep_timer_for(sp), ..s1 };
        if s2.enabled && sp > 0 {
            let f = next_frequency(s2);
            let s3 = after_calculation(s2);
            if f <= 2047 && sweep_shift(s2.initial_settings) > 0 {
                let s4 = Sweep { shadow_frequency: f, ..s3 };
                let p2 = Period {
                    low: (f % 256) as u8,
                    high: ((p.high & 0b11111000) | ((f / 256) as u8)) as u8,
                    ..p
                };
                (after_calculation(s4), p2)
            } else {
                (s3, p)
            }
        } else {
            (Sweep { frequency_calculated: false, ..s2 }, p)
        }
    } else {
        (s1, p)
    }
}

/// The sweep after a trigger of channel 1: the shadow frequency takes the channel's period,
/// the timer reloads, the sweep runs if its period or shift is set, and with a shift the next
/// frequency is calculated at once.
pub open spec fn sweep_triggered(s: Sweep, period: Period) -> Sweep {
    let sp = sweep_period(s.initial_settings);
    let sh = sweep_shift(s.initial_settings);
    let s1 = Sweep {
        shadow_frequency: period_value(period.low, period.high),
        timer: sweep_timer_for(sp),
        enabled: sp > 0 || sh > 0,
        should_disable_channel: false,
        ..s
    };
    if sh > 0 { after_calculation(s1) } else { Sweep { frequency_calculated: false, ..s1 } }
}

impl Sweep {
    pub open spec fn new_spec() -> Sweep {
        Sweep {
            initial_settings: 0,
            enabled: false,
            shadow_frequency: 0,
            timer: 0,
            frequency_calculated: false,
            should_disable_channel: false,
        }
    }

    pub fn new() -> (s: Self)
        ensures
            s == (Sweep {
                initial_settings: 0,
                enabled: false,
                shadow_frequency: 0,
                timer: 0,
                frequency_calculated: false,
                should_disable_channel: false,
            }),
    {
        Sweep {
            initial_settings: 0,
            enabled: false,
            shadow_frequency: 0,
            timer: 0,
            frequency_calculated: false,
            should_disable_channel: false,
        }
    }

    pub fn initial_sweep_shift(&self) -> (r: u8)
        ensures
            r == sweep_shift(self.initial_settings),
            r <= 7,
    {
        proof {
            crate::utils::lemma_u8_and_bound(self.initial_settings, 0b111);
        }
        self.initial_settings & 0b111
    }

    pub fn initial_sweep_period(&self) -> (r: u8)
        ensures
            r == sweep_period(self.initial_settings),
    {
        (self.initial_settings & 0b01110000) / 16
    }

    pub fn calculate_frequency(&mut self) -> (new_frequency: u16)
        requires
            frequency_computable(*old(self)),
        ensures
            new_frequency == next_frequency(*old(self)),
            *final(self) == after_calculation(*old(self)),
    {
        let sweep_shift = self.initial_sweep_shift();
        let delta = self.shadow_frequency >> (sweep_shift as u16);
        proof {
            crate::utils::lemma_u16_shr_bound(self.shadow_frequency, sweep_shift as u16);
        }

        let is_decrementing = is_bit_set(self.initial_settings, SWEEP_DIRECTION_INDEX);

        let new_frequency = if is_decrementing {
            self.shadow_frequency - delta
        } else {
            self.shadow_frequency + delta
        };

        if new_frequency > 2047 {
            self.should_disable_channel = true;
        } else {
            self.frequency_calculated = true;
        }

        new_frequency
    }

    pub fn load_sweep_timer(&mut self, sweep_period: u8)
        ensures
            *final(self) == (Sweep { timer: sweep_timer_for(sweep_period), ..*old(self) }),
    {
        if sweep_period > 0 {
            self.timer = sweep_period;
        } else {
            self.timer = 8;
        }
    }

    /// Leaving decrement mode after a frequency was calculated disables the channel.
    pub fn update_initial_settings(&mut self, new_initial_settings: u8)
        ensures
            ({
                let exiting = bit_is_set(old(self).initial_settings, SWEEP_DIRECTION_INDEX)
                    && !bit_is_set(new_initial_settings, SWEEP_DIRECTION_INDEX);
                *final(self) == Sweep {
                    initial_settings: new_initial_settings,
                    should_disable_channel: old(self).should_disable_channel || (exiting
                        && old(self).frequency_calculated),
                    ..*old(self)
                }
            }),
    {
        let original_sweep_settings = self.initial_settings;
        self.initial_settings = new_initial_settings;

        let original_is_decrementing = is_bit_set(original_sweep_settings, SWEEP_DIRECTION_INDEX);
        let new_is_decrementing = is_bit_set(self.initial_settings, SWEEP_DIRECTION_INDEX);
        let exiting_negate_mode = original_is_decrementing && !new_is_decrementing;

        if exiting_negate_mode && self.frequency_calculated {
            self.should_disable_channel = true;
        }
    }

    pub fn should_disable_channel(&self) -> (r: bool)
        ensures
            r == self.should_disable_channel,
    {
        self.should_disable_channel
    }

    pub fn step(&mut self, period: &mut Period)
        requires
            frequency_computable(*old(self)),
        ensures
            (*final(self), *final(period)) == after_sweep_step(*old(self), *old(period)),
    {
        if self.timer > 0 {
            self.timer -= 1;
        }

        if self.timer == 0 {
            let sweep_period = self.initial_sweep_period();
            self.load_sweep_timer(sweep_period);

            if self.enabled && sweep_period > 0 {
                let new_frequency = self.calculate_frequency();

                if new_frequency <= 2047 && self.initial_sweep_shift() > 0 {
                    self.shadow_frequency = new_frequency;

                    let low_bits = (new_frequency % 256) as u8;
                    let high_bits = (new_frequency / 256) as u8;

                    period.set_low(low_bits);

                    let current_high = period.high();
                    period.set_high((current_high & 0b11111000) | high_bits);

                    proof {
                        crate::utils::lemma_u16_shr_bound(new_frequency, sweep_shift(self.initial_settings) as u16);
                    }
                    self.calculate_frequency();
                }
            } else {
                self.frequency_calculated = false;
            }
        }
    }

    /// Triggering copies the channel's period into the shadow frequency and reloads the timer.
    pub fn trigger(&mut self, period: &Period)
        ensures
            *final(self) == sweep_triggered(*old(self), *period),
            ({
                let sp = sweep_period(old(self).initial_settings);
                let sh = sweep_shift(old(self).initial_settings);
                let s1 = Sweep {
                    shadow_frequency: period_value(period.low, period.high),
                    timer: sweep_timer_for(sp),
                    enabled: sp > 0 || sh > 0,
                    should_disable_channel: false,
                    ..*old(self)
                };
                *final(self) == if sh > 0 {
                    after_calculation(s1)
                } else {
                    Sweep { frequency_calculated: false, ..s1 }
                }
            }),
    {
        self.shadow_frequency = period.calculate_period_value();

        let sweep_period = self.initial_sweep_period();
        self.load_sweep_timer(sweep_period);

        let sweep_shift = self.initial_sweep_shift();

        self.enabled = sweep_period > 0 || sweep_shift > 0;

        self.should_disable_channel = false;

        if sweep_shift > 0 {
            proof {
                crate::utils::lemma_u16_shr_bound(self.shadow_frequency, sweep_shift as u16);
            }
            self.calculate_frequency();
        } else {
            self.frequency_calculated = false;
        }
    }

    pub fn initial_settings(&self) -> (r: u8)
        ensures
            r == self.initial_settings,
    {
        self.initial_settings
    }

    pub fn set_initial_settings(&mut self, initial_settings: u8)
        ensures
            *final(self) == (Sweep { initial_settings, ..*old(self) }),
    {
        self.initial_settings = initial_settings;
    }

    pub fn enabled(&self) -> (r: bool)
        ensures
            r == self.enabled,
    {
        self.enabled
    }

    pub fn set_enabled(&mut self, enabled: bool)
        ensures
            *final(self) == (Sweep { enabled, ..*old(self) }),
    {
        self.enabled = enabled;
    }

    pub fn timer(&self) -> (r: u8)
        ensures
            r == self.timer,
    {
        self.timer
    }

    pub fn set_timer(&mut self, timer: u8)
        ensures
            *final(self) == (Sweep { timer, ..*old(self) }),
    {
        self.timer = timer;
    }

    pub fn shadow_frequency(&self) -> (r: u16)
        ensures
            r == self.shadow_frequency,
    {
        self.shadow_frequency
    }

    pub fn set_shadow_frequency(&mut self, shadow_frequency: u16)
        ensures
            *final(self) == (Sweep { shadow_frequency, ..*old(self) }),
    {
        self.shadow_frequency = shadow_frequency;
    }
}

} // verus!

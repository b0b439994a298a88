use crate::apu::envelope::{Envelope, envelope_after_step};
use crate::apu::length::{DEFAULT_MAX_LENGTH, Length};
use crate::apu::period::{Period, divider_after_steps, period_divider};
use crate::apu::sweep::{Sweep, frequency_computable, after_sweep_step, sweep_period, sweep_shift, sweep_triggered};
use crate::apu::utils::{bounded_wrapping_add_times, bounded_next_times, length_enabled, length_is_enabled};
use crate::utils::{bit_is_set, get_bit, is_bit_set};
use vstd::prelude::*;

verus! {

/// A square wave channel (channels 1 and 2).
pub struct PulseChannel {
    pub enabled: bool,
    pub dac_enabled: bool,
    pub wave_duty_position: u8,
    pub sweep: Sweep,
    pub length: Length,
    pub envelope: Envelope,
    pub period: Period,
}

pub const MAX_WAVEFORM_STEPS: u8 = 7;
pub const PERIOD_HIGH_TRIGGER_INDEX: u8 = 7;

/// The eight-step waveform of each duty cycle.
pub open spec fn waveform(wave_duty: u8) -> u8 {
    if wave_duty == 0 {
        0b00000001
    } else if wave_duty == 1 {
        0b00000011
    } else if wave_duty == 2 {
        0b00001111
    } else {
        0b11111100
    }
}

/// The pulse channel is high for one, two, four or six of its eight duty steps (12.5%, 25%,
/// 50% and 75%, by bits 6-7 of NRx1): from step 0 on for the first three, from step 2 to the
/// end for the last. While on it outputs the envelope's volume where high and 0 elsewhere.
pub proof fn law_pulse_duty(c: PulseChannel)
    requires
        c.enabled,
        c.wave_duty_position <= MAX_WAVEFORM_STEPS,
    ensures
        c.output() == Some(0u8) || c.output() == Some(c.envelope.current_volume),
        c.envelope.current_volume != 0 && c.length.initial_settings / 64 == 0 ==> (c.output() == Some(
            c.envelope.current_volume,
        ) <==> c.wave_duty_position == 0),
        c.envelope.current_volume != 0 && c.length.initial_settings / 64 == 1 ==> (c.output() == Some(
            c.envelope.current_volume,
        ) <==> c.wave_duty_position <= 1),
        c.envelope.current_volume != 0 && c.length.initial_settings / 64 == 2 ==> (c.output() == Some(
            c.envelope.current_volume,
        ) <==> c.wave_duty_position <= 3),
        c.envelope.current_volume != 0 && c.length.initial_settings / 64 == 3 ==> (c.output() == Some(
            c.envelope.current_volume,
        ) <==> c.wave_duty_position >= 2),
{
    let d: u8 = c.length.initial_settings / 64;
    let p: u8 = c.wave_duty_position;
    let w: u8 = waveform(d);
    let bit: u8 = (w >> p) & 1;
    assert(bit <= 1 && (d == 0 ==> (bit == 1 <==> p == 0)) && (d == 1 ==> (bit == 1 <==> p <= 1)) && (d == 2 ==> (
    bit == 1 <==> p <= 3)) && (d >= 3 ==> (bit == 1 <==> p >= 2))) by (bit_vector)
        requires
            p <= 7,
            w == waveform(d),
            bit == (w >> p) & 1,
    ;
    let v: u8 = c.envelope.current_volume;
    assert(c.output() == Some((bit * v) as u8));
    if bit == 0 {
        assert(bit * v == 0) by (nonlinear_arith)
            requires
                bit == 0,
        ;
        assert(c.output() == Some(0u8));
    } else {
        assert(bit == 1);
        assert(bit * v == v) by (nonlinear_arith)
            requires
                bit == 1,
        ;
        assert(c.output() == Some(v));
    }
}

fn waveform_exec(wave_duty: u8) -> (r: u8)
    ensures
        r == waveform(wave_duty),
{
    if wave_duty == 0 {
        0b00000001
    } else if wave_duty == 1 {
        0b00000011
    } else if wave_duty == 2 {
        0b00001111
    } else {
        0b11111100
    }
}

/// A pulse channel after a trigger: on if its DAC is (or it already was), the period divider,
/// length timer (when run out) and envelope reloaded, and for channel 1 the sweep triggered,
/// which may switch the channel off at once.
pub open spec fn pulse_triggered(c: PulseChannel, with_sweep: bool) -> PulseChannel {
    let base = PulseChannel {
        enabled: c.enabled || c.dac_enabled,
        period: Period { divider: period_divider(c.period.low, c.period.high), ..c.period },
        length: Length { timer: if c.length.timer == 0 { c.length.max_length } else { c.length.timer }, ..c.length },
        envelope: Envelope { timer: c.envelope.initial_settings & 0b111, current_volume: c.envelope.initial_settings / 16, ..c.envelope },
        ..c
    };
    if with_sweep {
        let s = sweep_triggered(c.sweep, base.period);
        PulseChannel { sweep: s, enabled: base.enabled && !s.should_disable_channel, ..base }
    } else {
        base
    }
}

/// A pulse channel after a write of NRx4: the period's high bits and the length enable take
/// the value; enabling the length timer in the first half of a length period clocks it once;
/// bit 7 triggers the channel, and a trigger that finds the length timer at its maximum with
/// the length enabled in the first half clocks it once more.
pub open spec fn pulse_high_written(c: PulseChannel, value: u8, first_half: bool, with_sweep: bool) -> PulseChannel {
    let c1 = PulseChannel { period: Period { high: value, ..c.period }, ..c };
    let c2 = if !length_is_enabled(c.period.high) && length_is_enabled(value) && first_half { c1.length_stepped() } else { c1 };
    if bit_is_set(value, PERIOD_HIGH_TRIGGER_INDEX) {
        let c3 = pulse_triggered(c2, with_sweep);
        if c3.length.timer == c3.length.max_length && length_is_enabled(c3.period.high) && first_half { c3.length_stepped() } else { c3 }
    } else {
        c2
    }
}

impl PulseChannel {
    /// The channel after its length timer is clocked: with length enabled in NRx4 the timer
    /// counts down, and the channel switches off when it reaches zero.
    pub open spec fn length_stepped(self) -> PulseChannel {
        let l = self.length;
        let stepped = Length { timer: if l.timer > 0 { (l.timer - 1) as u16 } else { 0 }, ..l };
        if length_is_enabled(self.period.high) {
            PulseChannel { length: stepped, enabled: self.enabled && stepped.timer != 0, ..self }
        } else {
            self
        }
    }

    /// The channel after its envelope is clocked, which happens only while it is on.
    pub open spec fn envelope_stepped(self) -> PulseChannel {
        if self.enabled { PulseChannel { envelope: envelope_after_step(self.envelope), ..self } } else { self }
    }

    /// The channel after its frequency sweep is clocked, which happens only while it is on; an
    /// overflowing sweep switches it off.
    pub open spec fn sweep_stepped(self) -> PulseChannel {
        if self.enabled {
            let (s, p) = after_sweep_step(self.sweep, self.period);
            PulseChannel { sweep: s, period: p, enabled: !s.should_disable_channel, ..self }
        } else {
            self
        }
    }

    /// The channel after its period divider is clocked `steps` times while it is on, moving
    /// one step through the waveform per reload.
    pub open spec fn period_stepped(self, steps: nat) -> PulseChannel {
        if self.enabled {
            let reload = period_divider(self.period.low, self.period.high);
            let r = divider_after_steps(self.period.divider, reload, steps);
            PulseChannel {
                period: Period { divider: r.0, reloaded: r.1 > 0 && r.0 == reload, ..self.period },
                wave_duty_position: bounded_next_times(self.wave_duty_position, MAX_WAVEFORM_STEPS, r.1),
                ..self
            }
        } else {
            self
        }
    }

    /// The digital output: the waveform bit times the volume while the channel is on.
    pub open spec fn output(self) -> Option<u8> {
        if self.enabled {
            Some((((waveform(self.length.initial_settings / 64) >> self.wave_duty_position) & 1)
                * self.envelope.current_volume) as u8)
        } else {
            None
        }
    }
}

impl PulseChannel {
    /// The channel's counters stay within the ranges that stepping needs.
    pub open spec fn wf(&self) -> bool {
        &&& self.wave_duty_position <= MAX_WAVEFORM_STEPS
        &&& self.enabled ==> self.period.divider >= 1
        &&& self.length.max_length == DEFAULT_MAX_LENGTH
        &&& self.sweep.shadow_frequency <= 2047
    }

    pub fn new() -> (c: Self)
        ensures
            c.wf(),
            !c.enabled,
            !c.dac_enabled,
            c.wave_duty_position == 0,
            c.sweep == Sweep::new_spec(),
            c.length == (Length { initial_settings: 0, timer: 0, max_length: DEFAULT_MAX_LENGTH }),
            c.envelope == (Envelope { initial_settings: 0, current_volume: 0, timer: 0 }),
            c.period == (Period { low: 0, high: 0, divider: 0, reloaded: false }),
    {
        PulseChannel {
            enabled: false,
            dac_enabled: false,
            wave_duty_position: 0,
            sweep: Sweep::new(),
            length: Length::new(DEFAULT_MAX_LENGTH),
            envelope: Envelope::new(),
            period: Period::new(),
        }
    }

    /// A powered-off channel: fresh, except that a DMG keeps the length timer.
    pub fn reset(original_channel: &PulseChannel, cgb_mode: bool) -> (c: PulseChannel)
        ensures
            original_channel.wf() ==> c.wf(),
            !c.enabled,
            !c.dac_enabled,
            c.wave_duty_position == 0,
            c.sweep == Sweep::new_spec(),
            c.envelope == (Envelope { initial_settings: 0, current_volume: 0, timer: 0 }),
            c.period == (Period { low: 0, high: 0, divider: 0, reloaded: false }),
            cgb_mode ==> c.length == (Length { initial_settings: 0, timer: 0, max_length: DEFAULT_MAX_LENGTH }),
            !cgb_mode ==> c.length == (Length {
                initial_settings: 0,
                timer: original_channel.length.timer,
                max_length: original_channel.length.max_length,
            }),
    {
        let mut new_channel = PulseChannel::new();
        if !cgb_mode {
            new_channel.length = Length::reset_initial_settings(&original_channel.length);
        }
        new_channel
    }

    /// Advances the period divider by a quarter of the elapsed clock cycles and moves through
    /// the waveform once per divider reload.
    pub fn step(&mut self, last_instruction_clock_cycles: u8)
        requires
            old(self).wave_duty_position < 255,
            old(self).enabled ==> old(self).period.divider >= 1 || last_instruction_clock_cycles / 4 == 0,
        ensures
            !old(self).enabled ==> *final(self) == *old(self),
            old(self).enabled ==> ({
                let r = divider_after_steps(
                    old(self).period.divider,
                    period_divider(old(self).period.low, old(self).period.high),
                    (last_instruction_clock_cycles / 4) as nat,
                );
                &&& final(self).period.divider == r.0
                &&& final(self).period.reloaded == (r.1 > 0 && r.0 == period_divider(old(self).period.low, old(self).period.high))
                &&& final(self).wave_duty_position == bounded_next_times(old(self).wave_duty_position, MAX_WAVEFORM_STEPS, r.1)
                &&& *final(self) == PulseChannel {
                    period: final(self).period,
                    wave_duty_position: final(self).wave_duty_position,
                    ..*old(self)
                }
            }),
            *final(self) == old(self).period_stepped((last_instruction_clock_cycles / 4) as nat),
            old(self).wf() ==> final(self).wf(),
    {
        if self.enabled {
            let reloads = self.period.step(last_instruction_clock_cycles / 4);
            self.wave_duty_position = bounded_wrapping_add_times(self.wave_duty_position, MAX_WAVEFORM_STEPS, reloads);
        }
    }

    pub fn step_envelope(&mut self)
        ensures
            old(self).enabled ==> *final(self) == (PulseChannel { envelope: envelope_after_step(old(self).envelope), ..*old(self) }),
            !old(self).enabled ==> *final(self) == *old(self),
            *final(self) == old(self).envelope_stepped(),
    {
        if self.enabled {
            self.envelope.step();
        }
    }

    pub fn should_clock_length_on_enable(&self, original_period_high_value: u8) -> (r: bool)
        ensures
            r == (!length_is_enabled(original_period_high_value) && length_is_enabled(self.period.high)),
    {
        let new_period_high_value = self.period.high;
        !length_enabled(original_period_high_value) && length_enabled(new_period_high_value)
    }

    pub fn should_clock_length_on_trigger(&self) -> (r: bool)
        ensures
            r == (self.length.timer == self.length.max_length && length_is_enabled(self.period.high)),
    {
        let period_high = self.period.high;
        self.length.at_max_length() && length_enabled(period_high)
    }

    /// With the length timer enabled, counts it down and switches the channel off at zero.
    pub fn step_length(&mut self)
        ensures
            ({
                let l = old(self).length;
                let stepped = Length { timer: if l.timer > 0 { (l.timer - 1) as u16 } else { 0 }, ..l };
                if length_is_enabled(old(self).period.high) {
                    *final(self) == PulseChannel {
                        length: stepped,
                        enabled: old(self).enabled && stepped.timer != 0,
                        ..*old(self)
                    }
                } else {
                    *final(self) == *old(self)
                }
            }),
            *final(self) == old(self).length_stepped(),
    {
        let period_high = self.period.high;
        let length_timer_enabled = length_enabled(period_high);
        if length_timer_enabled {
            self.length.step();
            if self.length.timer_expired() {
                self.enabled = false;
            }
        }
    }

    /// The channel's digital output: the waveform bit times the volume, or `None` while the
    /// channel is off (the DAC then sits at its midpoint).
    pub fn digital_output(&self) -> (r: Option<u8>)
        requires
            self.wave_duty_position < 8,
        ensures
            !self.enabled ==> r is None,
            self.enabled ==> r == Some(
                (((waveform(self.length.initial_settings / 64) >> self.wave_duty_position) & 1)
                    * self.envelope.current_volume) as u8,
            ),
            r == self.output(),
    {
        if self.enabled {
            let length_settings = self.length.initial_settings;
            let wave_duty = length_settings / 64;
            let waveform = waveform_exec(wave_duty);
            let amplitude = get_bit(waveform, self.wave_duty_position);
            let current_volume = self.envelope.current_volume;
            assert(amplitude * current_volume <= 255) by (nonlinear_arith)
                requires amplitude <= 1, current_volume <= 255;
            Some(amplitude * current_volume)
        } else {
            None
        }
    }

    pub fn step_sweep(&mut self)
        requires
            frequency_computable(old(self).sweep),
        ensures
            old(self).enabled ==> ({
                let (s, p) = after_sweep_step(old(self).sweep, old(self).period);
                *final(self) == PulseChannel {
                    sweep: s,
                    period: p,
                    enabled: !s.should_disable_channel,
                    ..*old(self)
                }
            }),
            !old(self).enabled ==> *final(self) == *old(self),
            *final(self) == old(self).sweep_stepped(),
    {
        if self.enabled {
            self.sweep.step(&mut self.period);
            if self.sweep.should_disable_channel() {
                self.enabled = false;
            }
        }
    }

    /// Triggering enables the channel if its DAC is on, reloads the period divider, the length
    /// timer and the envelope, and, for channel 1, the sweep.
    pub fn trigger(&mut self, with_sweep: bool)
        requires
            old(self).wf(),
        ensures
            final(self).wf(),
            *final(self) == pulse_triggered(*old(self), with_sweep),
            final(self).dac_enabled == old(self).dac_enabled,
            final(self).wave_duty_position == old(self).wave_duty_position,
            final(self).period == (Period { divider: period_divider(old(self).period.low, old(self).period.high), ..old(self).period }),
            final(self).length == (Length {
                timer: if old(self).length.timer == 0 { old(self).length.max_length } else { old(self).length.timer },
                ..old(self).length
            }),
            final(self).envelope == (Envelope {
                timer: old(self).envelope.initial_settings & 0b111,
                current_volume: old(self).envelope.initial_settings / 16,
                ..old(self).envelope
            }),
            !with_sweep ==> final(self).sweep == old(self).sweep
                && final(self).enabled == (old(self).enabled || old(self).dac_enabled),
            with_sweep ==> final(self).enabled == ((old(self).enabled || old(self).dac_enabled)
                && !final(self).sweep.should_disable_channel),
    {
        if self.dac_enabled {
            self.enabled = true;
        }
        self.period.trigger();
        self.length.reload_timer();
        self.envelope.reset_settings();
        if with_sweep {
            proof {
                crate::apu::period::lemma_period_value_bound(self.period.low, self.period.high);
            }
            self.sweep.trigger(&self.period);
            if self.sweep.should_disable_channel() {
                self.enabled = false;
            }
        }
        proof {
            crate::apu::period::lemma_period_value_bound(self.period.low, self.period.high);
        }
    }

    pub fn should_trigger(&self) -> (r: bool)
        ensures
            r == bit_is_set(self.period.high, PERIOD_HIGH_TRIGGER_INDEX),
    {
        is_bit_set(self.period.high, PERIOD_HIGH_TRIGGER_INDEX)
    }

    pub fn enabled(&self) -> (r: bool)
        ensures
            r == self.enabled,
    {
        self.enabled
    }

    pub fn set_enabled(&mut self, enabled: bool)
        ensures
            *final(self) == (PulseChannel { enabled, ..*old(self) }),
    {
        self.enabled = enabled;
    }

    pub fn dac_enabled(&self) -> (r: bool)
        ensures
            r == self.dac_enabled,
    {
        self.dac_enabled
    }

    pub fn set_dac_enabled(&mut self, dac_enabled: bool)
        ensures
            *final(self) == (PulseChannel { dac_enabled, ..*old(self) }),
    {
        self.dac_enabled = dac_enabled;
    }

    pub fn wave_duty_position(&self) -> (r: u8)
        ensures
            r == self.wave_duty_position,
    {
        self.wave_duty_position
    }

    pub fn set_wave_duty_position(&mut self, wave_duty_position: u8)
        ensures
            *final(self) == (PulseChannel { wave_duty_position, ..*old(self) }),
    {
        self.wave_duty_position = wave_duty_position;
    }

    pub fn sweep(&self) -> (r: &Sweep)
        ensures
            *r == self.sweep,
    {
        &self.sweep
    }

    pub fn sweep_mut(&mut self) -> (r: &mut Sweep)
        ensures
            *r == old(self).sweep,
            *final(self) == (PulseChannel { sweep: *final(r), ..*old(self) }),
    {
        &mut self.sweep
    }

    pub fn length(&self) -> (r: &Length)
        ensures
            *r == self.length,
    {
        &self.length
    }

    pub fn length_mut(&mut self) -> (r: &mut Length)
        ensures
            *r == old(self).length,
            *final(self) == (PulseChannel { length: *final(r), ..*old(self) }),
    {
        &mut self.length
    }

    pub fn envelope(&self) -> (r: &Envelope)
        ensures
            *r == self.envelope,
    {
        &self.envelope
    }

    pub fn envelope_mut(&mut self) -> (r: &mut Envelope)
        ensures
            *r == old(self).envelope,
            *final(self) == (PulseChannel { envelope: *final(r), ..*old(self) }),
    {
        &mut self.envelope
    }

    pub fn period(&self) -> (r: &Period)
        ensures
            *r == self.period,
    {
        &self.period
    }

    pub fn period_mut(&mut self) -> (r: &mut Period)
        ensures
            *r == old(self).period,
            *final(self) == (PulseChannel { period: *final(r), ..*old(self) }),
    {
        &mut self.period
    }
}

} // verus!

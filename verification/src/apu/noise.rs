use crate::apu::envelope::{Envelope, envelope_after_step};
use crate::apu::length::{DEFAULT_MAX_LENGTH, Length};
use crate::apu::utils::{length_enabled, length_is_enabled};
use crate::utils::{bit_is_set, is_bit_set};
use vstd::prelude::*;

verus! {

/// The noise channel (channel 4), driven by a linear-feedback shift register.
pub struct NoiseChannel {
    pub enabled: bool,
    pub dac_enabled: bool,
    pub length: Length,
    pub envelope: Envelope,
    pub polynomial: u8,
    pub lfsr: u16,
    pub control: u8,
    pub period_divider: u16,
    pub instruction_cycles: u16,
}

pub const WIDTH_MODE_INDEX: u8 = 3;
pub const CONTROL_TRIGGER_INDEX: u8 = 7;

/// The largest divider the polynomial register can select.
pub const MAX_NOISE_DIVIDER: u16 = 57344;

/// The clock divider that NR43 selects: the divisor code (with 0 standing for 8) shifted left
/// by the clock shift, truncated to sixteen bits.
pub open spec fn noise_divider(polynomial: u8) -> u16 {
    let shift_amount = (polynomial & 0b11110000) >> 4u8;
    let divisor_code = polynomial & 0b111;
    let divisor: u16 = if divisor_code == 0 { 8 } else { ((divisor_code as u16) << 4u16) as u16 };
    (divisor << (shift_amount as u16)) as u16
}

/// The register after one shift: the inverted XOR of its two lowest bits enters at bit 15
/// (and bit 7 in narrow mode) before the register shifts right.
pub open spec fn next_lfsr(lfsr: u16, polynomial: u8) -> u16 {
    let xor_result = (!((lfsr & 1) ^ ((lfsr & 2) >> 1u16))) & 1;
    let wide = lfsr | (xor_result << 15u16);
    let next = if bit_is_set(polynomial, WIDTH_MODE_INDEX) { wide | (xor_result << 7u16) } else { wide };
    next >> 1u16
}

/// Each shift moves the register right by one and sets bit 14 when its two lowest bits were
/// equal (bit 14 is otherwise the old bit 15); bit 15 ends clear. In the short mode (bit 3 of
/// NR43 set) that one is also set into bit 6; the other bits are those of the register
/// shifted right.
pub proof fn law_lfsr_shift(lfsr: u16, polynomial: u8)
    ensures
        (next_lfsr(lfsr, polynomial) >> 14u16) & 1 == 1 <==> (lfsr & 1 == (lfsr >> 1u16) & 1 || lfsr >> 15u16 == 1),
        next_lfsr(lfsr, polynomial) >> 15u16 == 0,
        polynomial & 0x08 == 0 ==> next_lfsr(lfsr, polynomial) & 0x3FFF == (lfsr >> 1u16) & 0x3FFF,
        polynomial & 0x08 != 0 ==> next_lfsr(lfsr, polynomial) & 0x3FBF == (lfsr >> 1u16) & 0x3FBF,
        polynomial & 0x08 != 0 ==> ((next_lfsr(lfsr, polynomial) >> 6u16) & 1 == 1 <==> (lfsr & 1 == (lfsr
            >> 1u16) & 1 || (lfsr >> 7u16) & 1 == 1)),
{
    let x: u16 = (!((lfsr & 1) ^ ((lfsr & 2) >> 1u16))) & 1;
    let wide: u16 = lfsr | (x << 15u16);
    let narrow: u16 = wide | (x << 7u16);
    assert((polynomial >> 3u8) & 1 == 1 <==> polynomial & 0x08 != 0) by (bit_vector);
    assert((x == 1 <==> lfsr & 1 == (lfsr >> 1u16) & 1) && (wide >> 1u16) >> 15u16 == 0 && (narrow >> 1u16) >> 15u16
        == 0 && (wide >> 1u16) & 0x3FFF == (lfsr >> 1u16) & 0x3FFF && (narrow >> 1u16) & 0x3FBF == (lfsr >> 1u16)
        & 0x3FBF && (((wide >> 1u16) >> 14u16) & 1 == 1 <==> (x == 1 || lfsr >> 15u16 == 1)) && (((narrow >> 1u16) >> 14u16)
        & 1 == 1 <==> (x == 1 || lfsr >> 15u16 == 1)) && (((narrow
        >> 1u16) >> 6u16) & 1 == 1 <==> (x == 1 || (lfsr >> 7u16) & 1 == 1))) by (bit_vector)
        requires
            x == (!((lfsr & 1) ^ ((lfsr & 2) >> 1u16))) & 1,
            wide == lfsr | (x << 15u16),
            narrow == wide | (x << 7u16),
    ;
}

proof fn lemma_noise_divider_bound(polynomial: u8)
    ensures
        noise_divider(polynomial) <= MAX_NOISE_DIVIDER,
{
    assert(({
        let shift_amount = (polynomial & 0b11110000) >> 4u8;
        let divisor_code = polynomial & 0b111;
        let divisor: u16 = if divisor_code == 0 { 8 } else { ((divisor_code as u16) << 4u16) as u16 };
        (divisor << (shift_amount as u16)) as u16
    }) <= 57344u16) by (bit_vector);
}

/// The noise channel after a trigger: on if its DAC is (or it already was), the period
/// divider reloaded from NR43, the LFSR cleared, the length timer (when run out) and the
/// envelope reloaded.
pub open spec fn noise_triggered(c: NoiseChannel) -> NoiseChannel {
    NoiseChannel {
        enabled: c.enabled || c.dac_enabled,
        period_divider: noise_divider(c.polynomial),
        lfsr: 0,
        length: Length { timer: if c.length.timer == 0 { c.length.max_length } else { c.length.timer }, ..c.length },
        envelope: Envelope { timer: c.envelope.initial_settings & 0b111, current_volume: c.envelope.initial_settings / 16, ..c.envelope },
        ..c
    }
}

/// The noise channel after a write of NR44, as for the pulse channels.
pub open spec fn noise_control_written(c: NoiseChannel, value: u8, first_half: bool) -> NoiseChannel {
    let c1 = NoiseChannel { control: value, ..c };
    let c2 = if !length_is_enabled(c.control) && length_is_enabled(value) && first_half { c1.length_stepped() } else { c1 };
    if bit_is_set(value, CONTROL_TRIGGER_INDEX) {
        let c3 = noise_triggered(c2);
        if c3.length.timer == c3.length.max_length && length_is_enabled(c3.control) && first_half { c3.length_stepped() } else { c3 }
    } else {
        c2
    }
}

impl NoiseChannel {
    /// The channel after its length timer is clocked.
    pub open spec fn length_stepped(self) -> NoiseChannel {
        let l = self.length;
        let stepped = Length { timer: if l.timer > 0 { (l.timer - 1) as u16 } else { 0 }, ..l };
        if length_is_enabled(self.control) {
            NoiseChannel { length: stepped, enabled: self.enabled && stepped.timer != 0, ..self }
        } else {
            self
        }
    }

    /// The channel after its envelope is clocked, which happens only while it is on.
    pub open spec fn envelope_stepped(self) -> NoiseChannel {
        if self.enabled { NoiseChannel { envelope: envelope_after_step(self.envelope), ..self } } else { self }
    }

    /// The channel after `cycles` clock cycles: once the divider is reached the register
    /// shifts and the divider reloads.
    pub open spec fn cycles_stepped(self, cycles: u8) -> NoiseChannel {
        let total = (self.instruction_cycles + cycles) as u16;
        if total >= self.period_divider {
            NoiseChannel {
                instruction_cycles: 0,
                period_divider: noise_divider(self.polynomial),
                lfsr: next_lfsr(self.lfsr, self.polynomial),
                ..self
            }
        } else {
            NoiseChannel { instruction_cycles: total, ..self }
        }
    }

    /// The digital output: bit 0 of the register times the volume while the channel is on.
    pub open spec fn output(self) -> Option<u8> {
        if self.enabled { Some(((self.lfsr & 1) as u8 * self.envelope.current_volume) as u8) } else { None }
    }
}

impl NoiseChannel {
    pub open spec fn wf(&self) -> bool {
        &&& self.instruction_cycles <= MAX_NOISE_DIVIDER
        &&& self.period_divider <= MAX_NOISE_DIVIDER
        &&& self.length.max_length == DEFAULT_MAX_LENGTH
    }

    pub fn new() -> (c: Self)
        ensures
            c.wf(),
            c == (NoiseChannel {
                enabled: false,
                dac_enabled: false,
                length: Length { initial_settings: 0, timer: 0, max_length: DEFAULT_MAX_LENGTH },
                envelope: Envelope { initial_settings: 0, current_volume: 0, timer: 0 },
                polynomial: 0,
                lfsr: 0,
                control: 0,
                period_divider: 0,
                instruction_cycles: 0,
            }),
    {
        NoiseChannel {
            enabled: false,
            dac_enabled: false,
            length: Length::new(DEFAULT_MAX_LENGTH),
            envelope: Envelope::new(),
            polynomial: 0,
            lfsr: 0,
            control: 0,
            period_divider: 0,
            instruction_cycles: 0,
        }
    }

    /// A powered-off channel: fresh, except that a DMG keeps the length timer.
    pub fn reset(original_channel: &NoiseChannel, cgb_mode: bool) -> (c: NoiseChannel)
        ensures
            original_channel.wf() ==> c.wf(),
            c == (NoiseChannel {
                length: if cgb_mode {
                    Length { initial_settings: 0, timer: 0, max_length: DEFAULT_MAX_LENGTH }
                } else {
                    Length {
                        initial_settings: 0,
                        timer: original_channel.length.timer,
                        max_length: original_channel.length.max_length,
                    }
                },
                ..NoiseChannel::new_spec()
            }),
    {
        let mut new_channel = NoiseChannel::new();
        if !cgb_mode {
            new_channel.length = Length::reset_initial_settings(&original_channel.length);
        }
        new_channel
    }

    pub open spec fn new_spec() -> NoiseChannel {
        NoiseChannel {
            enabled: false,
            dac_enabled: false,
            length: Length { initial_settings: 0, timer: 0, max_length: DEFAULT_MAX_LENGTH },
            envelope: Envelope { initial_settings: 0, current_volume: 0, timer: 0 },
            polynomial: 0,
            lfsr: 0,
            control: 0,
            period_divider: 0,
            instruction_cycles: 0,
        }
    }

    fn calculate_period_divider(&self) -> (d: u16)
        ensures
            d == noise_divider(self.polynomial),
            d <= MAX_NOISE_DIVIDER,
    {
        proof {
            lemma_noise_divider_bound(self.polynomial);
        }
        let polynomial = self.polynomial;
        let shift_amount = (polynomial & 0b11110000) >> 4u8;
        let divisor_code = polynomial & 0b111;
        assert(shift_amount < 16) by (bit_vector)
            requires shift_amount == (polynomial & 0b11110000) >> 4u8;
        let divisor: u16 = if divisor_code == 0 { 8 } else { (divisor_code as u16) << 4u16 };
        divisor << (shift_amount as u16)
    }

    fn calculate_next_lfsr(&self) -> (r: u16)
        ensures
            r == next_lfsr(self.lfsr, self.polynomial),
    {
        let narrow_width = is_bit_set(self.polynomial, WIDTH_MODE_INDEX);

        let first_lfsr_bit = self.lfsr & 0b1;
        let second_lfsr_bit = (self.lfsr & 0b10) >> 1u16;
        let xor_result = (!(first_lfsr_bit ^ second_lfsr_bit)) & 0b1;

        let mut next_lfsr = self.lfsr | (xor_result << 15u16);

        if narrow_width {
            next_lfsr = next_lfsr | (xor_result << 7u16);
        }

        next_lfsr >> 1u16
    }

    /// Counts the elapsed clock cycles and shifts the register once the divider is reached.
    pub fn step(&mut self, last_instruction_clock_cycles: u8)
        requires
            old(self).instruction_cycles + last_instruction_clock_cycles <= 0xFFFF,
        ensures
            ({
                let cycles = (old(self).instruction_cycles + last_instruction_clock_cycles) as u16;
                if cycles >= old(self).period_divider {
                    *final(self) == NoiseChannel {
                        instruction_cycles: 0,
                        period_divider: noise_divider(old(self).polynomial),
                        lfsr: next_lfsr(old(self).lfsr, old(self).polynomial),
                        ..*old(self)
                    }
                } else {
                    *final(self) == NoiseChannel { instruction_cycles: cycles, ..*old(self) }
                }
            }),
            *final(self) == old(self).cycles_stepped(last_instruction_clock_cycles),
            old(self).wf() ==> final(self).wf(),
    {
        self.instruction_cycles += last_instruction_clock_cycles as u16;
        if self.instruction_cycles >= self.period_divider {
            self.instruction_cycles = 0;
            self.period_divider = self.calculate_period_divider();
            self.lfsr = self.calculate_next_lfsr();
        }
    }

    pub fn step_envelope(&mut self)
        ensures
            old(self).enabled ==> *final(self) == (NoiseChannel { envelope: envelope_after_step(old(self).envelope), ..*old(self) }),
            !old(self).enabled ==> *final(self) == *old(self),
            *final(self) == old(self).envelope_stepped(),
    {
        if self.enabled {
            self.envelope.step();
        }
    }

    pub fn should_clock_length_on_enable(&self, original_control_value: u8) -> (r: bool)
        ensures
            r == (!length_is_enabled(original_control_value) && length_is_enabled(self.control)),
    {
        let new_control_value = self.control;
        !length_enabled(original_control_value) && length_enabled(new_control_value)
    }

    pub fn should_clock_length_on_trigger(&self) -> (r: bool)
        ensures
            r == (self.length.timer == self.length.max_length && length_is_enabled(self.control)),
    {
        self.length.at_max_length() && length_enabled(self.control)
    }

    pub fn step_length(&mut self)
        ensures
            ({
                let l = old(self).length;
                let stepped = Length { timer: if l.timer > 0 { (l.timer - 1) as u16 } else { 0 }, ..l };
                if length_is_enabled(old(self).control) {
                    *final(self) == NoiseChannel {
                        length: stepped,
                        enabled: old(self).enabled && stepped.timer != 0,
                        ..*old(self)
                    }
                } else {
                    *final(self) == *old(self)
                }
            }),
            *final(self) == old(self).length_stepped(),
    {
        if length_enabled(self.control) {
            self.length.step();
            if self.length.timer_expired() {
                self.enabled = false;
            }
        }
    }

    /// The channel's digital output: bit 0 of the register times the volume, or `None` while
    /// the channel is off.
    pub fn digital_output(&self) -> (r: Option<u8>)
        ensures
            !self.enabled ==> r is None,
            self.enabled ==> r == Some(((self.lfsr & 1) as u8 * self.envelope.current_volume) as u8),
            r == self.output(),
    {
        if self.enabled {
            let amplitude = (self.lfsr & 0x01) as u8;
            let current_volume = self.envelope.current_volume;
            proof {
                crate::utils::lemma_u16_and_bound(self.lfsr, 1);
            }
            assert(amplitude * current_volume <= 255) by (nonlinear_arith)
                requires amplitude <= 1, current_volume <= 255;
            Some(amplitude * current_volume)
        } else {
            None
        }
    }

    /// Triggering enables the channel if its DAC is on, reloads the divider, clears the
    /// register and reloads the length timer and the envelope.
    pub fn trigger(&mut self)
        ensures
            *final(self) == noise_triggered(*old(self)),
            old(self).wf() ==> final(self).wf(),
    {
        if self.dac_enabled {
            self.enabled = true;
        }
        self.period_divider = self.calculate_period_divider();
        self.lfsr = 0;
        self.length.reload_timer();
        self.envelope.reset_settings();
    }

    pub fn should_trigger(&self) -> (r: bool)
        ensures
            r == bit_is_set(self.control, CONTROL_TRIGGER_INDEX),
    {
        is_bit_set(self.control, CONTROL_TRIGGER_INDEX)
    }

    pub fn enabled(&self) -> (r: bool)
        ensures
            r == self.enabled,
    {
        self.enabled
    }

    pub fn set_enabled(&mut self, enabled: bool)
        ensures
            *final(self) == (NoiseChannel { enabled, ..*old(self) }),
    {
        self.enabled = enabled;
    }

    pub fn dac_enabled(&self) -> (r: bool)
        ensures
            r == self.dac_enabled,
    {
        self.dac_enabled
    }

    pub fn set_dac_enabled(&mut self, dac_enabled: bool)
        ensures
            *final(self) == (NoiseChannel { dac_enabled, ..*old(self) }),
    {
        self.dac_enabled = dac_enabled;
    }

    pub fn polynomial(&self) -> (r: u8)
        ensures
            r == self.polynomial,
    {
        self.polynomial
    }

    pub fn set_polynomial(&mut self, polynomial: u8)
        ensures
            *final(self) == (NoiseChannel { polynomial, ..*old(self) }),
    {
        self.polynomial = polynomial;
    }

    pub fn lfsr(&self) -> (r: u16)
        ensures
            r == self.lfsr,
    {
        self.lfsr
    }

    pub fn set_lfsr(&mut self, lfsr: u16)
        ensures
            *final(self) == (NoiseChannel { lfsr, ..*old(self) }),
    {
        self.lfsr = lfsr;
    }

    pub fn control(&self) -> (r: u8)
        ensures
            r == self.control,
    {
        self.control
    }

    pub fn set_control(&mut self, control: u8)
        ensures
            *final(self) == (NoiseChannel { control, ..*old(self) }),
    {
        self.control = control;
    }

    pub fn period_divider(&self) -> (r: u16)
        ensures
            r == self.period_divider,
    {
        self.period_divider
    }

    pub fn set_period_divider(&mut self, period_divider: u16)
        ensures
            *final(self) == (NoiseChannel { period_divider, ..*old(self) }),
    {
        self.period_divider = period_divider;
    }

    pub fn length(&self) -> (r: &Length)
        ensures
            *r == self.length,
    {
        &self.length
    }

    pub fn length_mut(&mut self) -> (r: &mut Length)
        ensures
            *r == old(self).length,
            *final(self) == (NoiseChannel { length: *final(r), ..*old(self) }),
    {
        &mut self.length
    }

    pub fn envelope(&self) -> (r: &Envelope)
        ensures
            *r == self.envelope,
    {
        &self.envelope
    }

    pub fn envelope_mut(&mut self) -> (r: &mut Envelope)
        ensures
            *r == old(self).envelope,
            *final(self) == (NoiseChannel { envelope: *final(r), ..*old(self) }),
    {
        &mut self.envelope
    }
}

} // verus!

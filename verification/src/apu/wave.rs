use crate::apu::length::{WAVE_MAX_LENGTH, Length};
use crate::apu::period::{Period, divider_after_steps, period_divider, WAVE_CHANNEL_PERIOD_DELAY};
use crate::apu::utils::{bounded_wrapping_add_times, bounded_next_times, length_enabled, length_is_enabled};
use crate::utils::{bit_is_set, is_bit_set};
use vstd::prelude::*;

verus! {

/// The wave channel (channel 3), which plays the 32 four-bit samples of wave RAM.
pub struct WaveChannel {
    pub enabled: bool,
    pub dac_enabled: bool,
    pub length: Length,
    pub volume: u8,
    pub period: Period,
    pub wave_position: u8,
    pub wave_pattern_ram: [u8; 16],
}

pub const MAX_WAVE_SAMPLE_STEPS: u8 = 31;
pub const PERIOD_HIGH_TRIGGER_INDEX: u8 = 7;

/// The four-bit sample at a position of wave RAM: the high nibble comes first.
pub open spec fn wave_sample(ram: Seq<u8>, position: u8) -> u8 {
    let byte = ram[(position / 2) as int];
    if position % 2 == 0 { byte / 16 } else { byte % 16 }
}

/// The sample scaled by the output level in bits 5-6 of NR32; `None` while muted.
pub open spec fn scaled_sample(sample: u8, volume: u8) -> Option<u8> {
    let level = (volume & 0b01100000) / 32;
    if level == 1 {
        Some(sample)
    } else if level == 2 {
        Some(sample / 2)
    } else if level == 3 {
        Some(sample / 4)
    } else {
        None
    }
}

/// The output level in bits 5-6 of NR32: 0 mutes the channel, 1 gives the sample as it is,
/// 2 and 3 give it shifted right by one and by two bits (50% and 25%). The other bits of NR32
/// play no part.
pub proof fn law_wave_output_level(sample: u8, volume: u8)
    ensures
        volume & 0x60 == 0 ==> scaled_sample(sample, volume) is None,
        volume & 0x60 == 0x20 ==> scaled_sample(sample, volume) == Some(sample),
        volume & 0x60 == 0x40 ==> scaled_sample(sample, volume) == Some(sample >> 1u8),
        volume & 0x60 == 0x60 ==> scaled_sample(sample, volume) == Some(sample >> 2u8),
        scaled_sample(sample, volume) == scaled_sample(sample, volume & 0x60),
{
    let m: u8 = volume & 0x60;
    assert((volume & 0x60 == 0 || volume & 0x60 == 0x20 || volume & 0x60 == 0x40 || volume & 0x60 == 0x60)
        && (m == volume & 0x60 ==> m & 0x60 == m)
        && sample >> 1u8 == sample / 2 && sample >> 2u8 == sample / 4) by (bit_vector);
}

/// Wave RAM holds two samples a byte, the high nibble first: sample `2k` is the upper four
/// bits of byte `k` and sample `2k + 1` the lower four.
pub proof fn law_wave_sample_nibbles(ram: Seq<u8>, k: u8)
    requires
        k < 16,
        ram.len() == 16,
    ensures
        wave_sample(ram, (2 * k) as u8) == ram[k as int] >> 4u8,
        wave_sample(ram, (2 * k + 1) as u8) == ram[k as int] & 0x0F,
{
    let byte: u8 = ram[k as int];
    assert(byte / 16 == byte >> 4u8 && byte % 16 == byte & 0x0F) by (bit_vector);
}

/// Wave RAM after the DMG bug that corrupts it when the channel is re-triggered just as it
/// reads a sample.
pub open spec fn corrupted_wave_ram(ram: Seq<u8>, position: u8) -> Seq<u8> {
    let offset = (((position + 1) / 2) % 16) as int;
    if offset < 4 {
        ram.update(0, ram[offset])
    } else {
        let base = offset - offset % 4;
        Seq::new(16, |i: int| if i < 4 { ram[base + i] } else { ram[i] })
    }
}

/// A wave channel after a trigger, but for its wave RAM: the position back to the start, on
/// if its DAC is (or it already was), the period divider reloaded with the trigger delay, and
/// the length timer reloaded when run out.
pub open spec fn wave_triggered(c: WaveChannel) -> WaveChannel {
    WaveChannel {
        wave_position: 0,
        enabled: c.enabled || c.dac_enabled,
        period: Period { divider: (period_divider(c.period.low, c.period.high) + WAVE_CHANNEL_PERIOD_DELAY) as u16, ..c.period },
        length: Length { timer: if c.length.timer == 0 { c.length.max_length } else { c.length.timer }, ..c.length },
        ..c
    }
}

/// The wave RAM after a trigger: on DMG, triggering while the channel is about to read a
/// sample corrupts its first bytes; otherwise it stays.
pub open spec fn wave_trigger_ram(c: WaveChannel, ram: Seq<u8>, cgb_mode: bool) -> bool {
    if c.enabled && c.period.divider == 1 && !cgb_mode {
        ram == corrupted_wave_ram(c.wave_pattern_ram@, c.wave_position)
    } else {
        ram == c.wave_pattern_ram@
    }
}

/// The wave channel after a write of NR34, as for the pulse channels (the wave RAM as
/// `wave_trigger_ram` says).
pub open spec fn wave_high_written(c: WaveChannel, b: WaveChannel, value: u8, first_half: bool, cgb_mode: bool) -> bool {
    let c1 = WaveChannel { period: Period { high: value, ..c.period }, ..c };
    let c2 = if !length_is_enabled(c.period.high) && length_is_enabled(value) && first_half { c1.length_stepped() } else { c1 };
    if bit_is_set(value, PERIOD_HIGH_TRIGGER_INDEX) {
        let c3 = wave_triggered(c2);
        let c4 = if c3.length.timer == c3.length.max_length && length_is_enabled(c3.period.high) && first_half { c3.length_stepped() } else { c3 };
        &&& b == (WaveChannel { wave_pattern_ram: b.wave_pattern_ram, ..c4 })
        &&& wave_trigger_ram(c2, b.wave_pattern_ram@, cgb_mode)
    } else {
        b == c2
    }
}

impl WaveChannel {
    /// The channel after its length timer is clocked.
    pub open spec fn length_stepped(self) -> WaveChannel {
        let l = self.length;
        let stepped = Length { timer: if l.timer > 0 { (l.timer - 1) as u16 } else { 0 }, ..l };
        if length_is_enabled(self.period.high) {
            WaveChannel { length: stepped, enabled: self.enabled && stepped.timer != 0, ..self }
        } else {
            self
        }
    }

    /// The channel after its period divider is clocked `steps` times while it is on, moving to
    /// the next sample per reload.
    pub open spec fn period_stepped(self, steps: nat) -> WaveChannel {
        if self.enabled {
            let reload = period_divider(self.period.low, self.period.high);
            let r = divider_after_steps(self.period.divider, reload, steps);
            WaveChannel {
                period: Period { divider: r.0, reloaded: r.1 > 0 && r.0 == reload, ..self.period },
                wave_position: bounded_next_times(self.wave_position, MAX_WAVE_SAMPLE_STEPS, r.1),
                ..self
            }
        } else {
            self
        }
    }

    /// The digital output: the current sample scaled by the output level while the channel
    /// is on and not muted.
    pub open spec fn output(self) -> Option<u8> {
        if self.enabled { scaled_sample(wave_sample(self.wave_pattern_ram@, self.wave_position), self.volume) } else { None }
    }
}

impl WaveChannel {
    pub open spec fn wf(&self) -> bool {
        &&& self.wave_position <= MAX_WAVE_SAMPLE_STEPS
        &&& self.enabled ==> self.period.divider >= 1
        &&& self.period.divider <= 2048 + WAVE_CHANNEL_PERIOD_DELAY
        &&& self.length.max_length == WAVE_MAX_LENGTH
    }

    pub fn new() -> (c: Self)
        ensures
            c.wf(),
            !c.enabled,
            !c.dac_enabled,
            c.length == (Length { initial_settings: 0, timer: 0, max_length: WAVE_MAX_LENGTH }),
            c.volume == 0,
            c.period == (Period { low: 0, high: 0, divider: 0, reloaded: false }),
            c.wave_position == 1,
            c.wave_pattern_ram@ == Seq::new(16, |i: int| 0u8),
    {
        let c = WaveChannel {
            enabled: false,
            dac_enabled: false,
            length: Length::new(WAVE_MAX_LENGTH),
            volume: 0,
            period: Period::new(),
            wave_position: 1,
            wave_pattern_ram: [0; 16],
        };
        assert(c.wave_pattern_ram@ =~= Seq::new(16, |i: int| 0u8));
        c
    }

    /// A powered-off channel that keeps wave RAM and the wave position, and on a DMG the
    /// length timer too.
    pub fn reset(original_channel: &WaveChannel, cgb_mode: bool) -> (c: WaveChannel)
        ensures
            original_channel.wf() ==> c.wf(),
            !c.enabled,
            !c.dac_enabled,
            c.volume == 0,
            c.period == (Period { low: 0, high: 0, divider: 0, reloaded: false }),
            c.wave_position == original_channel.wave_position,
            c.wave_pattern_ram == original_channel.wave_pattern_ram,
            cgb_mode ==> c.length == (Length { initial_settings: 0, timer: 0, max_length: WAVE_MAX_LENGTH }),
            !cgb_mode ==> c.length == (Length {
                initial_settings: 0,
                timer: original_channel.length.timer,
                max_length: original_channel.length.max_length,
            }),
    {
        let mut new_channel = WaveChannel::new();
        if !cgb_mode {
            new_channel.length = Length::reset_initial_settings(&original_channel.length);
        }
        new_channel.wave_pattern_ram = original_channel.wave_pattern_ram;
        new_channel.wave_position = original_channel.wave_position;
        new_channel
    }

    /// Advances the period divider by half the elapsed clock cycles and moves to the next
    /// sample once per divider reload.
    pub fn step(&mut self, last_instruction_clock_cycles: u8)
        requires
            old(self).wave_position < 255,
            old(self).enabled ==> old(self).period.divider >= 1 || last_instruction_clock_cycles / 2 == 0,
        ensures
            !old(self).enabled ==> *final(self) == *old(self),
            old(self).enabled ==> ({
                let r = divider_after_steps(
                    old(self).period.divider,
                    period_divider(old(self).period.low, old(self).period.high),
                    (last_instruction_clock_cycles / 2) as nat,
                );
                &&& final(self).period.divider == r.0
                &&& final(self).period.reloaded == (r.1 > 0 && r.0 == period_divider(old(self).period.low, old(self).period.high))
                &&& final(self).wave_position == bounded_next_times(old(self).wave_position, MAX_WAVE_SAMPLE_STEPS, r.1)
                &&& *final(self) == WaveChannel {
                    period: final(self).period,
                    wave_position: final(self).wave_position,
                    ..*old(self)
                }
            }),
            *final(self) == old(self).period_stepped((last_instruction_clock_cycles / 2) as nat),
            old(self).wf() ==> final(self).wf(),
    {
        if self.enabled {
            let reloads = self.period.step(last_instruction_clock_cycles / 2);
            self.wave_position = bounded_wrapping_add_times(self.wave_position, MAX_WAVE_SAMPLE_STEPS, reloads);
            proof {
                if old(self).wf() && last_instruction_clock_cycles / 2 > 0 {
                    crate::apu::period::lemma_period_value_bound(self.period.low, self.period.high);
                    lemma_divider_bound(old(self).period.divider, period_divider(self.period.low, self.period.high), (last_instruction_clock_cycles / 2) as nat);
                }
            }
        }
    }

    pub fn should_clock_length_on_enable(&self, original_period_high_value: u8) -> (r: bool)
        ensures
            r == (!length_is_enabled(original_period_high_value) && length_is_enabled(self.period.high)),
    {
        let new_period_high_value = self.period.high;
        !length_enabled(original_period_high_value) && length_enabled(new_period_high_value)
    }

    pub fn should_clock_length_on_trigger(&self) -> (r: bool)
        ensures
            r == (self.length.timer == self.length.max_length && length_is_enabled(self.period.high)),
    {
        let period_high = self.period.high;
        self.length.at_max_length() && length_enabled(period_high)
    }

    pub fn step_length(&mut self)
        ensures
            ({
                let l = old(self).length;
                let stepped = Length { timer: if l.timer > 0 { (l.timer - 1) as u16 } else { 0 }, ..l };
                if length_is_enabled(old(self).period.high) {
                    *final(self) == WaveChannel {
                        length: stepped,
                        enabled: old(self).enabled && stepped.timer != 0,
                        ..*old(self)
                    }
                } else {
                    *final(self) == *old(self)
                }
            }),
            *final(self) == old(self).length_stepped(),
    {
        let period_high = self.period.high;
        let length_timer_enabled = length_enabled(period_high);
        if length_timer_enabled {
            self.length.step();
            if self.length.timer_expired() {
                self.enabled = false;
            }
        }
    }

    pub fn read_from_wave_ram(&self, localized_address: u8) -> (r: u8)
        requires
            localized_address < 16,
        ensures
            r == self.wave_pattern_ram@[localized_address as int],
    {
        self.wave_pattern_ram[localized_address as usize]
    }

    pub fn write_to_wave_ram(&mut self, localized_address: u8, new_value: u8)
        requires
            localized_address < 16,
        ensures
            final(self).wave_pattern_ram@ == old(self).wave_pattern_ram@.update(localized_address as int, new_value),
            *final(self) == (WaveChannel { wave_pattern_ram: final(self).wave_pattern_ram, ..*old(self) }),
    {
        self.wave_pattern_ram[localized_address as usize] = new_value;
    }

    /// The channel's digital output: the current sample scaled by the output level, or `None`
    /// while the channel is off or muted.
    pub fn digital_output(&self) -> (r: Option<u8>)
        requires
            self.wave_position < 32,
        ensures
            !self.enabled ==> r is None,
            self.enabled ==> r == scaled_sample(wave_sample(self.wave_pattern_ram@, self.wave_position), self.volume),
            r == self.output(),
    {
        if self.enabled {
            let localized_address = self.wave_position / 2;
            let byte_offset = self.wave_position % 2;

            let byte = self.read_from_wave_ram(localized_address);
            let sample = if byte_offset == 0 { byte / 16 } else { byte % 16 };

            let output_level = (self.volume & 0b01100000) / 32;
            match output_level {
                0b01 => Some(sample),
                0b10 => Some(sample / 2),
                0b11 => Some(sample / 4),
                _ => None,
            }
        } else {
            None
        }
    }

    fn corrupt_wave_ram_bug(&mut self)
        requires
            old(self).wave_position < 255,
        ensures
            final(self).wave_pattern_ram@ == corrupted_wave_ram(old(self).wave_pattern_ram@, old(self).wave_position),
            *final(self) == (WaveChannel { wave_pattern_ram: final(self).wave_pattern_ram, ..*old(self) }),
    {
        let offset = (((self.wave_position + 1) / 2) % 16) as usize;
        if offset < 4 {
            self.wave_pattern_ram[0] = self.wave_pattern_ram[offset];
        } else {
            let copy_base_position = offset - offset % 4;
            let ghost original = self.wave_pattern_ram@;
            let mut copy_offset: usize = 0;
            while copy_offset <= 3
                invariant
                    copy_base_position + 3 < 16,
                    copy_base_position >= 4,
                    copy_offset <= 4,
                    self.wave_position == old(self).wave_position,
                    self.enabled == old(self).enabled,
                    self.dac_enabled == old(self).dac_enabled,
                    self.length == old(self).length,
                    self.volume == old(self).volume,
                    self.period == old(self).period,
                    forall|i: int| 0 <= i < copy_offset ==> self.wave_pattern_ram@[i] == original[copy_base_position + i],
                    forall|i: int| copy_offset <= i < 16 ==> self.wave_pattern_ram@[i] == original[i],
                decreases 4 - copy_offset,
            {
                let copy_position = copy_base_position + copy_offset;
                self.wave_pattern_ram[copy_offset] = self.wave_pattern_ram[copy_position];
                copy_offset += 1;
            }
            assert(self.wave_pattern_ram@ =~= corrupted_wave_ram(original, self.wave_position));
        }
    }

    /// Triggering restarts the wave at position 0 (on a DMG first corrupting wave RAM when the
    /// channel was just about to read it), enables the channel if its DAC is on and reloads the
    /// period divider, plus the trigger delay, and the length timer.
    pub fn trigger(&mut self, cgb_mode: bool)
        requires
            old(self).enabled && old(self).period.divider == 1 && !cgb_mode ==> old(self).wave_position < 255,
        ensures
            *final(self) == (WaveChannel { wave_pattern_ram: final(self).wave_pattern_ram, ..wave_triggered(*old(self)) }),
            wave_trigger_ram(*old(self), final(self).wave_pattern_ram@, cgb_mode),
            final(self).wave_position == 0,
            final(self).enabled == (old(self).enabled || old(self).dac_enabled),
            final(self).dac_enabled == old(self).dac_enabled,
            final(self).volume == old(self).volume,
            final(self).period == (Period {
                divider: (period_divider(old(self).period.low, old(self).period.high) + WAVE_CHANNEL_PERIOD_DELAY) as u16,
                ..old(self).period
            }),
            final(self).length == (Length {
                timer: if old(self).length.timer == 0 { old(self).length.max_length } else { old(self).length.timer },
                ..old(self).length
            }),
            (old(self).enabled && old(self).period.divider == 1 && !cgb_mode) ==> final(self).wave_pattern_ram@
                == corrupted_wave_ram(old(self).wave_pattern_ram@, old(self).wave_position),
            !(old(self).enabled && old(self).period.divider == 1 && !cgb_mode) ==> final(self).wave_pattern_ram
                == old(self).wave_pattern_ram,
            old(self).wf() ==> final(self).wf(),
    {
        let period_divider = self.period.divider;
        if self.enabled && period_divider == 1 && !cgb_mode {
            self.corrupt_wave_ram_bug();
        }

        self.wave_position = 0;

        if self.dac_enabled {
            self.enabled = true;
        }

        self.period.trigger();
        proof {
            crate::apu::period::lemma_period_value_bound(self.period.low, self.period.high);
        }
        self.period.apply_wave_channel_trigger_delay();
        self.length.reload_timer();
    }

    pub fn should_trigger(&self) -> (r: bool)
        ensures
            r == bit_is_set(self.period.high, PERIOD_HIGH_TRIGGER_INDEX),
    {
        is_bit_set(self.period.high, PERIOD_HIGH_TRIGGER_INDEX)
    }

    pub fn wave_position(&self) -> (r: u8)
        ensures
            r == self.wave_position,
    {
        self.wave_position
    }

    pub fn set_wave_position(&mut self, value: u8)
        ensures
            *final(self) == (WaveChannel { wave_position: value, ..*old(self) }),
    {
        self.wave_position = value;
    }

    pub fn enabled(&self) -> (r: bool)
        ensures
            r == self.enabled,
    {
        self.enabled
    }

    pub fn set_enabled(&mut self, value: bool)
        ensures
            *final(self) == (WaveChannel { enabled: value, ..*old(self) }),
    {
        self.enabled = value;
    }

    pub fn dac_enabled(&self) -> (r: bool)
        ensures
            r == self.dac_enabled,
    {
        self.dac_enabled
    }

    pub fn set_dac_enabled(&mut self, value: bool)
        ensures
            *final(self) == (WaveChannel { dac_enabled: value, ..*old(self) }),
    {
        self.dac_enabled = value;
    }

    pub fn volume(&self) -> (r: u8)
        ensures
            r == self.volume,
    {
        self.volume
    }

    pub fn set_volume(&mut self, value: u8)
        ensures
            *final(self) == (WaveChannel { volume: value, ..*old(self) }),
    {
        self.volume = value;
    }

    pub fn period(&mut self) -> (r: &mut Period)
        ensures
            *r == old(self).period,
            *final(self) == (WaveChannel { period: *final(r), ..*old(self) }),
    {
        &mut self.period
    }

    pub fn period_readonly(&self) -> (r: &Period)
        ensures
            *r == self.period,
    {
        &self.period
    }

    pub fn length(&mut self) -> (r: &mut Length)
        ensures
            *r == old(self).length,
            *final(self) == (WaveChannel { length: *final(r), ..*old(self) }),
    {
        &mut self.length
    }
}

proof fn lemma_divider_bound(divider: u16, reload: u16, steps: nat)
    requires
        1 <= divider <= 2048 + WAVE_CHANNEL_PERIOD_DELAY,
        1 <= reload <= 2048,
    ensures
        1 <= divider_after_steps(divider, reload, steps).0 <= 2048 + WAVE_CHANNEL_PERIOD_DELAY,
    decreases steps,
{
    if steps > 0 {
        let next = (divider - 1) as u16;
        if next == 0 {
            lemma_divider_bound(reload, reload, (steps - 1) as nat);
        } else {
            lemma_divider_bound(next, reload, (steps - 1) as nat);
        }
    }
}

} // verus!

use crate::apu::noise::NoiseChannel;
use crate::apu::pulse::PulseChannel;
use crate::apu::wave::WaveChannel;
use crate::apu::utils::bounded_wrapping_add;
use crate::apu::sweep::frequency_computable;
use crate::utils::{bit_is_set, get_bit, get_t_cycle_increment, is_bit_set, t_cycle_increment};
use vstd::prelude::*;

verus! {

/// The digital outputs of the four channels at one machine cycle, and where that cycle stands
/// in the current audio sample: the mixing into samples happens outside the library.
#[derive(Clone, Copy, Debug)]
pub struct AudioTick {
    pub channel_outputs: [Option<u8>; 4],
    pub steps_since_enqueue: u8,
    pub steps_per_enqueue: u8,
    pub enqueue: bool,
    pub sound_panning: u8,
    pub master_volume: u8,
}

/// The audio processing unit: the four channels, the frame sequencer (DIV-APU) and the
/// master registers NR50-NR52.
pub struct Apu {
    pub enabled: bool,
    pub sound_panning: u8,
    pub master_volume: u8,
    pub channel1: PulseChannel,
    pub channel2: PulseChannel,
    pub channel3: WaveChannel,
    pub channel4: NoiseChannel,
    pub divider_apu: u8,
    pub last_divider_time: u8,
    pub audio_buffer_clock: u8,
    pub channel_clock: u8,
    pub audio_ticks: Vec<AudioTick>,
    pub enqueue_rate: u32,
    pub cgb_mode: bool,
    pub cgb_double_speed: bool,
}

pub const CH3_DAC_ENABLED_INDEX: u8 = 7;
pub const APU_ENABLED_INDEX: u8 = 7;
pub const MAX_DIV_APU_STEPS: u8 = 7;

pub const CPU_RATE: u32 = 4194304;
pub const DEFAULT_SAMPLE_RATE: u32 = 44100;
pub const MAX_AUDIO_BUFFER_SIZE: usize = 512;

pub const CHANNEL_STEP_RATE: u8 = 4;

/// The frame sequencer steps in the first half of a length period.
pub open spec fn in_first_half(current_divider_apu: u8) -> bool {
    current_divider_apu == 1 || current_divider_apu == 3 || current_divider_apu == 5
        || current_divider_apu == 7
}

fn in_length_period_first_half(current_divider_apu: u8) -> (r: bool)
    ensures
        r == in_first_half(current_divider_apu),
{
    current_divider_apu == 1 || current_divider_apu == 3 || current_divider_apu == 5
        || current_divider_apu == 7
}

/// NR52 as read: the power bit, bits 4-6 set, and one bit per running channel.
pub open spec fn master_control_value(
    enabled: bool,
    ch1: bool,
    ch2: bool,
    ch3: bool,
    ch4: bool,
) -> u8 {
    ((if enabled { 0x80u8 } else { 0u8 }) | 0x70u8 | (if ch4 { 0x08u8 } else { 0u8 }) | (if ch3 {
        0x04u8
    } else {
        0u8
    }) | (if ch2 { 0x02u8 } else { 0u8 }) | (if ch1 { 0x01u8 } else { 0u8 })) as u8
}

/// The channels and the frame sequencer after one frame sequencer step: envelopes on step 7,
/// length timers on the even steps, the channel 1 sweep on steps 2 and 6.
pub open spec fn frame_sequencer_step(a: Apu) -> Apu {
    let step = a.divider_apu;
    let enveloped = step == 7;
    let lengths = step == 0 || step == 2 || step == 4 || step == 6;
    let sweeps = step == 2 || step == 6;
    let c1 = if enveloped { a.channel1.envelope_stepped() } else { a.channel1 };
    let c1 = if lengths { c1.length_stepped() } else { c1 };
    let c1 = if sweeps { c1.sweep_stepped() } else { c1 };
    let c2 = if enveloped { a.channel2.envelope_stepped() } else { a.channel2 };
    let c2 = if lengths { c2.length_stepped() } else { c2 };
    let c3 = if lengths { a.channel3.length_stepped() } else { a.channel3 };
    let c4 = if enveloped { a.channel4.envelope_stepped() } else { a.channel4 };
    let c4 = if lengths { c4.length_stepped() } else { c4 };
    Apu {
        channel1: c1,
        channel2: c2,
        channel3: c3,
        channel4: c4,
        divider_apu: if step + 1 > MAX_DIV_APU_STEPS { 0 } else { (step + 1) as u8 },
        ..a
    }
}

/// The channels after a machine cycle of the APU when it is on: each channel's clock is
/// advanced once four clock cycles have gathered, then the frame sequencer steps on a
/// falling edge of DIV.
pub open spec fn channels_stepped(a: Apu, divider: u8) -> Apu {
    let clock = ((a.channel_clock + t_cycle_increment(a.cgb_double_speed)) % 256) as u8;
    let clocked = if clock >= CHANNEL_STEP_RATE {
        Apu {
            channel1: a.channel1.period_stepped((clock / 4) as nat),
            channel2: a.channel2.period_stepped((clock / 4) as nat),
            channel3: a.channel3.period_stepped((clock / 2) as nat),
            channel4: a.channel4.cycles_stepped(clock),
            channel_clock: 0,
            ..a
        }
    } else {
        Apu { channel_clock: clock, ..a }
    };
    if clocked.div_apu_edge(divider) { frame_sequencer_step(clocked) } else { clocked }
}

/// The record of one machine cycle that the APU hands out for mixing.
pub open spec fn audio_tick_of(a: Apu, tick: AudioTick) -> bool {
    let t = t_cycle_increment(a.cgb_double_speed);
    let clock = a.audio_buffer_clock + t;
    &&& tick.channel_outputs@ == seq![
        a.channel1.output(),
        a.channel2.output(),
        if a.channel3.wave_position < 32 { a.channel3.output() } else { None },
        a.channel4.output(),
    ]
    &&& tick.steps_since_enqueue == clock / (t as int)
    &&& tick.steps_per_enqueue == a.enqueue_rate as u8
    &&& tick.enqueue == (clock >= a.enqueue_rate)
    &&& tick.sound_panning == a.sound_panning
    &&& tick.master_volume == a.master_volume
}

/// What a write of an APU register (NR10-NR52 and wave RAM, by the low byte of its address)
/// does. With the APU off, only NR52, wave RAM and, on DMG, the length registers take writes.
pub open spec fn apu_io_written(a: Apu, b: Apu, low: u8, value: u8) -> bool {
    let others_kept_but_1 = b.channel2 == a.channel2 && b.channel3 == a.channel3 && b.channel4 == a.channel4 && b.enabled == a.enabled;
    let others_kept_but_2 = b.channel1 == a.channel1 && b.channel3 == a.channel3 && b.channel4 == a.channel4 && b.enabled == a.enabled;
    let others_kept_but_3 = b.channel1 == a.channel1 && b.channel2 == a.channel2 && b.channel4 == a.channel4 && b.enabled == a.enabled;
    let others_kept_but_4 = b.channel1 == a.channel1 && b.channel2 == a.channel2 && b.channel3 == a.channel3 && b.enabled == a.enabled;
    let length_written = a.enabled || !a.cgb_mode;
    let length_settings = if a.enabled { value } else { value & 0x3F };
    if low == 0x10 {
        &&& !a.enabled ==> b == a
        &&& a.enabled ==> b.channel1.sweep.initial_settings == value
            && b.channel1.enabled == (a.channel1.enabled && !b.channel1.sweep.should_disable_channel)
        &&& others_kept_but_1
    } else if low == 0x11 {
        &&& length_written ==> b.channel1.length.initial_settings == length_settings
            && b.channel1.length.timer == 64 - (length_settings & 0x3F)
            && b == (Apu { channel1: PulseChannel { length: b.channel1.length, ..a.channel1 }, ..a })
        &&& !length_written ==> b == a
    } else if low == 0x12 {
        &&& !a.enabled ==> b == a
        &&& a.enabled ==> b.channel1.envelope.initial_settings == value && b.channel1.envelope.current_volume == value / 16
            && b.channel1.envelope.timer == value & 0b111 && b.channel1.dac_enabled == (value & 0xF8 != 0)
            && b.channel1.enabled == (a.channel1.enabled && value & 0xF8 != 0)
        &&& others_kept_but_1 && b.divider_apu == a.divider_apu
    } else if low == 0x13 {
        b == (if a.enabled { Apu { channel1: PulseChannel { period: crate::apu::period::Period { low: value, ..a.channel1.period }, ..a.channel1 }, ..a } } else { a })
    } else if low == 0x14 {
        &&& !a.enabled ==> b == a
        &&& a.enabled ==> b.channel1 == crate::apu::pulse::pulse_high_written(a.channel1, value, in_first_half(a.divider_apu), true)
        &&& others_kept_but_1 && b.divider_apu == a.divider_apu
    } else if low == 0x16 {
        &&& length_written ==> b.channel2.length.initial_settings == length_settings
            && b.channel2.length.timer == 64 - (length_settings & 0x3F)
            && b == (Apu { channel2: PulseChannel { length: b.channel2.length, ..a.channel2 }, ..a })
        &&& !length_written ==> b == a
    } else if low == 0x17 {
        &&& !a.enabled ==> b == a
        &&& a.enabled ==> b.channel2.envelope.initial_settings == value && b.channel2.envelope.current_volume == value / 16
            && b.channel2.envelope.timer == value & 0b111 && b.channel2.dac_enabled == (value & 0xF8 != 0)
            && b.channel2.enabled == (a.channel2.enabled && value & 0xF8 != 0)
        &&& others_kept_but_2 && b.divider_apu == a.divider_apu
    } else if low == 0x18 {
        b == (if a.enabled { Apu { channel2: PulseChannel { period: crate::apu::period::Period { low: value, ..a.channel2.period }, ..a.channel2 }, ..a } } else { a })
    } else if low == 0x19 {
        &&& !a.enabled ==> b == a
        &&& a.enabled ==> b.channel2 == crate::apu::pulse::pulse_high_written(a.channel2, value, in_first_half(a.divider_apu), false)
        &&& others_kept_but_2 && b.divider_apu == a.divider_apu
    } else if low == 0x1A {
        &&& !a.enabled ==> b == a
        &&& a.enabled ==> b.channel3.dac_enabled == bit_is_set(value, CH3_DAC_ENABLED_INDEX)
            && b.channel3.enabled == (a.channel3.enabled && bit_is_set(value, CH3_DAC_ENABLED_INDEX))
        &&& others_kept_but_3 && b.divider_apu == a.divider_apu
    } else if low == 0x1B {
        &&& length_written ==> b.channel3.length.initial_settings == value && b.channel3.length.timer == 256 - value
            && b == (Apu { channel3: WaveChannel { length: b.channel3.length, ..a.channel3 }, ..a })
        &&& !length_written ==> b == a
    } else if low == 0x1C {
        b == (if a.enabled { Apu { channel3: WaveChannel { volume: value, ..a.channel3 }, ..a } } else { a })
    } else if low == 0x1D {
        b == (if a.enabled { Apu { channel3: WaveChannel { period: crate::apu::period::Period { low: value, ..a.channel3.period }, ..a.channel3 }, ..a } } else { a })
    } else if low == 0x1E {
        &&& !a.enabled ==> b == a
        &&& a.enabled ==> crate::apu::wave::wave_high_written(a.channel3, b.channel3, value, in_first_half(a.divider_apu), a.cgb_mode)
        &&& others_kept_but_3 && b.divider_apu == a.divider_apu
    } else if low == 0x20 {
        &&& length_written ==> b.channel4.length.initial_settings == value && b.channel4.length.timer == 64 - (value & 0x3F)
            && b == (Apu { channel4: NoiseChannel { length: b.channel4.length, ..a.channel4 }, ..a })
        &&& !length_written ==> b == a
    } else if low == 0x21 {
        &&& !a.enabled ==> b == a
        &&& a.enabled ==> b.channel4.envelope.initial_settings == value && b.channel4.envelope.current_volume == value / 16
            && b.channel4.envelope.timer == value & 0b111 && b.channel4.dac_enabled == (value & 0xF8 != 0)
            && b.channel4.enabled == (a.channel4.enabled && value & 0xF8 != 0)
        &&& others_kept_but_4 && b.divider_apu == a.divider_apu
    } else if low == 0x22 {
        b == (if a.enabled { Apu { channel4: NoiseChannel { polynomial: value, ..a.channel4 }, ..a } } else { a })
    } else if low == 0x23 {
        &&& !a.enabled ==> b == a
        &&& a.enabled ==> b.channel4 == crate::apu::noise::noise_control_written(a.channel4, value, in_first_half(a.divider_apu))
        &&& others_kept_but_4 && b.divider_apu == a.divider_apu
    } else if low == 0x24 {
        b == (if a.enabled { Apu { master_volume: value, ..a } } else { a })
    } else if low == 0x25 {
        b == (if a.enabled { Apu { sound_panning: value, ..a } } else { a })
    } else if low == 0x26 {
        &&& b.enabled == bit_is_set(value, APU_ENABLED_INDEX)
        &&& bit_is_set(value, APU_ENABLED_INDEX) ==> b == (Apu { enabled: true, ..a })
        &&& !bit_is_set(value, APU_ENABLED_INDEX) ==> b.sound_panning == 0 && b.master_volume == 0
            && !b.channel1.enabled && !b.channel2.enabled && !b.channel3.enabled && !b.channel4.enabled
    } else {
        let index = (low - 0x30) as u8;
        &&& !a.channel3.enabled ==> b.channel3.wave_pattern_ram@ == a.channel3.wave_pattern_ram@.update(index as int, value)
        &&& a.channel3.enabled && (a.channel3.period.reloaded || a.cgb_mode) ==> b.channel3.wave_pattern_ram@
            == a.channel3.wave_pattern_ram@.update((a.channel3.wave_position / 2) as int, value)
        &&& a.channel3.enabled && !(a.channel3.period.reloaded || a.cgb_mode) ==> b == a
        &&& b == (Apu { channel3: WaveChannel { wave_pattern_ram: b.channel3.wave_pattern_ram, ..a.channel3 }, ..a })
    }
}

impl Apu {
    pub open spec fn wf(&self) -> bool {
        &&& self.channel1.wf()
        &&& self.channel2.wf()
        &&& self.channel3.wf()
        &&& self.channel4.wf()
        &&& self.divider_apu <= MAX_DIV_APU_STEPS
        &&& self.enqueue_rate <= 252
        &&& self.audio_buffer_clock <= 251
    }

    pub fn new() -> (apu: Self)
        ensures
            apu.wf(),
            !apu.enabled,
            apu.sound_panning == 0,
            apu.master_volume == 0,
            apu.divider_apu == 0,
            apu.last_divider_time == 0,
            apu.audio_buffer_clock == 0,
            apu.channel_clock == 0,
            apu.audio_ticks@.len() == 0,
            apu.enqueue_rate == CPU_RATE / DEFAULT_SAMPLE_RATE,
            !apu.cgb_mode,
            !apu.cgb_double_speed,
    {
        Apu {
            enabled: false,
            sound_panning: 0,
            master_volume: 0,
            channel1: PulseChannel::new(),
            channel2: PulseChannel::new(),
            channel3: WaveChannel::new(),
            channel4: NoiseChannel::new(),
            divider_apu: 0,
            last_divider_time: 0,
            audio_buffer_clock: 0,
            channel_clock: 0,
            audio_ticks: Vec::new(),
            enqueue_rate: CPU_RATE / DEFAULT_SAMPLE_RATE,
            cgb_mode: false,
            cgb_double_speed: false,
        }
    }

    /// Powering the APU off clears its registers and resets the channels.
    pub fn reset(&mut self)
        requires
            old(self).wf(),
        ensures
            final(self).wf(),
            !final(self).enabled,
            final(self).sound_panning == 0,
            final(self).master_volume == 0,
            final(self).divider_apu == 0,
            final(self).last_divider_time == 0,
            !final(self).channel1.enabled && !final(self).channel2.enabled,
            !final(self).channel3.enabled && !final(self).channel4.enabled,
            final(self).channel3.wave_pattern_ram == old(self).channel3.wave_pattern_ram,
            final(self).cgb_mode == old(self).cgb_mode,
            final(self).cgb_double_speed == old(self).cgb_double_speed,
            final(self).enqueue_rate == old(self).enqueue_rate,
            final(self).audio_buffer_clock == old(self).audio_buffer_clock,
            final(self).channel_clock == old(self).channel_clock,
            final(self).audio_ticks == old(self).audio_ticks,
    {
        self.enabled = false;
        self.sound_panning = 0;
        self.master_volume = 0;
        self.divider_apu = 0;
        self.last_divider_time = 0;
        self.channel1 = PulseChannel::reset(&self.channel1, self.cgb_mode);
        self.channel2 = PulseChannel::reset(&self.channel2, self.cgb_mode);
        self.channel3 = WaveChannel::reset(&self.channel3, self.cgb_mode);
        self.channel4 = NoiseChannel::reset(&self.channel4, self.cgb_mode);
    }

    /// The frame sequencer advances on a falling edge of DIV bit 4 (bit 5 in double speed).
    pub open spec fn div_apu_edge(&self, divider: u8) -> bool {
        let bit: u8 = if self.cgb_double_speed { 5 } else { 4 };
        (self.last_divider_time >> bit) & 1 == 1 && (divider >> bit) & 1 == 0
    }

    fn should_step_div_apu(&self, divider: u8) -> (r: bool)
        ensures
            r == self.div_apu_edge(divider),
    {
        let bit_to_check: u8 = if self.cgb_double_speed { 5 } else { 4 };
        get_bit(self.last_divider_time, bit_to_check) == 1 && get_bit(divider, bit_to_check) == 0
    }

    /// One frame sequencer step: envelopes on step 7, length timers on even steps, the sweep
    /// on steps 2 and 6.
    fn step_div_apu(&mut self, divider: u8)
        requires
            old(self).wf(),
        ensures
            final(self).wf(),
            !old(self).div_apu_edge(divider) ==> *final(self) == *old(self),
            old(self).div_apu_edge(divider) ==> *final(self) == frame_sequencer_step(*old(self)),
            final(self).channel3.wave_pattern_ram == old(self).channel3.wave_pattern_ram,
            old(self).div_apu_edge(divider) ==> final(self).divider_apu == (if old(self).divider_apu
                + 1 > MAX_DIV_APU_STEPS { 0 } else { old(self).divider_apu + 1 }),
            final(self).enabled == old(self).enabled,
            final(self).sound_panning == old(self).sound_panning,
            final(self).master_volume == old(self).master_volume,
            final(self).last_divider_time == old(self).last_divider_time,
            final(self).audio_buffer_clock == old(self).audio_buffer_clock,
            final(self).channel_clock == old(self).channel_clock,
            final(self).audio_ticks == old(self).audio_ticks,
            final(self).enqueue_rate == old(self).enqueue_rate,
            final(self).cgb_mode == old(self).cgb_mode,
            final(self).cgb_double_speed == old(self).cgb_double_speed,
    {
        if self.should_step_div_apu(divider) {
            let current_divider_apu = self.divider_apu;

            if current_divider_apu == 7 {
                self.channel1.step_envelope();
                self.channel2.step_envelope();
                self.channel4.step_envelope();
            }

            if current_divider_apu == 0 || current_divider_apu == 2 || current_divider_apu == 4
                || current_divider_apu == 6 {
                self.channel1.step_length();
                self.channel2.step_length();
                self.channel3.step_length();
                self.channel4.step_length();
            }

            if current_divider_apu == 2 || current_divider_apu == 6 {
                proof {
                    crate::utils::lemma_u16_shr_bound(self.channel1.sweep.shadow_frequency, (self.channel1.sweep.initial_settings & 0b111) as u16);
                }
                self.channel1.step_sweep();
            }

            self.divider_apu = bounded_wrapping_add(self.divider_apu, MAX_DIV_APU_STEPS);
        }
    }

    /// Records the channels' outputs for this machine cycle and advances the sample clock.
    fn enqueue_audio_samples(&mut self, in_color_bios: bool)
        requires
            old(self).wf(),
        ensures
            final(self).wf(),
            in_color_bios ==> *final(self) == *old(self),
            !in_color_bios ==> final(self).audio_ticks@.len() == old(self).audio_ticks@.len() + 1,
            !in_color_bios ==> final(self).audio_ticks@ == old(self).audio_ticks@.push(final(self).audio_ticks@.last())
                && audio_tick_of(*old(self), final(self).audio_ticks@.last()),
            !in_color_bios ==> final(self).audio_buffer_clock == (if old(self).audio_buffer_clock
                + t_cycle_increment(old(self).cgb_double_speed) >= old(self).enqueue_rate {
                0
            } else {
                old(self).audio_buffer_clock + t_cycle_increment(old(self).cgb_double_speed)
            }),
            final(self).channel1 == old(self).channel1,
            final(self).channel2 == old(self).channel2,
            final(self).channel3 == old(self).channel3,
            final(self).channel4 == old(self).channel4,
            final(self).enabled == old(self).enabled,
            final(self).sound_panning == old(self).sound_panning,
            final(self).master_volume == old(self).master_volume,
            final(self).divider_apu == old(self).divider_apu,
            final(self).last_divider_time == old(self).last_divider_time,
            final(self).channel_clock == old(self).channel_clock,
            final(self).enqueue_rate == old(self).enqueue_rate,
            final(self).cgb_mode == old(self).cgb_mode,
            final(self).cgb_double_speed == old(self).cgb_double_speed,
    {
        if !in_color_bios {
            let t_cycle_increment = get_t_cycle_increment(self.cgb_double_speed);

            self.audio_buffer_clock += t_cycle_increment;
            let steps_since_enqueue = self.audio_buffer_clock / t_cycle_increment;
            let steps_per_enqueue = self.enqueue_rate as u8;

            let enqueue = self.audio_buffer_clock as u32 >= self.enqueue_rate;
            let tick = AudioTick {
                channel_outputs: [
                    self.channel1.digital_output(),
                    self.channel2.digital_output(),
                    if self.channel3.wave_position < 32 { self.channel3.digital_output() } else { None },
                    self.channel4.digital_output(),
                ],
                steps_since_enqueue,
                steps_per_enqueue,
                enqueue,
                sound_panning: self.sound_panning,
                master_volume: self.master_volume,
            };
            self.audio_ticks.push(tick);

            if enqueue {
                self.audio_buffer_clock = 0;
            }
        }
    }

    /// One machine cycle of the APU.
    pub fn step(&mut self, in_color_bios: bool, divider: u8)
        requires
            old(self).wf(),
        ensures
            final(self).wf(),
            final(self).last_divider_time == divider,
            old(self).enabled ==> {
                &&& final(self).channel1 == channels_stepped(*old(self), divider).channel1
                &&& final(self).channel2 == channels_stepped(*old(self), divider).channel2
                &&& final(self).channel3 == channels_stepped(*old(self), divider).channel3
                &&& final(self).channel4 == channels_stepped(*old(self), divider).channel4
                &&& final(self).divider_apu == channels_stepped(*old(self), divider).divider_apu
            },
            !in_color_bios ==> final(self).audio_ticks@.len() == old(self).audio_ticks@.len() + 1
                && final(self).audio_ticks@.drop_last() == old(self).audio_ticks@,
            final(self).enabled == old(self).enabled,
            final(self).sound_panning == old(self).sound_panning,
            final(self).master_volume == old(self).master_volume,
            final(self).cgb_mode == old(self).cgb_mode,
            final(self).cgb_double_speed == old(self).cgb_double_speed,
            final(self).enqueue_rate == old(self).enqueue_rate,
            final(self).channel3.wave_pattern_ram == old(self).channel3.wave_pattern_ram,
            !old(self).enabled ==> final(self).channel1 == old(self).channel1
                && final(self).channel2 == old(self).channel2
                && final(self).channel3 == old(self).channel3
                && final(self).channel4 == old(self).channel4
                && final(self).divider_apu == old(self).divider_apu,
    {
        let t_cycle_increment = get_t_cycle_increment(self.cgb_double_speed);
        self.channel_clock = self.channel_clock.wrapping_add(t_cycle_increment);

        if self.enabled {
            if self.channel_clock >= CHANNEL_STEP_RATE {
                let clock_cycles = self.channel_clock;
                self.channel_clock = 0;

                self.channel1.step(clock_cycles);
                self.channel2.step(clock_cycles);
                self.channel3.step(clock_cycles);
                self.channel4.step(clock_cycles);
            }

            self.step_div_apu(divider);
        }
        self.enqueue_audio_samples(in_color_bios);

        self.last_divider_time = divider;
    }

    pub fn set_sample_rate(&mut self, sample_rate: u32)
        requires
            sample_rate > 0,
        ensures
            *final(self) == (Apu { enqueue_rate: CPU_RATE / sample_rate, ..*old(self) }),
    {
        self.enqueue_rate = CPU_RATE / sample_rate;
    }

    /// Writing NR14: may clock the length timer when the length gets enabled in the first half
    /// of a length period, and triggers the channel when bit 7 is set.
    pub fn set_ch1_period_high(&mut self, new_period_high_value: u8)
        requires
            old(self).wf(),
        ensures
            final(self).wf(),
            !old(self).enabled ==> *final(self) == *old(self),
            old(self).enabled ==> final(self).channel1.period.high == new_period_high_value,
            old(self).enabled ==> final(self).channel1 == crate::apu::pulse::pulse_high_written(old(self).channel1,
                new_period_high_value, in_first_half(old(self).divider_apu), true),
            final(self).channel2 == old(self).channel2,
            final(self).channel3 == old(self).channel3,
            final(self).channel4 == old(self).channel4,
            final(self).enabled == old(self).enabled,
            final(self).divider_apu == old(self).divider_apu,
    {
        if self.enabled {
            let original_period_high_value = self.channel1.period.high;
            self.channel1.period.set_high(new_period_high_value);

            let length_period_first_half = in_length_period_first_half(self.divider_apu);

            let clock_length_on_enable = self.channel1.should_clock_length_on_enable(original_period_high_value)
                && length_period_first_half;

            if clock_length_on_enable {
                self.channel1.step_length();
            }

            if self.channel1.should_trigger() {
                self.channel1.trigger(true);

                if self.channel1.should_clock_length_on_trigger() && length_period_first_half {
                    self.channel1.step_length();
                }
            }
        }
    }

    /// Writing NR24, as NR14 but without a sweep.
    pub fn set_ch2_period_high(&mut self, new_period_high_value: u8)
        requires
            old(self).wf(),
        ensures
            final(self).wf(),
            !old(self).enabled ==> *final(self) == *old(self),
            old(self).enabled ==> final(self).channel2.period.high == new_period_high_value,
            old(self).enabled ==> final(self).channel2 == crate::apu::pulse::pulse_high_written(old(self).channel2,
                new_period_high_value, in_first_half(old(self).divider_apu), false),
            final(self).channel1 == old(self).channel1,
            final(self).channel3 == old(self).channel3,
            final(self).channel4 == old(self).channel4,
            final(self).enabled == old(self).enabled,
            final(self).divider_apu == old(self).divider_apu,
    {
        if self.enabled {
            let original_period_high_value = self.channel2.period.high;
            self.channel2.period.set_high(new_period_high_value);

            let length_period_first_half = in_length_period_first_half(self.divider_apu);

            let clock_length_on_enable = self.channel2.should_clock_length_on_enable(original_period_high_value)
                && length_period_first_half;

            if clock_length_on_enable {
                self.channel2.step_length();
            }

            if self.channel2.should_trigger() {
                self.channel2.trigger(false);

                if self.channel2.should_clock_length_on_trigger() && length_period_first_half {
                    self.channel2.step_length();
                }
            }
        }
    }

    /// Writing NR34, for the wave channel.
    pub fn set_ch3_period_high(&mut self, new_period_high_value: u8)
        requires
            old(self).wf(),
        ensures
            final(self).wf(),
            !old(self).enabled ==> *final(self) == *old(self),
            old(self).enabled ==> final(self).channel3.period.high == new_period_high_value,
            old(self).enabled ==> crate::apu::wave::wave_high_written(old(self).channel3, final(self).channel3,
                new_period_high_value, in_first_half(old(self).divider_apu), old(self).cgb_mode),
            final(self).channel1 == old(self).channel1,
            final(self).channel2 == old(self).channel2,
            final(self).channel4 == old(self).channel4,
            final(self).enabled == old(self).enabled,
            final(self).divider_apu == old(self).divider_apu,
    {
        if self.enabled {
            let original_period_high_value = self.channel3.period.high;
            self.channel3.period.set_high(new_period_high_value);

            let length_period_first_half = in_length_period_first_half(self.divider_apu);

            let clock_length_on_enable = self.channel3.should_clock_length_on_enable(original_period_high_value)
                && length_period_first_half;

            if clock_length_on_enable {
                self.channel3.step_length();
            }

            if self.channel3.should_trigger() {
                self.channel3.trigger(self.cgb_mode);

                if self.channel3.should_clock_length_on_trigger() && length_period_first_half {
                    self.channel3.step_length();
                }
            }
        }
    }

    /// Writing NR44, for the noise channel.
    pub fn set_ch4_control(&mut self, new_control_value: u8)
        requires
            old(self).wf(),
        ensures
            final(self).wf(),
            !old(self).enabled ==> *final(self) == *old(self),
            old(self).enabled ==> final(self).channel4.control == new_control_value,
            old(self).enabled ==> final(self).channel4 == crate::apu::noise::noise_control_written(old(self).channel4,
                new_control_value, in_first_half(old(self).divider_apu)),
            final(self).channel1 == old(self).channel1,
            final(self).channel2 == old(self).channel2,
            final(self).channel3 == old(self).channel3,
            final(self).enabled == old(self).enabled,
            final(self).divider_apu == old(self).divider_apu,
    {
        if self.enabled {
            let original_control_value = self.channel4.control;
            self.channel4.set_control(new_control_value);

            let length_period_first_half = in_length_period_first_half(self.divider_apu);

            let clock_length_on_enable = self.channel4.should_clock_length_on_enable(original_control_value)
                && length_period_first_half;

            if clock_length_on_enable {
                self.channel4.step_length();
            }

            if self.channel4.should_trigger() {
                self.channel4.trigger();

                if self.channel4.should_clock_length_on_trigger() && length_period_first_half {
                    self.channel4.step_length();
                }
            }
        }
    }

    /// Writing NR12: stores the settings, reloads the envelope, and switches the DAC (and with
    /// it the channel) off when the upper five bits are clear.
    pub fn set_ch1_envelope_settings(&mut self, new_envelope_settings: u8)
        requires
            old(self).wf(),
        ensures
            final(self).wf(),
            !old(self).enabled ==> *final(self) == *old(self),
            old(self).enabled ==> final(self).channel1.envelope.initial_settings == new_envelope_settings
                && final(self).channel1.envelope.current_volume == new_envelope_settings / 16
                && final(self).channel1.envelope.timer == new_envelope_settings & 0b111
                && final(self).channel1.dac_enabled == (new_envelope_settings & 0xF8 != 0)
                && final(self).channel1.enabled == (old(self).channel1.enabled && new_envelope_settings & 0xF8 != 0),
            final(self).channel2 == old(self).channel2,
            final(self).channel3 == old(self).channel3,
            final(self).channel4 == old(self).channel4,
            final(self).enabled == old(self).enabled,
            final(self).divider_apu == old(self).divider_apu,
    {
        if self.enabled {
            self.channel1.envelope.set_initial_settings(new_envelope_settings);
            self.channel1.envelope.reset_settings();

            let should_disable = self.channel1.envelope.should_disable_dac();

            self.channel1.set_dac_enabled(!should_disable);

            if should_disable {
                self.channel1.set_enabled(false);
            }
        }
    }

    /// Writing NR22, as NR12.
    pub fn set_ch2_envelope_settings(&mut self, new_envelope_settings: u8)
        requires
            old(self).wf(),
        ensures
            final(self).wf(),
            !old(self).enabled ==> *final(self) == *old(self),
            old(self).enabled ==> final(self).channel2.envelope.initial_settings == new_envelope_settings
                && final(self).channel2.envelope.current_volume == new_envelope_settings / 16
                && final(self).channel2.envelope.timer == new_envelope_settings & 0b111
                && final(self).channel2.dac_enabled == (new_envelope_settings & 0xF8 != 0)
                && final(self).channel2.enabled == (old(self).channel2.enabled && new_envelope_settings & 0xF8 != 0),
            final(self).channel1 == old(self).channel1,
            final(self).channel3 == old(self).channel3,
            final(self).channel4 == old(self).channel4,
            final(self).enabled == old(self).enabled,
            final(self).divider_apu == old(self).divider_apu,
    {
        if self.enabled {
            self.channel2.envelope.set_initial_settings(new_envelope_settings);
            self.channel2.envelope.reset_settings();

            let should_disable = self.channel2.envelope.should_disable_dac();

            self.channel2.set_dac_enabled(!should_disable);

            if should_disable {
                self.channel2.set_enabled(false);
            }
        }
    }

    /// Writing NR30: bit 7 switches the wave DAC, and the channel with it, on or off.
    pub fn set_ch3_dac_enabled(&mut self, new_dac_enabled_register_value: u8)
        requires
            old(self).wf(),
        ensures
            final(self).wf(),
            !old(self).enabled ==> *final(self) == *old(self),
            old(self).enabled ==> final(self).channel3.dac_enabled == bit_is_set(new_dac_enabled_register_value, CH3_DAC_ENABLED_INDEX)
                && final(self).channel3.enabled == (old(self).channel3.enabled && bit_is_set(new_dac_enabled_register_value, CH3_DAC_ENABLED_INDEX)),
            final(self).channel1 == old(self).channel1,
            final(self).channel2 == old(self).channel2,
            final(self).channel4 == old(self).channel4,
            final(self).enabled == old(self).enabled,
            final(self).divider_apu == old(self).divider_apu,
    {
        if self.enabled {
            let should_disable = !is_bit_set(new_dac_enabled_register_value, CH3_DAC_ENABLED_INDEX);

            self.channel3.set_dac_enabled(!should_disable);

            if should_disable {
                self.channel3.set_enabled(false);
            }
        }
    }

    /// Writing NR42, as NR12.
    pub fn set_ch4_envelope_settings(&mut self, new_envelope_settings: u8)
        requires
            old(self).wf(),
        ensures
            final(self).wf(),
            !old(self).enabled ==> *final(self) == *old(self),
            old(self).enabled ==> final(self).channel4.envelope.initial_settings == new_envelope_settings
                && final(self).channel4.envelope.current_volume == new_envelope_settings / 16
                && final(self).channel4.envelope.timer == new_envelope_settings & 0b111
                && final(self).channel4.dac_enabled == (new_envelope_settings & 0xF8 != 0)
                && final(self).channel4.enabled == (old(self).channel4.enabled && new_envelope_settings & 0xF8 != 0),
            final(self).channel1 == old(self).channel1,
            final(self).channel2 == old(self).channel2,
            final(self).channel3 == old(self).channel3,
            final(self).enabled == old(self).enabled,
            final(self).divider_apu == old(self).divider_apu,
    {
        if self.enabled {
            self.channel4.envelope.set_initial_settings(new_envelope_settings);
            self.channel4.envelope.reset_settings();

            let should_disable = self.channel4.envelope.should_disable_dac();

            self.channel4.set_dac_enabled(!should_disable);

            if should_disable {
                self.channel4.set_enabled(false);
            }
        }
    }

    pub fn audio_master_control(&self) -> (r: u8)
        ensures
            r == master_control_value(
                self.enabled,
                self.channel1.enabled,
                self.channel2.enabled,
                self.channel3.enabled,
                self.channel4.enabled,
            ),
    {
        let apu_enabled: u8 = if self.enabled { 0x80 } else { 0 };
        let ch4_enabled: u8 = if self.channel4.enabled { 0x08 } else { 0 };
        let ch3_enabled: u8 = if self.channel3.enabled { 0x04 } else { 0 };
        let ch2_enabled: u8 = if self.channel2.enabled { 0x02 } else { 0 };
        let ch1_enabled: u8 = if self.channel1.enabled { 0x01 } else { 0 };
        apu_enabled | 0b01110000 | ch4_enabled | ch3_enabled | ch2_enabled | ch1_enabled
    }

    /// Reading wave RAM: while the wave channel plays, only the byte it is reading can be seen,
    /// and on a DMG only at the moment it reads it.
    pub fn get_wave_ram_byte(&self, localized_address: u8) -> (r: u8)
        requires
            localized_address < 16,
            self.wf(),
        ensures
            !self.channel3.enabled ==> r == self.channel3.wave_pattern_ram@[localized_address as int],
            self.channel3.enabled ==> r == (if self.channel3.period.reloaded || self.cgb_mode {
                self.channel3.wave_pattern_ram@[(self.channel3.wave_position / 2) as int]
            } else {
                0xFF
            }),
    {
        if self.channel3.enabled {
            let address = self.channel3.wave_position / 2;
            if self.channel3.period.reloaded || self.cgb_mode {
                self.channel3.read_from_wave_ram(address)
            } else {
                0xFF
            }
        } else {
            self.channel3.read_from_wave_ram(localized_address)
        }
    }

    /// Writing wave RAM, with the same restrictions as reading it.
    pub fn set_wave_ram_byte(&mut self, localized_address: u8, new_value: u8)
        requires
            localized_address < 16,
            old(self).wf(),
        ensures
            final(self).wf(),
            !old(self).channel3.enabled ==> final(self).channel3.wave_pattern_ram@ == old(self).channel3.wave_pattern_ram@.update(localized_address as int, new_value),
            old(self).channel3.enabled && (old(self).channel3.period.reloaded || old(self).cgb_mode) ==> final(self).channel3.wave_pattern_ram@
                == old(self).channel3.wave_pattern_ram@.update((old(self).channel3.wave_position / 2) as int, new_value),
            old(self).channel3.enabled && !(old(self).channel3.period.reloaded || old(self).cgb_mode) ==> *final(self) == *old(self),
            *final(self) == (Apu { channel3: WaveChannel { wave_pattern_ram: final(self).channel3.wave_pattern_ram, ..old(self).channel3 }, ..*old(self) }),
    {
        if self.channel3.enabled {
            let address = self.channel3.wave_position / 2;
            if self.channel3.period.reloaded || self.cgb_mode {
                self.channel3.write_to_wave_ram(address, new_value);
            }
        } else {
            self.channel3.write_to_wave_ram(localized_address, new_value);
        }
    }

    /// Writing NR52: bit 7 powers the APU on or off; powering off resets it.
    pub fn set_audio_master_control(&mut self, new_audio_master_control: u8)
        requires
            old(self).wf(),
        ensures
            final(self).wf(),
            final(self).enabled == bit_is_set(new_audio_master_control, APU_ENABLED_INDEX),
            bit_is_set(new_audio_master_control, APU_ENABLED_INDEX) ==> *final(self) == (Apu { enabled: true, ..*old(self) }),
            !bit_is_set(new_audio_master_control, APU_ENABLED_INDEX) ==> final(self).sound_panning == 0
                && final(self).master_volume == 0 && !final(self).channel1.enabled && !final(self).channel2.enabled
                && !final(self).channel3.enabled && !final(self).channel4.enabled,
    {
        self.enabled = is_bit_set(new_audio_master_control, APU_ENABLED_INDEX);

        if !self.enabled {
            self.reset();
        }
    }

    /// Writing NR10: may disable channel 1 when leaving decrement mode.
    pub fn set_ch1_sweep_settings(&mut self, new_sweep_settings: u8)
        requires
            old(self).wf(),
        ensures
            final(self).wf(),
            !old(self).enabled ==> *final(self) == *old(self),
            old(self).enabled ==> final(self).channel1.sweep.initial_settings == new_sweep_settings
                && final(self).channel1.enabled == (old(self).channel1.enabled && !final(self).channel1.sweep.should_disable_channel),
            final(self).channel2 == old(self).channel2,
            final(self).channel3 == old(self).channel3,
            final(self).channel4 == old(self).channel4,
            final(self).enabled == old(self).enabled,
    {
        if self.enabled {
            self.channel1.sweep.update_initial_settings(new_sweep_settings);
            if self.channel1.sweep.should_disable_channel() {
                self.channel1.set_enabled(false);
            }
        }
    }

    /// Writing NR11: while the APU is off only a DMG accepts it, and only the length bits.
    pub fn set_ch1_length_settings(&mut self, new_length_settings: u8)
        requires
            old(self).wf(),
        ensures
            final(self).wf(),
            (old(self).enabled || !old(self).cgb_mode) ==> ({
                let settings = if old(self).enabled { new_length_settings } else { new_length_settings & 0x3F };
                &&& final(self).channel1.length.initial_settings == settings
                &&& final(self).channel1.length.timer == 64 - (settings & 0x3F)
                &&& *final(self) == Apu { channel1: PulseChannel { length: final(self).channel1.length, ..old(self).channel1 }, ..*old(self) }
            }),
            !(old(self).enabled || !old(self).cgb_mode) ==> *final(self) == *old(self),
    {
        if self.enabled || !self.cgb_mode {
            let new_initial_settings = if self.enabled {
                new_length_settings
            } else {
                new_length_settings & 0x3F
            };
            self.channel1.length.set_initial_settings(new_initial_settings);
            proof { crate::utils::lemma_u8_and_bound(new_initial_settings, 0x3F); }
            self.channel1.length.initialize_timer();
        }
    }

    pub fn set_ch1_period_low(&mut self, new_period_low: u8)
        ensures
            old(self).enabled ==> *final(self) == (Apu { channel1: PulseChannel { period: crate::apu::period::Period { low: new_period_low, ..old(self).channel1.period }, ..old(self).channel1 }, ..*old(self) }),
            !old(self).enabled ==> *final(self) == *old(self),
    {
        if self.enabled {
            self.channel1.period.set_low(new_period_low);
        }
    }

    /// Writing NR21, as NR11.
    pub fn set_ch2_length_settings(&mut self, new_length_settings: u8)
        requires
            old(self).wf(),
        ensures
            final(self).wf(),
            (old(self).enabled || !old(self).cgb_mode) ==> ({
                let settings = if old(self).enabled { new_length_settings } else { new_length_settings & 0x3F };
                &&& final(self).channel2.length.initial_settings == settings
                &&& final(self).channel2.length.timer == 64 - (settings & 0x3F)
                &&& *final(self) == Apu { channel2: PulseChannel { length: final(self).channel2.length, ..old(self).channel2 }, ..*old(self) }
            }),
            !(old(self).enabled || !old(self).cgb_mode) ==> *final(self) == *old(self),
    {
        if self.enabled || !self.cgb_mode {
            let new_initial_settings = if self.enabled {
                new_length_settings
            } else {
                new_length_settings & 0x3F
            };
            self.channel2.length.set_initial_settings(new_initial_settings);
            proof { crate::utils::lemma_u8_and_bound(new_initial_settings, 0x3F); }
            self.channel2.length.initialize_timer();
        }
    }

    pub fn set_ch2_period_low(&mut self, new_period_low: u8)
        ensures
            old(self).enabled ==> *final(self) == (Apu { channel2: PulseChannel { period: crate::apu::period::Period { low: new_period_low, ..old(self).channel2.period }, ..old(self).channel2 }, ..*old(self) }),
            !old(self).enabled ==> *final(self) == *old(self),
    {
        if self.enabled {
            self.channel2.period.set_low(new_period_low);
        }
    }

    /// Writing NR31: the whole byte is the initial length.
    pub fn set_ch3_length_settings(&mut self, new_length_settings: u8)
        requires
            old(self).wf(),
        ensures
            final(self).wf(),
            (old(self).enabled || !old(self).cgb_mode) ==> final(self).channel3.length.initial_settings == new_length_settings
                && final(self).channel3.length.timer == 256 - new_length_settings
                && *final(self) == (Apu { channel3: WaveChannel { length: final(self).channel3.length, ..old(self).channel3 }, ..*old(self) }),
            !(old(self).enabled || !old(self).cgb_mode) ==> *final(self) == *old(self),
    {
        if self.enabled || !self.cgb_mode {
            self.channel3.length.set_initial_settings(new_length_settings);
            self.channel3.length.initialize_timer();
        }
    }

    pub fn set_ch3_period_low(&mut self, new_period_low: u8)
        ensures
            old(self).enabled ==> *final(self) == (Apu { channel3: WaveChannel { period: crate::apu::period::Period { low: new_period_low, ..old(self).channel3.period }, ..old(self).channel3 }, ..*old(self) }),
            !old(self).enabled ==> *final(self) == *old(self),
    {
        if self.enabled {
            self.channel3.period.set_low(new_period_low);
        }
    }

    pub fn set_ch3_volume(&mut self, new_volume: u8)
        ensures
            old(self).enabled ==> *final(self) == (Apu { channel3: WaveChannel { volume: new_volume, ..old(self).channel3 }, ..*old(self) }),
            !old(self).enabled ==> *final(self) == *old(self),
    {
        if self.enabled {
            self.channel3.set_volume(new_volume);
        }
    }

    /// Writing NR41: the low six bits are the initial length.
    pub fn set_ch4_length_settings(&mut self, new_length_settings: u8)
        requires
            old(self).wf(),
        ensures
            final(self).wf(),
            (old(self).enabled || !old(self).cgb_mode) ==> final(self).channel4.length.initial_settings == new_length_settings
                && final(self).channel4.length.timer == 64 - (new_length_settings & 0x3F)
                && *final(self) == (Apu { channel4: NoiseChannel { length: final(self).channel4.length, ..old(self).channel4 }, ..*old(self) }),
            !(old(self).enabled || !old(self).cgb_mode) ==> *final(self) == *old(self),
    {
        if self.enabled || !self.cgb_mode {
            self.channel4.length.set_initial_settings(new_length_settings);
            proof { crate::utils::lemma_u8_and_bound(new_length_settings, 0x3F); }
            self.channel4.length.initialize_timer();
        }
    }

    pub fn set_ch4_polynomial(&mut self, new_polynomial: u8)
        ensures
            old(self).enabled ==> *final(self) == (Apu { channel4: NoiseChannel { polynomial: new_polynomial, ..old(self).channel4 }, ..*old(self) }),
            !old(self).enabled ==> *final(self) == *old(self),
    {
        if self.enabled {
            self.channel4.set_polynomial(new_polynomial);
        }
    }

    pub fn master_volume(&self) -> (r: u8)
        ensures
            r == self.master_volume,
    {
        self.master_volume
    }

    pub fn set_master_volume(&mut self, new_master_volume: u8)
        ensures
            old(self).enabled ==> *final(self) == (Apu { master_volume: new_master_volume, ..*old(self) }),
            !old(self).enabled ==> *final(self) == *old(self),
    {
        if self.enabled {
            self.master_volume = new_master_volume;
        }
    }

    pub fn sound_panning(&self) -> (r: u8)
        ensures
            r == self.sound_panning,
    {
        self.sound_panning
    }

    pub fn set_sound_panning(&mut self, new_sound_panning: u8)
        ensures
            old(self).enabled ==> *final(self) == (Apu { sound_panning: new_sound_panning, ..*old(self) }),
            !old(self).enabled ==> *final(self) == *old(self),
    {
        if self.enabled {
            self.sound_panning = new_sound_panning;
        }
    }

    pub fn set_audio_buffer_clock(&mut self, new_audio_buffer_clock: u8)
        ensures
            *final(self) == (Apu { audio_buffer_clock: new_audio_buffer_clock, ..*old(self) }),
    {
        self.audio_buffer_clock = new_audio_buffer_clock;
    }

    pub fn set_cgb_mode(&mut self, cgb_mode: bool)
        ensures
            *final(self) == (Apu { cgb_mode, ..*old(self) }),
    {
        self.cgb_mode = cgb_mode;
    }

    pub fn set_cgb_double_speed(&mut self, cgb_double_speed: bool)
        ensures
            *final(self) == (Apu { cgb_double_speed, ..*old(self) }),
    {
        self.cgb_double_speed = cgb_double_speed;
    }

    pub fn enabled(&self) -> (r: bool)
        ensures
            r == self.enabled,
    {
        self.enabled
    }

    pub fn set_enabled(&mut self, enabled: bool)
        ensures
            *final(self) == (Apu { enabled, ..*old(self) }),
    {
        self.enabled = enabled;
    }

    /// Hands out the machine cycles recorded since the last call.
    pub fn take_audio_ticks(&mut self) -> (ticks: Vec<AudioTick>)
        ensures
            ticks@ == old(self).audio_ticks@,
            final(self).audio_ticks@.len() == 0,
            *final(self) == (Apu { audio_ticks: final(self).audio_ticks, ..*old(self) }),
    {
        let mut ticks = Vec::new();
        std::mem::swap(&mut ticks, &mut self.audio_ticks);
        ticks
    }

    pub fn channel1(&mut self) -> (r: &mut PulseChannel)
        ensures
            *r == old(self).channel1,
            *final(self) == (Apu { channel1: *final(r), ..*old(self) }),
    {
        &mut self.channel1
    }

    pub fn channel1_readonly(&self) -> (r: &PulseChannel)
        ensures
            *r == self.channel1,
    {
        &self.channel1
    }

    pub fn channel2(&mut self) -> (r: &mut PulseChannel)
        ensures
            *r == old(self).channel2,
            *final(self) == (Apu { channel2: *final(r), ..*old(self) }),
    {
        &mut self.channel2
    }

    pub fn channel2_readonly(&self) -> (r: &PulseChannel)
        ensures
            *r == self.channel2,
    {
        &self.channel2
    }

    pub fn channel3(&mut self) -> (r: &mut WaveChannel)
        ensures
            *r == old(self).channel3,
            *final(self) == (Apu { channel3: *final(r), ..*old(self) }),
    {
        &mut self.channel3
    }

    pub fn channel3_readonly(&self) -> (r: &WaveChannel)
        ensures
            *r == self.channel3,
    {
        &self.channel3
    }

    pub fn channel4(&mut self) -> (r: &mut NoiseChannel)
        ensures
            *r == old(self).channel4,
            *final(self) == (Apu { channel4: *final(r), ..*old(self) }),
    {
        &mut self.channel4
    }

    pub fn channel4_readonly(&self) -> (r: &NoiseChannel)
        ensures
            *r == self.channel4,
    {
        &self.channel4
    }
}

} // verus!

pub mod envelope;
pub mod length;
pub mod noise;
pub mod period;
pub mod pulse;
pub mod sweep;
pub mod utils;
pub mod wave;

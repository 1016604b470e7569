//! The audio processing unit: its memory-mapped registers, the frame
//! sequencer that clocks envelopes, length counters and sweeps, the channel
//! timers, and the frame and DMC interrupts.

use vstd::prelude::*;
use crate::apu2a03::dmc::{Dmc, DMC_PERIOD_RATES_NTSC};
use crate::apu2a03::envelope::EnvelopeGenerator;
use crate::apu2a03::length_counter::{LengthCountedChannel, LengthCountedView, LengthCounter, LENGTH_TABLE};
use crate::apu2a03::noise::{NoiseWave, NOISE_PERIODS_TABLE};
use crate::apu2a03::sequencer::{lemma_clocked_view, SequencerView};
use crate::apu2a03::square::{audible_period, duty_sequence, SquarePulse, SquareView, Sweeper};
use crate::apu2a03::tone_source::TimedAPUChannel;
use crate::apu2a03::triangle::{TriangleView, TriangleWave};
use crate::bits::{lemma_low_bits, lemma_register_fields, lemma_register_masks};
use crate::common::Device;

verus! {

/// The registers of the APU.
#[derive(Clone, Copy, PartialEq, Eq, Debug, Structural)]
pub enum Register {
    Pulse1_1,
    Pulse1_2,
    Pulse1_3,
    Pulse1_4,
    Pulse2_1,
    Pulse2_2,
    Pulse2_3,
    Pulse2_4,
    Triangle1,
    /// unused
    Triangle2,
    Triangle3,
    Triangle4,
    Noise1,
    /// unused
    Noise2,
    Noise3,
    Noise4,
    DMC1,
    DMC2,
    DMC3,
    DMC4,
    Status,
    FrameCounter,
}

/// The register at an address: 0x4000-0x4013, 0x4015 and 0x4017.
pub open spec fn register_at(address: u16) -> Option<Register> {
    if address == 0x4000 { Some(Register::Pulse1_1) }
    else if address == 0x4001 { Some(Register::Pulse1_2) }
    else if address == 0x4002 { Some(Register::Pulse1_3) }
    else if address == 0x4003 { Some(Register::Pulse1_4) }
    else if address == 0x4004 { Some(Register::Pulse2_1) }
    else if address == 0x4005 { Some(Register::Pulse2_2) }
    else if address == 0x4006 { Some(Register::Pulse2_3) }
    else if address == 0x4007 { Some(Register::Pulse2_4) }
    else if address == 0x4008 { Some(Register::Triangle1) }
    else if address == 0x4009 { Some(Register::Triangle2) }
    else if address == 0x400A { Some(Register::Triangle3) }
    else if address == 0x400B { Some(Register::Triangle4) }
    else if address == 0x400C { Some(Register::Noise1) }
    else if address == 0x400D { Some(Register::Noise2) }
    else if address == 0x400E { Some(Register::Noise3) }
    else if address == 0x400F { Some(Register::Noise4) }
    else if address == 0x4010 { Some(Register::DMC1) }
    else if address == 0x4011 { Some(Register::DMC2) }
    else if address == 0x4012 { Some(Register::DMC3) }
    else if address == 0x4013 { Some(Register::DMC4) }
    else if address == 0x4015 { Some(Register::Status) }
    else if address == 0x4017 { Some(Register::FrameCounter) }
    else { None }
}

impl Register {
    pub fn from_address(address: u16) -> (r: Option<Register>)
        ensures
            r == register_at(address),
    {
        match address {
            0x4000 => Some(Register::Pulse1_1),
            0x4001 => Some(Register::Pulse1_2),
            0x4002 => Some(Register::Pulse1_3),
            0x4003 => Some(Register::Pulse1_4),
            0x4004 => Some(Register::Pulse2_1),
            0x4005 => Some(Register::Pulse2_2),
            0x4006 => Some(Register::Pulse2_3),
            0x4007 => Some(Register::Pulse2_4),
            0x4008 => Some(Register::Triangle1),
            0x4009 => Some(Register::Triangle2),
            0x400A => Some(Register::Triangle3),
            0x400B => Some(Register::Triangle4),
            0x400C => Some(Register::Noise1),
            0x400D => Some(Register::Noise2),
            0x400E => Some(Register::Noise3),
            0x400F => Some(Register::Noise4),
            0x4010 => Some(Register::DMC1),
            0x4011 => Some(Register::DMC2),
            0x4012 => Some(Register::DMC3),
            0x4013 => Some(Register::DMC4),
            0x4015 => Some(Register::Status),
            0x4017 => Some(Register::FrameCounter),
            _ => None,
        }
    }
}

/// The levels of the five channels at one moment, each 0 to 15 (the DMC 0
/// to 127); a length-counted channel is 0 while its counter is.
#[derive(Clone, Copy, PartialEq, Eq, Debug, Structural)]
pub struct ChannelLevels {
    pub square_pulse_1: u8,
    pub square_pulse_2: u8,
    pub triangle: u8,
    pub noise: u8,
    pub dmc: u8,
}

pub struct APU2A03 {
    pub square_pulse_1: LengthCountedChannel<SquarePulse>,
    pub square_pulse_2: LengthCountedChannel<SquarePulse>,
    pub triangle: LengthCountedChannel<TriangleWave>,
    pub noise: LengthCountedChannel<NoiseWave>,
    pub dmc: Dmc,
    pub is_4_step_squence_mode_hold_value: bool,
    pub is_4_step_squence_mode: bool,
    pub interrupt_inhibit_flag: bool,
    pub cycle: u16,
    pub wait_reset: i8,
    pub interrupt_flag: bool,
    pub request_interrupt_flag_change: bool,
}

/// The APU as values.
pub struct ApuView {
    pub square_pulse_1: LengthCountedView<SquareView>,
    pub square_pulse_2: LengthCountedView<SquareView>,
    pub triangle: LengthCountedView<TriangleView>,
    pub noise: LengthCountedView<NoiseWave>,
    pub dmc: Dmc,
    pub is_4_step_squence_mode_hold_value: bool,
    pub is_4_step_squence_mode: bool,
    pub interrupt_inhibit_flag: bool,
    pub cycle: u16,
    pub wait_reset: i8,
    pub interrupt_flag: bool,
    pub request_interrupt_flag_change: bool,
}

impl View for APU2A03 {
    type V = ApuView;

    open spec fn view(&self) -> ApuView {
        ApuView {
            square_pulse_1: self.square_pulse_1@,
            square_pulse_2: self.square_pulse_2@,
            triangle: self.triangle@,
            noise: self.noise@,
            dmc: self.dmc,
            is_4_step_squence_mode_hold_value: self.is_4_step_squence_mode_hold_value,
            is_4_step_squence_mode: self.is_4_step_squence_mode,
            interrupt_inhibit_flag: self.interrupt_inhibit_flag,
            cycle: self.cycle,
            wait_reset: self.wait_reset,
            interrupt_flag: self.interrupt_flag,
            request_interrupt_flag_change: self.request_interrupt_flag_change,
        }
    }
}

/// A length counter after a write that loads its length index.
pub open spec fn reloaded(l: LengthCounter, data: u8) -> LengthCounter {
    if l.enabled {
        LengthCounter { counter: LENGTH_TABLE@[((data >> 3u8) & 0x1F) as int], ..l }
    } else {
        l
    }
}

/// An envelope after a control write: volume, constant-volume flag, loop
/// (the length counter halt bit) and a pending start.
pub open spec fn envelope_control(e: EnvelopeGenerator, data: u8) -> EnvelopeGenerator {
    EnvelopeGenerator {
        divider_reload_value: data & 0xF,
        use_constant_volume: data & 0x10 != 0,
        loop_flag: data & 0x20 != 0,
        start_flag: true,
        ..e
    }
}

/// DDLC VVVV: duty, halt/loop, constant volume, volume.
pub open spec fn pulse_control(ch: LengthCountedView<SquareView>, data: u8) -> LengthCountedView<SquareView> {
    LengthCountedView {
        channel: SquareView {
            sequencer: SequencerView {
                sequence: duty_sequence(data >> 6u8),
                position: ch.channel.sequencer.position % 8,
            },
            envelope_generator: envelope_control(ch.channel.envelope_generator, data),
            ..ch.channel
        },
        length_counter: LengthCounter { halt: data & 0x20 != 0, ..ch.length_counter },
    }
}

/// EPPP NSSS: the sweep unit.
pub open spec fn pulse_sweep(ch: LengthCountedView<SquareView>, data: u8) -> LengthCountedView<SquareView> {
    LengthCountedView {
        channel: SquareView {
            sweeper: Sweeper {
                enabled: data & 0x80 != 0,
                divider_period_reload_value: (data >> 4u8) & 0b111,
                negative: data & 0x08 != 0,
                shift_count: data & 0b111,
                ..ch.channel.sweeper
            },
            ..ch.channel
        },
        ..ch
    }
}

/// A period with its low 8 bits replaced.
pub open spec fn period_low(period: u16, data: u8) -> u16 {
    (period & 0xFF00) | (data as u16)
}

/// A period with its high 3 bits replaced.
pub open spec fn period_high(period: u16, data: u8) -> u16 {
    (period & 0xFF) | (((data as u16) & 0b111) << 8u16)
}

/// LLLL LTTT (low byte): the low 8 bits of the period.
pub open spec fn pulse_timer_low(ch: LengthCountedView<SquareView>, data: u8) -> LengthCountedView<SquareView> {
    let period = period_low(ch.channel.period, data);
    LengthCountedView {
        channel: SquareView { period, muted: !audible_period(period as int), ..ch.channel },
        ..ch
    }
}

/// LLLL LHHH: the length index and the high 3 bits of the period; the
/// envelope restarts and the sequencer goes back to its first step.
pub open spec fn pulse_timer_high(ch: LengthCountedView<SquareView>, data: u8) -> LengthCountedView<SquareView> {
    let period = period_high(ch.channel.period, data);
    LengthCountedView {
        channel: SquareView {
            period,
            muted: !audible_period(period as int),
            envelope_generator: EnvelopeGenerator { start_flag: true, ..ch.channel.envelope_generator },
            sequencer: SequencerView { position: 0, ..ch.channel.sequencer },
            ..ch.channel
        },
        length_counter: reloaded(ch.length_counter, data),
    }
}

/// CRRR RRRR: the control (and length halt) flag and the linear counter's
/// reload value.
pub open spec fn triangle_control(ch: LengthCountedView<TriangleView>, data: u8) -> LengthCountedView<TriangleView> {
    LengthCountedView {
        channel: TriangleView {
            linear_counter_reload_value: data & 0x7F,
            linear_counter_control_flag: data & 0x80 != 0,
            ..ch.channel
        },
        length_counter: LengthCounter { halt: data & 0x80 != 0, ..ch.length_counter },
    }
}

pub open spec fn triangle_timer_low(ch: LengthCountedView<TriangleView>, data: u8) -> LengthCountedView<TriangleView> {
    let period = period_low(ch.channel.period, data);
    LengthCountedView { channel: TriangleView { period, muted: period < 2, ..ch.channel }, ..ch }
}

/// The length index and the high 3 bits of the period; the linear counter
/// is to be reloaded.
pub open spec fn triangle_timer_high(ch: LengthCountedView<TriangleView>, data: u8) -> LengthCountedView<TriangleView> {
    let period = period_high(ch.channel.period, data);
    LengthCountedView {
        channel: TriangleView {
            period,
            muted: period < 2,
            linear_counter_reload_flag: true,
            ..ch.channel
        },
        length_counter: reloaded(ch.length_counter, data),
    }
}

/// --LC VVVV: halt/loop, constant volume, volume.
pub open spec fn noise_control(ch: LengthCountedView<NoiseWave>, data: u8) -> LengthCountedView<NoiseWave> {
    LengthCountedView {
        channel: NoiseWave {
            envelope_generator: envelope_control(ch.channel.envelope_generator, data),
            ..ch.channel
        },
        length_counter: LengthCounter { halt: data & 0x20 != 0, ..ch.length_counter },
    }
}

/// M--- PPPP: the mode and the period index.
pub open spec fn noise_mode_period(ch: LengthCountedView<NoiseWave>, data: u8) -> LengthCountedView<NoiseWave> {
    LengthCountedView {
        channel: NoiseWave {
            mode_flag: data & 0x80 != 0,
            period: NOISE_PERIODS_TABLE@[(data & 0xF) as int],
            ..ch.channel
        },
        ..ch
    }
}

/// IL-- RRRR: IRQ enable, loop, rate.
pub open spec fn dmc_control(d: Dmc, data: u8) -> Dmc {
    let irq_enabled = data & 0x80 != 0;
    let set = Dmc {
        period: DMC_PERIOD_RATES_NTSC@[(data & 0xF) as int] / 2,
        loop_flag: data & 0x40 != 0,
        irq_enabled_flag: irq_enabled,
        ..d
    };
    if irq_enabled {
        set
    } else {
        Dmc { irq_pin_state: false, is_irq_change_requested: true, ..set }
    }
}

/// A length counter enabled by one bit of the status register.
pub open spec fn enabled_by(l: LengthCounter, on: bool) -> LengthCounter {
    if on {
        LengthCounter { enabled: true, ..l }
    } else {
        LengthCounter { enabled: false, counter: 0, ..l }
    }
}

/// The DMC after a status write: bit 4 clear stops the sample (silencing
/// the output once the buffer empties), set restarts it when it has ended;
/// the DMC interrupt is acknowledged either way.
pub open spec fn dmc_status(d: Dmc, data: u8) -> Dmc {
    let started = if data & 0x10 == 0 {
        Dmc { samples_remaining_bytes_counter: 0, silence_on_next_empty: true, ..d }
    } else if d.samples_remaining_bytes_counter == 0 {
        Dmc {
            samples_remaining_bytes_counter: d.samples_length,
            samples_address_counter: d.samples_address,
            ..d
        }
    } else {
        d
    };
    Dmc { irq_pin_state: false, is_irq_change_requested: true, ..started }
}

/// The APU after the CPU writes `data` to `register`.
pub open spec fn spec_write_register(v: ApuView, register: Register, data: u8) -> ApuView {
    match register {
        Register::Pulse1_1 => ApuView { square_pulse_1: pulse_control(v.square_pulse_1, data), ..v },
        Register::Pulse1_2 => ApuView { square_pulse_1: pulse_sweep(v.square_pulse_1, data), ..v },
        Register::Pulse1_3 => ApuView { square_pulse_1: pulse_timer_low(v.square_pulse_1, data), ..v },
        Register::Pulse1_4 => ApuView { square_pulse_1: pulse_timer_high(v.square_pulse_1, data), ..v },
        Register::Pulse2_1 => ApuView { square_pulse_2: pulse_control(v.square_pulse_2, data), ..v },
        Register::Pulse2_2 => ApuView { square_pulse_2: pulse_sweep(v.square_pulse_2, data), ..v },
        Register::Pulse2_3 => ApuView { square_pulse_2: pulse_timer_low(v.square_pulse_2, data), ..v },
        Register::Pulse2_4 => ApuView { square_pulse_2: pulse_timer_high(v.square_pulse_2, data), ..v },
        Register::Triangle1 => ApuView { triangle: triangle_control(v.triangle, data), ..v },
        Register::Triangle2 => v,
        Register::Triangle3 => ApuView { triangle: triangle_timer_low(v.triangle, data), ..v },
        Register::Triangle4 => ApuView { triangle: triangle_timer_high(v.triangle, data), ..v },
        Register::Noise1 => ApuView { noise: noise_control(v.noise, data), ..v },
        Register::Noise2 => v,
        Register::Noise3 => ApuView { noise: noise_mode_period(v.noise, data), ..v },
        Register::Noise4 => ApuView {
            noise: LengthCountedView { length_counter: reloaded(v.noise.length_counter, data), ..v.noise },
            ..v
        },
        Register::DMC1 => ApuView { dmc: dmc_control(v.dmc, data), ..v },
        Register::DMC2 => ApuView { dmc: Dmc { output_level: data & 0x7F, ..v.dmc }, ..v },
        Register::DMC3 => ApuView {
            dmc: Dmc { samples_address: (0xC000 + 64 * data) as u16, ..v.dmc },
            ..v
        },
        Register::DMC4 => ApuView { dmc: Dmc { samples_length: (16 * data + 1) as u16, ..v.dmc }, ..v },
        Register::Status => ApuView {
            square_pulse_1: LengthCountedView {
                length_counter: enabled_by(v.square_pulse_1.length_counter, data & 1 != 0),
                ..v.square_pulse_1
            },
            square_pulse_2: LengthCountedView {
                length_counter: enabled_by(v.square_pulse_2.length_counter, data & 2 != 0),
                ..v.square_pulse_2
            },
            triangle: LengthCountedView {
                length_counter: enabled_by(v.triangle.length_counter, data & 4 != 0),
                ..v.triangle
            },
            noise: LengthCountedView {
                length_counter: enabled_by(v.noise.length_counter, data & 8 != 0),
                ..v.noise
            },
            dmc: dmc_status(v.dmc, data),
            ..v
        },
        Register::FrameCounter => {
            let inhibit = data & 0x40 != 0;
            ApuView {
                is_4_step_squence_mode_hold_value: data & 0x80 == 0,
                interrupt_inhibit_flag: inhibit,
                interrupt_flag: if inhibit {
                    false
                } else {
                    v.interrupt_flag
                },
                request_interrupt_flag_change: inhibit || v.request_interrupt_flag_change,
                wait_reset: if v.cycle % 2 == 0 {
                    4
                } else {
                    3
                },
                ..v
            }
        },
    }
}

/// The frame sequencer's quarter-frame clock: the envelopes and the
/// triangle's linear counter.
pub open spec fn quarter_frame(v: ApuView) -> ApuView {
    ApuView {
        square_pulse_1: LengthCountedView {
            channel: SquareView {
                envelope_generator: v.square_pulse_1.channel.envelope_generator.spec_clocked(),
                ..v.square_pulse_1.channel
            },
            ..v.square_pulse_1
        },
        square_pulse_2: LengthCountedView {
            channel: SquareView {
                envelope_generator: v.square_pulse_2.channel.envelope_generator.spec_clocked(),
                ..v.square_pulse_2.channel
            },
            ..v.square_pulse_2
        },
        noise: LengthCountedView {
            channel: NoiseWave {
                envelope_generator: v.noise.channel.envelope_generator.spec_clocked(),
                ..v.noise.channel
            },
            ..v.noise
        },
        triangle: LengthCountedView { channel: v.triangle.channel.spec_linear_clocked(), ..v.triangle },
        ..v
    }
}

/// The frame sequencer's half-frame clock: the length counters and the
/// sweep units.
pub open spec fn half_frame(v: ApuView) -> ApuView {
    ApuView {
        square_pulse_1: LengthCountedView {
            channel: v.square_pulse_1.channel.spec_swept(),
            length_counter: v.square_pulse_1.length_counter.spec_decremented(),
        },
        square_pulse_2: LengthCountedView {
            channel: v.square_pulse_2.channel.spec_swept(),
            length_counter: v.square_pulse_2.length_counter.spec_decremented(),
        },
        triangle: LengthCountedView {
            length_counter: v.triangle.length_counter.spec_decremented(),
            ..v.triangle
        },
        noise: LengthCountedView { length_counter: v.noise.length_counter.spec_decremented(), ..v.noise },
        ..v
    }
}

/// The frame interrupt is raised unless inhibited.
pub open spec fn frame_irq(v: ApuView) -> ApuView {
    if !v.interrupt_inhibit_flag {
        ApuView { interrupt_flag: true, request_interrupt_flag_change: true, ..v }
    } else {
        v
    }
}

/// The countdown after a frame counter write: at 0 the sequence restarts
/// in the mode written, clocking everything at once in 5-step mode.
pub open spec fn after_wait_reset(v: ApuView) -> ApuView {
    if v.wait_reset < 0 {
        v
    } else if v.wait_reset == 0 {
        let restarted = ApuView {
            cycle: 0,
            wait_reset: -1i8,
            is_4_step_squence_mode: v.is_4_step_squence_mode_hold_value,
            ..v
        };
        if !restarted.is_4_step_squence_mode {
            half_frame(quarter_frame(restarted))
        } else {
            restarted
        }
    } else {
        ApuView { wait_reset: (v.wait_reset - 1) as i8, ..v }
    }
}

/// The channels' levels: a length-counted channel is 0 while its counter is.
pub open spec fn levels_of(v: ApuView) -> ChannelLevels {
    ChannelLevels {
        square_pulse_1: if v.square_pulse_1.length_counter.counter == 0 {
            0
        } else {
            v.square_pulse_1.channel.spec_level()
        },
        square_pulse_2: if v.square_pulse_2.length_counter.counter == 0 {
            0
        } else {
            v.square_pulse_2.channel.spec_level()
        },
        triangle: if v.triangle.length_counter.counter == 0 {
            0
        } else {
            v.triangle.channel.spec_level()
        },
        noise: if v.noise.length_counter.counter == 0 {
            0
        } else {
            v.noise.channel.spec_level()
        },
        dmc: v.dmc.output_level & 0x7F,
    }
}

/// The timers: the triangle's on every CPU cycle, the others on even ones.
pub open spec fn timers(v: ApuView) -> ApuView {
    let t = ApuView {
        triangle: LengthCountedView { channel: v.triangle.channel.spec_timer_clocked(), ..v.triangle },
        ..v
    };
    if v.cycle % 2 == 0 {
        ApuView {
            square_pulse_1: LengthCountedView {
                channel: v.square_pulse_1.channel.spec_timer_clocked(),
                ..v.square_pulse_1
            },
            square_pulse_2: LengthCountedView {
                channel: v.square_pulse_2.channel.spec_timer_clocked(),
                ..v.square_pulse_2
            },
            noise: LengthCountedView { channel: v.noise.channel.spec_timer_clock(), ..v.noise },
            dmc: v.dmc.spec_timer_clock(),
            ..t
        }
    } else {
        t
    }
}

/// The frame sequencer at a cycle (counted in CPU cycles): quarter frames
/// at 7455, 14913, 22371 and the end, half frames at 14913 and the end;
/// the 4-step sequence ends at 29829 (raising the frame interrupt at 29828
/// to 29830) and restarts at 29830, the 5-step one ends at 37281 and
/// restarts at 37282.
pub open spec fn frame_step(v: ApuView) -> ApuView {
    let c = v.cycle;
    if c == 7455 {
        quarter_frame(v)
    } else if c == 14913 {
        half_frame(quarter_frame(v))
    } else if c == 22371 {
        quarter_frame(v)
    } else if v.is_4_step_squence_mode && c == 29828 {
        frame_irq(v)
    } else if v.is_4_step_squence_mode && c == 29829 {
        frame_irq(half_frame(quarter_frame(v)))
    } else if v.is_4_step_squence_mode && c == 29830 {
        ApuView { cycle: 0, ..frame_irq(v) }
    } else if !v.is_4_step_squence_mode && c == 37281 {
        half_frame(quarter_frame(v))
    } else if !v.is_4_step_squence_mode && c == 37282 {
        ApuView { cycle: 0, ..v }
    } else {
        v
    }
}

/// One CPU cycle of the APU, and the levels at the moment the mixer samples
/// them (after the frame counter's countdown, before the timers).
pub open spec fn spec_clock(v: ApuView) -> (ApuView, ChannelLevels) {
    let r = after_wait_reset(v);
    let t = timers(r);
    (frame_step(ApuView { cycle: (t.cycle + 1) as u16, ..t }), levels_of(r))
}

/// The status byte: the DMC interrupt (bit 7), the frame interrupt (6), the
/// DMC sample still playing (4), and the length counters of noise (3),
/// triangle (2) and the two pulses (1, 0) not at 0.
pub open spec fn status_byte(v: ApuView) -> u8 {
    ((if v.dmc.irq_pin_state { 0x80int } else { 0 }) + (if v.interrupt_flag { 0x40int } else { 0 })
        + (if v.dmc.samples_remaining_bytes_counter > 0 { 0x10int } else { 0 }) + (if v.noise.length_counter.counter
        != 0 { 8int } else { 0 }) + (if v.triangle.length_counter.counter != 0 { 4int } else { 0 }) + (
    if v.square_pulse_2.length_counter.counter != 0 { 2int } else { 0 }) + (
    if v.square_pulse_1.length_counter.counter != 0 { 1int } else { 0 })) as u8
}

impl APU2A03 {
    /// The channels keep their invariants and the frame sequencer's cycle
    /// is below the end of its sequence.
    pub open spec fn wf(&self) -> bool {
        &&& self.square_pulse_1.channel.wf()
        &&& self.square_pulse_2.channel.wf()
        &&& self.triangle.channel.wf()
        &&& self.noise.channel.period < 0xFFFF
        &&& if self.is_4_step_squence_mode {
            self.cycle < 29830
        } else {
            self.cycle < 37282
        }
    }

    pub fn new() -> (apu: Self)
        ensures
            apu.wf(),
            apu.dmc == Dmc::spec_new(),
            apu.cycle == 0 && apu.wait_reset == 0,
            !apu.is_4_step_squence_mode_hold_value && !apu.is_4_step_squence_mode
                && !apu.interrupt_inhibit_flag,
            !apu.interrupt_flag && !apu.request_interrupt_flag_change,
            apu.square_pulse_1.length_counter == LengthCounter::spec_new(),
            apu.square_pulse_2.length_counter == LengthCounter::spec_new(),
            apu.triangle.length_counter == LengthCounter::spec_new(),
            apu.noise.length_counter == LengthCounter::spec_new(),
    {
        Self {
            square_pulse_1: LengthCountedChannel::new(SquarePulse::new()),
            square_pulse_2: LengthCountedChannel::new(SquarePulse::new()),
            triangle: LengthCountedChannel::new(TriangleWave::new()),
            noise: LengthCountedChannel::new(NoiseWave::new()),
            dmc: Dmc::new(),
            is_4_step_squence_mode_hold_value: false,
            is_4_step_squence_mode: false,
            interrupt_inhibit_flag: false,
            cycle: 0,
            wait_reset: 0,
            interrupt_flag: false,
            request_interrupt_flag_change: false,
        }
    }

    fn write_pulse_control(ch: &mut LengthCountedChannel<SquarePulse>, data: u8)
        requires
            old(ch).channel.wf(),
        ensures
            final(ch).channel.wf(),
            final(ch)@ == pulse_control(old(ch)@, data),
    {
        let duty_cycle_index = data >> 6;
        let volume = data & 0xF;
        let use_volume = data & 0x10 != 0;
        let halt = data & 0x20 != 0;
        proof {
            lemma_register_masks(data);
            lemma_register_fields(data);
        }
        ch.channel.set_duty_cycle_index(duty_cycle_index);
        ch.channel.envelope_generator.set_volume(volume, use_volume);
        ch.length_counter.set_halt(halt);
        ch.channel.envelope_generator.set_loop_flag(halt);
        ch.channel.envelope_generator.set_start_flag(true);
    }

    fn write_pulse_timer_low(ch: &mut LengthCountedChannel<SquarePulse>, data: u8)
        requires
            old(ch).channel.wf(),
        ensures
            final(ch).channel.wf(),
            final(ch)@ == pulse_timer_low(old(ch)@, data),
    {
        let period = ch.channel.get_period();
        // lower timer bits
        ch.channel.set_period((period & 0xFF00) | data as u16);
    }

    fn write_pulse_timer_high(ch: &mut LengthCountedChannel<SquarePulse>, data: u8)
        requires
            old(ch).channel.wf(),
        ensures
            final(ch).channel.wf(),
            final(ch)@ == pulse_timer_high(old(ch)@, data),
    {
        ch.length_counter.reload_counter(data >> 3);
        assert((data >> 3u8) & 0x1F == (data >> 3u8) & 0x1F);
        let period = ch.channel.get_period();
        // high timer bits
        ch.channel.set_period((period & 0xFF) | ((data as u16 & 0b111) << 8));
        ch.channel.envelope_generator.set_start_flag(true);
        // reset pulse
        ch.channel.reset();
    }

    fn write_triangle(ch: &mut LengthCountedChannel<TriangleWave>, register: Register, data: u8)
        requires
            old(ch).channel.wf(),
            register == Register::Triangle1 || register == Register::Triangle3 || register
                == Register::Triangle4,
        ensures
            final(ch).channel.wf(),
            register == Register::Triangle1 ==> final(ch)@ == triangle_control(old(ch)@, data),
            register == Register::Triangle3 ==> final(ch)@ == triangle_timer_low(old(ch)@, data),
            register == Register::Triangle4 ==> final(ch)@ == triangle_timer_high(old(ch)@, data),
    {
        if register == Register::Triangle1 {
            ch.channel.set_linear_counter_reload_value(data & 0x7F);
            ch.channel.set_linear_counter_control_flag(data & 0x80 != 0);
            ch.length_counter.set_halt(data & 0x80 != 0);
        } else if register == Register::Triangle3 {
            let period = ch.channel.get_period();
            // lower timer bits
            ch.channel.set_period((period & 0xFF00) | data as u16);
        } else {
            ch.length_counter.reload_counter(data >> 3);
            let period = ch.channel.get_period();
            // high timer bits
            ch.channel.set_period((period & 0xFF) | ((data as u16 & 0b111) << 8));
            ch.channel.set_linear_counter_reload_flag(true);
        }
    }

    fn write_noise(ch: &mut LengthCountedChannel<NoiseWave>, register: Register, data: u8)
        requires
            register == Register::Noise1 || register == Register::Noise3 || register == Register::Noise4,
            old(ch).channel.period < 0xFFFF,
        ensures
            final(ch).channel.period < 0xFFFF,
            register == Register::Noise1 ==> final(ch)@ == noise_control(old(ch)@, data),
            register == Register::Noise3 ==> final(ch)@ == noise_mode_period(old(ch)@, data),
            register == Register::Noise4 ==> final(ch)@ == (LengthCountedView {
                length_counter: reloaded(old(ch)@.length_counter, data),
                ..old(ch)@
            }),
    {
        if register == Register::Noise1 {
            let volume = data & 0xF;
            let use_volume = data & 0x10 != 0;
            let halt = data & 0x20 != 0;
            proof {
                lemma_register_masks(data);
            }
            ch.channel.envelope_generator.set_volume(volume, use_volume);
            ch.length_counter.set_halt(halt);
            ch.channel.envelope_generator.set_loop_flag(halt);
            ch.channel.envelope_generator.set_start_flag(true);
        } else if register == Register::Noise3 {
            ch.channel.set_mode_flag(data & 0x80 != 0);
            ch.channel.set_period(data & 0xF);
            proof {
                lemma_register_masks(data);
            }
        } else {
            ch.length_counter.reload_counter(data >> 3);
        }
    }

    /// A CPU write of `data` to a register.
    pub fn write_register(&mut self, register: Register, data: u8)
        requires
            old(self).wf(),
        ensures
            final(self).wf(),
            final(self)@ == spec_write_register(old(self)@, register, data),
    {
        match register {
            Register::Pulse1_1 | Register::Pulse1_2 | Register::Pulse1_3 | Register::Pulse1_4 => {
                self.write_pulse_1(register, data)
            },
            Register::Pulse2_1 | Register::Pulse2_2 | Register::Pulse2_3 | Register::Pulse2_4 => {
                self.write_pulse_2(register, data)
            },
            Register::Triangle1 | Register::Triangle3 | Register::Triangle4 => {
                let ghost before = *self;
                Self::write_triangle(&mut self.triangle, register, data);
                proof {
                    lemma_only_triangle_changed(before, *self);
                }
            },
            Register::Triangle2 => {
                // unused
            },
            Register::Noise1 | Register::Noise3 | Register::Noise4 => {
                let ghost before = *self;
                Self::write_noise(&mut self.noise, register, data);
                proof {
                    lemma_only_noise_changed(before, *self);
                }
            },
            Register::Noise2 => {
                // unused
            },
            Register::DMC1 | Register::DMC2 | Register::DMC3 | Register::DMC4 => {
                let ghost before = *self;
                self.write_dmc(register, data);
                proof {
                    lemma_only_dmc_changed(before, *self);
                }
            },
            Register::Status => {
                let ghost before = *self;
                self.write_status(data);
                proof {
                    lemma_status_view(before, *self, data);
                }
            },
            Register::FrameCounter => {
                self.is_4_step_squence_mode_hold_value = data & 0x80 == 0;
                self.interrupt_inhibit_flag = data & 0x40 != 0;
                if self.interrupt_inhibit_flag {
                    self.interrupt_flag = false;
                    self.request_interrupt_flag_change = true;
                }
                self.wait_reset = if self.cycle % 2 == 0 { 4 } else { 3 };
            },
        }
    }

    fn write_pulse_1(&mut self, register: Register, data: u8)
        requires
            old(self).wf(),
            register == Register::Pulse1_1 || register == Register::Pulse1_2 || register
                == Register::Pulse1_3 || register == Register::Pulse1_4,
        ensures
            final(self).wf(),
            final(self)@ == spec_write_register(old(self)@, register, data),
    {
        let ghost before = *self;
        if register == Register::Pulse1_1 {
            Self::write_pulse_control(&mut self.square_pulse_1, data);
        } else if register == Register::Pulse1_2 {
            // sweep
            self.square_pulse_1.channel.set_sweeper_data(data);
        } else if register == Register::Pulse1_3 {
            Self::write_pulse_timer_low(&mut self.square_pulse_1, data);
        } else {
            Self::write_pulse_timer_high(&mut self.square_pulse_1, data);
        }
        proof {
            lemma_only_pulse_1_changed(before, *self);
        }
    }

    fn write_pulse_2(&mut self, register: Register, data: u8)
        requires
            old(self).wf(),
            register == Register::Pulse2_1 || register == Register::Pulse2_2 || register
                == Register::Pulse2_3 || register == Register::Pulse2_4,
        ensures
            final(self).wf(),
            final(self)@ == spec_write_register(old(self)@, register, data),
    {
        let ghost before = *self;
        if register == Register::Pulse2_1 {
            Self::write_pulse_control(&mut self.square_pulse_2, data);
        } else if register == Register::Pulse2_2 {
            // sweep
            self.square_pulse_2.channel.set_sweeper_data(data);
        } else if register == Register::Pulse2_3 {
            Self::write_pulse_timer_low(&mut self.square_pulse_2, data);
        } else {
            Self::write_pulse_timer_high(&mut self.square_pulse_2, data);
        }
        proof {
            lemma_only_pulse_2_changed(before, *self);
        }
    }

    fn write_dmc(&mut self, register: Register, data: u8)
        requires
            register == Register::DMC1 || register == Register::DMC2 || register == Register::DMC3
                || register == Register::DMC4,
        ensures
            final(self).dmc == spec_write_register(old(self)@, register, data).dmc,
            final(self).square_pulse_1 == old(self).square_pulse_1,
            final(self).square_pulse_2 == old(self).square_pulse_2,
            final(self).triangle == old(self).triangle,
            final(self).noise == old(self).noise,
            final(self).is_4_step_squence_mode_hold_value == old(self).is_4_step_squence_mode_hold_value,
            final(self).is_4_step_squence_mode == old(self).is_4_step_squence_mode,
            final(self).interrupt_inhibit_flag == old(self).interrupt_inhibit_flag,
            final(self).cycle == old(self).cycle,
            final(self).wait_reset == old(self).wait_reset,
            final(self).interrupt_flag == old(self).interrupt_flag,
            final(self).request_interrupt_flag_change == old(self).request_interrupt_flag_change,
    {
        if register == Register::DMC1 {
            let rate_index = data & 0xF;
            let loop_flag = data & 0x40 != 0;
            let irq_enabled = data & 0x80 != 0;
            self.dmc.set_rate_index(rate_index);
            self.dmc.set_loop_flag(loop_flag);
            self.dmc.set_irq_enabled_flag(irq_enabled);
            proof {
                lemma_register_masks(data);
            }
        } else if register == Register::DMC2 {
            self.dmc.set_direct_output_level_load(data & 0x7F);
            proof {
                lemma_register_masks(data);
            }
        } else if register == Register::DMC3 {
            self.dmc.set_samples_address(data);
        } else {
            self.dmc.set_samples_length(data);
        }
    }

    /// Envelopes and the triangle's linear counter.
    fn generate_quarter_frame_clock(&mut self)
        requires
            old(self).wf(),
        ensures
            final(self).wf(),
            final(self)@ == quarter_frame(old(self)@),
            final(self).dmc == old(self).dmc,
    {
        self.square_pulse_1.channel.clock_envlope();
        self.square_pulse_2.channel.clock_envlope();
        self.noise.channel.clock_envlope();
        self.triangle.channel.clock_linear_counter();
    }

    /// Length counters and sweep units.
    fn generate_half_frame_clock(&mut self)
        requires
            old(self).wf(),
        ensures
            final(self).wf(),
            final(self)@ == half_frame(old(self)@),
            final(self).dmc == old(self).dmc,
    {
        self.square_pulse_1.length_counter.decrement();
        self.square_pulse_1.channel.clock_sweeper();
        self.square_pulse_2.length_counter.decrement();
        self.square_pulse_2.channel.clock_sweeper();
        self.triangle.length_counter.decrement();
        self.noise.length_counter.decrement();
    }

    fn update_irq_pin(&mut self)
        requires
            old(self).wf(),
        ensures
            final(self).wf(),
            final(self)@ == frame_irq(old(self)@),
    {
        if !self.interrupt_inhibit_flag {
            self.interrupt_flag = true;
            self.request_interrupt_flag_change = true;
        }
    }

    /// The levels of the five channels now.
    pub fn channel_levels(&self) -> (levels: ChannelLevels)
        requires
            self.wf(),
        ensures
            levels == levels_of(self@),
    {
        ChannelLevels {
            square_pulse_1: if self.square_pulse_1.length_counter.counter() == 0 {
                0
            } else {
                self.square_pulse_1.channel.output_level()
            },
            square_pulse_2: if self.square_pulse_2.length_counter.counter() == 0 {
                0
            } else {
                self.square_pulse_2.channel.output_level()
            },
            triangle: if self.triangle.length_counter.counter() == 0 {
                0
            } else {
                self.triangle.channel.output_level()
            },
            noise: if self.noise.length_counter.counter() == 0 {
                0
            } else {
                self.noise.channel.output_level()
            },
            dmc: self.dmc.output_level(),
        }
    }

    /// The frame counter's countdown after a write to it.
    fn clock_wait_reset(&mut self)
        requires
            old(self).wf(),
        ensures
            final(self).wf(),
            final(self)@ == after_wait_reset(old(self)@),
            final(self).dmc == old(self).dmc,
            old(self).wait_reset == 0 ==> final(self).cycle == 0,
            old(self).wait_reset != 0 ==> final(self).cycle == old(self).cycle,
    {
        if self.wait_reset < 0 {
        } else if self.wait_reset == 0 {
            self.cycle = 0;
            self.wait_reset = -1;
            self.is_4_step_squence_mode = self.is_4_step_squence_mode_hold_value;
            if !self.is_4_step_squence_mode {
                self.generate_quarter_frame_clock();
                self.generate_half_frame_clock();
            }
        } else {
            self.wait_reset -= 1;
        }
    }

    /// The channel timers: the triangle's every CPU cycle, the others every
    /// other cycle.
    fn clock_timers(&mut self)
        requires
            old(self).wf(),
        ensures
            final(self).wf(),
            final(self)@ == timers(old(self)@),
    {
        let ghost before = *self;
        // clocked on every CPU cycle
        self.triangle.timer_clock();
        if self.cycle % 2 == 0 {
            self.square_pulse_1.timer_clock();
            self.square_pulse_2.timer_clock();
            self.noise.timer_clock();
            self.dmc.timer_clock();
        }
        proof {
            lemma_timers_view(before, *self);
        }
    }

    /// The frame sequencer after the cycle count moved on.
    fn clock_frame_sequencer(&mut self)
        requires
            old(self).wf() || (old(self).is_4_step_squence_mode && old(self).cycle == 29830) || (!old(
                self,
            ).is_4_step_squence_mode && old(self).cycle == 37282),
            old(self).square_pulse_1.channel.wf(),
            old(self).square_pulse_2.channel.wf(),
            old(self).triangle.channel.wf(),
            old(self).noise.channel.period < 0xFFFF,
        ensures
            final(self).wf(),
            final(self)@ == frame_step(old(self)@),
    {
        // this is clocked in every CPU cycle, so the numbers are multiplied by 2
        if self.cycle == 7455 {
            self.generate_quarter_frame_clock();
        } else if self.cycle == 14913 {
            self.generate_quarter_frame_clock();
            self.generate_half_frame_clock();
        } else if self.cycle == 22371 {
            self.generate_quarter_frame_clock();
        } else if self.is_4_step_squence_mode && self.cycle == 29828 {
            self.update_irq_pin();
        } else if self.is_4_step_squence_mode && self.cycle == 29829 {
            self.generate_quarter_frame_clock();
            self.generate_half_frame_clock();
            self.update_irq_pin();
        } else if self.is_4_step_squence_mode && self.cycle == 29830 {
            self.cycle = 0;
            self.update_irq_pin();
        } else if !self.is_4_step_squence_mode && self.cycle == 37281 {
            self.generate_quarter_frame_clock();
            self.generate_half_frame_clock();
        } else if !self.is_4_step_squence_mode && self.cycle == 37282 {
            self.cycle = 0;
        }
    }

    /// Clocks the APU at the CPU clock rate, and gives the channels' levels
    /// at the moment the mixer samples them.
    pub fn clock(&mut self) -> (levels: ChannelLevels)
        requires
            old(self).wf(),
        ensures
            final(self).wf(),
            (final(self)@, levels) == spec_clock(old(self)@),
    {
        self.clock_wait_reset();
        let levels = self.channel_levels();
        self.clock_timers();
        self.cycle += 1;
        self.clock_frame_sequencer();
        levels
    }

    /// A CPU read of a register: the status register reports and clears the
    /// frame interrupt; the others read as 0.
    pub fn read_register(&mut self, register: Register) -> (data: u8)
        requires
            old(self).wf(),
        ensures
            final(self).wf(),
            register == Register::Status ==> data == status_byte(old(self)@) && final(self)@ == (ApuView {
                interrupt_flag: false,
                request_interrupt_flag_change: true,
                ..old(self)@
            }),
            register != Register::Status ==> data == 0 && final(self)@ == old(self)@,
    {
        match register {
            Register::Status => {
                let sqr1_length_counter: u8 = if self.square_pulse_1.length_counter.counter() != 0 { 1 } else { 0 };
                let sqr2_length_counter: u8 = if self.square_pulse_2.length_counter.counter() != 0 { 1 } else { 0 };
                let triangle_length_counter: u8 = if self.triangle.length_counter.counter() != 0 { 1 } else { 0 };
                let noise_length_counter: u8 = if self.noise.length_counter.counter() != 0 { 1 } else { 0 };
                let dmc_active: u8 = if self.dmc.sample_remaining_bytes_more_than_0() { 1 } else { 0 };
                let dmc_interrupt: u8 = if self.dmc.get_irq_pin_state() { 1 } else { 0 };
                let frame_interrupt: u8 = if self.interrupt_flag { 1 } else { 0 };
                self.interrupt_flag = false;
                self.request_interrupt_flag_change = true;
                let data = dmc_interrupt << 7 | frame_interrupt << 6 | dmc_active << 4 | noise_length_counter << 3
                    | triangle_length_counter << 2 | sqr2_length_counter << 1 | sqr1_length_counter;
                assert(data as int == 0x80 * dmc_interrupt + 0x40 * frame_interrupt + 0x10 * dmc_active + 8
                    * noise_length_counter + 4 * triangle_length_counter + 2 * sqr2_length_counter
                    + sqr1_length_counter) by (bit_vector)
                    requires
                        dmc_interrupt <= 1 && frame_interrupt <= 1 && dmc_active <= 1 && noise_length_counter <= 1
                            && triangle_length_counter <= 1 && sqr2_length_counter <= 1 && sqr1_length_counter <= 1,
                        data == dmc_interrupt << 7 | frame_interrupt << 6 | dmc_active << 4 | noise_length_counter
                            << 3 | triangle_length_counter << 2 | sqr2_length_counter << 1 | sqr1_length_counter,
                ;
                data
            },
            _ => {
                // unreadable
                0
            },
        }
    }

    /// A CPU read at an address of the APU.
    pub fn read(&mut self, address: u16, device: Device) -> (data: u8)
        requires
            old(self).wf(),
            device == Device::CPU,
            register_at(address) is Some,
        ensures
            final(self).wf(),
            register_at(address) == Some(Register::Status) ==> data == status_byte(old(self)@),
            register_at(address) != Some(Register::Status) ==> data == 0 && final(self)@ == old(self)@,
    {
        // only the CPU is allowed to read from APU registers
        match Register::from_address(address) {
            Some(register) => self.read_register(register),
            None => 0,
        }
    }

    /// A CPU write at an address of the APU.
    pub fn write(&mut self, address: u16, data: u8, device: Device)
        requires
            old(self).wf(),
            device == Device::CPU,
            register_at(address) is Some,
        ensures
            final(self).wf(),
            final(self)@ == spec_write_register(old(self)@, register_at(address).unwrap(), data),
    {
        // only the CPU is allowed to write to APU registers
        match Register::from_address(address) {
            Some(register) => self.write_register(register, data),
            None => {},
        }
    }

    /// A change of the IRQ line is waiting to be seen by the CPU.
    pub fn is_irq_change_requested(&self) -> (r: bool)
        ensures
            r == (self.request_interrupt_flag_change || self.dmc.is_irq_change_requested),
    {
        let dmc_irq_request = self.dmc.is_irq_change_requested();
        self.request_interrupt_flag_change || dmc_irq_request
    }

    /// The IRQ line: the frame or the DMC interrupt.
    pub fn irq_pin_state(&self) -> (r: bool)
        ensures
            r == (self.interrupt_flag || self.dmc.irq_pin_state),
    {
        let dmc_irq = self.dmc.get_irq_pin_state();
        self.interrupt_flag || dmc_irq
    }

    /// The CPU has seen the IRQ line.
    pub fn clear_irq_request_pin(&mut self)
        requires
            old(self).wf(),
        ensures
            final(self).wf(),
            final(self)@ == (ApuView {
                request_interrupt_flag_change: false,
                dmc: Dmc { is_irq_change_requested: false, ..old(self)@.dmc },
                ..old(self)@
            }),
    {
        self.request_interrupt_flag_change = false;
        self.dmc.clear_irq_request_pin();
    }

    /// The address of sample memory the DMC wants read next.
    pub fn request_dmc_reader_read(&self) -> (r: Option<u16>)
        ensures
            r == (if self.dmc.sample_buffer_empty && self.dmc.samples_remaining_bytes_counter != 0 {
                Some(self.dmc.samples_address_counter)
            } else {
                None
            }),
    {
        self.dmc.request_dmc_reader_read()
    }

    /// Hands the DMC the byte it asked for.
    pub fn submit_dmc_buffer_byte(&mut self, byte: u8)
        requires
            old(self).wf(),
            old(self).dmc.sample_buffer_empty,
        ensures
            final(self).wf(),
            final(self)@ == (ApuView { dmc: old(self).dmc.spec_after_byte(byte), ..old(self)@ }),
    {
        self.dmc.submit_buffer_byte(byte);
    }

    /// Enables and disables the length counters and the DMC sample.
    #[verifier::rlimit(100)]
    fn write_status(&mut self, data: u8)
        requires
            old(self).wf(),
        ensures
            final(self).square_pulse_1.channel == old(self).square_pulse_1.channel,
            final(self).square_pulse_2.channel == old(self).square_pulse_2.channel,
            final(self).triangle.channel == old(self).triangle.channel,
            final(self).noise.channel == old(self).noise.channel,
            final(self).square_pulse_1.length_counter == enabled_by(old(self).square_pulse_1.length_counter, data & 1 != 0),
            final(self).square_pulse_2.length_counter == enabled_by(old(self).square_pulse_2.length_counter, data & 2 != 0),
            final(self).triangle.length_counter == enabled_by(old(self).triangle.length_counter, data & 4 != 0),
            final(self).noise.length_counter == enabled_by(old(self).noise.length_counter, data & 8 != 0),
            final(self).dmc == dmc_status(old(self).dmc, data),
            final(self).is_4_step_squence_mode_hold_value == old(self).is_4_step_squence_mode_hold_value,
            final(self).is_4_step_squence_mode == old(self).is_4_step_squence_mode,
            final(self).interrupt_inhibit_flag == old(self).interrupt_inhibit_flag,
            final(self).cycle == old(self).cycle,
            final(self).wait_reset == old(self).wait_reset,
            final(self).interrupt_flag == old(self).interrupt_flag,
            final(self).request_interrupt_flag_change == old(self).request_interrupt_flag_change,
    {
        proof {
            lemma_low_bits(data);
        }
        // enable and disable length counters
        let mut length_counter = self.square_pulse_1.length_counter;
        length_counter.set_enabled((data >> 0 & 1) != 0);
        self.square_pulse_1.length_counter = length_counter;
        let mut length_counter = self.square_pulse_2.length_counter;
        length_counter.set_enabled((data >> 1 & 1) != 0);
        self.square_pulse_2.length_counter = length_counter;
        let mut length_counter = self.triangle.length_counter;
        length_counter.set_enabled((data >> 2 & 1) != 0);
        self.triangle.length_counter = length_counter;
        let mut length_counter = self.noise.length_counter;
        length_counter.set_enabled((data >> 3 & 1) != 0);
        self.noise.length_counter = length_counter;
        let mut dmc = self.dmc;
        if data >> 4 & 1 == 0 {
            dmc.clear_sample_remaining_bytes_and_silence();
        } else if !dmc.sample_remaining_bytes_more_than_0() {
            dmc.restart_sample();
        }
        dmc.clear_interrupt_flag();
        self.dmc = dmc;
    }
}

/// The view of the APU after a status write, from its parts.
proof fn lemma_status_view(before: APU2A03, after: APU2A03, data: u8)
    requires
        after.square_pulse_1.channel == before.square_pulse_1.channel,
        after.square_pulse_2.channel == before.square_pulse_2.channel,
        after.triangle.channel == before.triangle.channel,
        after.noise.channel == before.noise.channel,
        after.square_pulse_1.length_counter == enabled_by(before.square_pulse_1.length_counter, data & 1 != 0),
        after.square_pulse_2.length_counter == enabled_by(before.square_pulse_2.length_counter, data & 2 != 0),
        after.triangle.length_counter == enabled_by(before.triangle.length_counter, data & 4 != 0),
        after.noise.length_counter == enabled_by(before.noise.length_counter, data & 8 != 0),
        after.dmc == dmc_status(before.dmc, data),
        after.is_4_step_squence_mode_hold_value == before.is_4_step_squence_mode_hold_value,
        after.is_4_step_squence_mode == before.is_4_step_squence_mode,
        after.interrupt_inhibit_flag == before.interrupt_inhibit_flag,
        after.cycle == before.cycle,
        after.wait_reset == before.wait_reset,
        after.interrupt_flag == before.interrupt_flag,
        after.request_interrupt_flag_change == before.request_interrupt_flag_change,
    ensures
        after@ == spec_write_register(before@, Register::Status, data),
        after.wf() == before.wf(),
{
}

/// Only the first pulse channel changed: the view changed only there.
proof fn lemma_only_pulse_1_changed(before: APU2A03, after: APU2A03)
    requires
        after.square_pulse_2 == before.square_pulse_2,
        after.triangle == before.triangle,
        after.noise == before.noise,
        after.dmc == before.dmc,
        after.is_4_step_squence_mode_hold_value == before.is_4_step_squence_mode_hold_value,
        after.is_4_step_squence_mode == before.is_4_step_squence_mode,
        after.interrupt_inhibit_flag == before.interrupt_inhibit_flag,
        after.cycle == before.cycle,
        after.wait_reset == before.wait_reset,
        after.interrupt_flag == before.interrupt_flag,
        after.request_interrupt_flag_change == before.request_interrupt_flag_change,
    ensures
        after@ == (ApuView { square_pulse_1: after.square_pulse_1@, ..before@ }),
{
}

/// Only the second pulse channel changed.
proof fn lemma_only_pulse_2_changed(before: APU2A03, after: APU2A03)
    requires
        after.square_pulse_1 == before.square_pulse_1,
        after.triangle == before.triangle,
        after.noise == before.noise,
        after.dmc == before.dmc,
        after.is_4_step_squence_mode_hold_value == before.is_4_step_squence_mode_hold_value,
        after.is_4_step_squence_mode == before.is_4_step_squence_mode,
        after.interrupt_inhibit_flag == before.interrupt_inhibit_flag,
        after.cycle == before.cycle,
        after.wait_reset == before.wait_reset,
        after.interrupt_flag == before.interrupt_flag,
        after.request_interrupt_flag_change == before.request_interrupt_flag_change,
    ensures
        after@ == (ApuView { square_pulse_2: after.square_pulse_2@, ..before@ }),
{
}

/// Only the triangle channel changed.
proof fn lemma_only_triangle_changed(before: APU2A03, after: APU2A03)
    requires
        after.square_pulse_1 == before.square_pulse_1,
        after.square_pulse_2 == before.square_pulse_2,
        after.noise == before.noise,
        after.dmc == before.dmc,
        after.is_4_step_squence_mode_hold_value == before.is_4_step_squence_mode_hold_value,
        after.is_4_step_squence_mode == before.is_4_step_squence_mode,
        after.interrupt_inhibit_flag == before.interrupt_inhibit_flag,
        after.cycle == before.cycle,
        after.wait_reset == before.wait_reset,
        after.interrupt_flag == before.interrupt_flag,
        after.request_interrupt_flag_change == before.request_interrupt_flag_change,
    ensures
        after@ == (ApuView { triangle: after.triangle@, ..before@ }),
{
}

/// Only the noise channel changed.
proof fn lemma_only_noise_changed(before: APU2A03, after: APU2A03)
    requires
        after.square_pulse_1 == before.square_pulse_1,
        after.square_pulse_2 == before.square_pulse_2,
        after.triangle == before.triangle,
        after.dmc == before.dmc,
        after.is_4_step_squence_mode_hold_value == before.is_4_step_squence_mode_hold_value,
        after.is_4_step_squence_mode == before.is_4_step_squence_mode,
        after.interrupt_inhibit_flag == before.interrupt_inhibit_flag,
        after.cycle == before.cycle,
        after.wait_reset == before.wait_reset,
        after.interrupt_flag == before.interrupt_flag,
        after.request_interrupt_flag_change == before.request_interrupt_flag_change,
    ensures
        after@ == (ApuView { noise: after.noise@, ..before@ }),
{
}

/// Only the DMC changed.
proof fn lemma_only_dmc_changed(before: APU2A03, after: APU2A03)
    requires
        after.square_pulse_1 == before.square_pulse_1,
        after.square_pulse_2 == before.square_pulse_2,
        after.triangle == before.triangle,
        after.noise == before.noise,
        after.is_4_step_squence_mode_hold_value == before.is_4_step_squence_mode_hold_value,
        after.is_4_step_squence_mode == before.is_4_step_squence_mode,
        after.interrupt_inhibit_flag == before.interrupt_inhibit_flag,
        after.cycle == before.cycle,
        after.wait_reset == before.wait_reset,
        after.interrupt_flag == before.interrupt_flag,
        after.request_interrupt_flag_change == before.request_interrupt_flag_change,
    ensures
        after@ == (ApuView { dmc: after.dmc, ..before@ }),
{
}

/// The view of the APU after its timers were clocked, from its parts.
proof fn lemma_timers_view(before: APU2A03, after: APU2A03)
    requires
        after.triangle == before.triangle.spec_timer_clock(),
        before.cycle % 2 == 0 ==> after.square_pulse_1 == before.square_pulse_1.spec_timer_clock()
            && after.square_pulse_2 == before.square_pulse_2.spec_timer_clock() && after.noise
            == before.noise.spec_timer_clock() && after.dmc == before.dmc.spec_timer_clock(),
        before.cycle % 2 != 0 ==> after.square_pulse_1 == before.square_pulse_1 && after.square_pulse_2
            == before.square_pulse_2 && after.noise == before.noise && after.dmc == before.dmc,
        after.is_4_step_squence_mode_hold_value == before.is_4_step_squence_mode_hold_value,
        after.is_4_step_squence_mode == before.is_4_step_squence_mode,
        after.interrupt_inhibit_flag == before.interrupt_inhibit_flag,
        after.cycle == before.cycle,
        after.wait_reset == before.wait_reset,
        after.interrupt_flag == before.interrupt_flag,
        after.request_interrupt_flag_change == before.request_interrupt_flag_change,
    ensures
        after@ == timers(before@),
{
    lemma_clocked_view(before.square_pulse_1.channel.sequencer);
    lemma_clocked_view(before.square_pulse_2.channel.sequencer);
    lemma_clocked_view(before.triangle.channel.sequencer);
}

/// A channel disabled in the status register is silent: its length
/// counter is cleared, so its level is 0 until it is enabled and reloaded.
pub proof fn lemma_disabled_channels_silent(v: ApuView, data: u8)
    ensures
        data & 1 == 0 ==> levels_of(spec_write_register(v, Register::Status, data)).square_pulse_1 == 0,
        data & 2 == 0 ==> levels_of(spec_write_register(v, Register::Status, data)).square_pulse_2 == 0,
        data & 4 == 0 ==> levels_of(spec_write_register(v, Register::Status, data)).triangle == 0,
        data & 8 == 0 ==> levels_of(spec_write_register(v, Register::Status, data)).noise == 0,
{
}

/// The duty cycle of a pulse channel is the top two bits of its control
/// byte ($4000 for pulse 1, $4004 for pulse 2): 0 to 63 give the 12.5%
/// waveform, 64 to 127 the 25% one, 128 to 191 the 50% one and 192 to 255
/// the inverted 25% (75%) one; bits 0-5 do not matter. The other pulse
/// channel is left alone.
pub proof fn lemma_pulse_duty_from_control(v: ApuView, data: u8)
    ensures
        ({
            let waveform = if data < 64 {
                seq![0u8, 1, 0, 0, 0, 0, 0, 0]
            } else if data < 128 {
                seq![0u8, 1, 1, 0, 0, 0, 0, 0]
            } else if data < 192 {
                seq![0u8, 1, 1, 1, 1, 0, 0, 0]
            } else {
                seq![1u8, 0, 0, 1, 1, 1, 1, 1]
            };
            let w1 = spec_write_register(v, Register::Pulse1_1, data);
            let w2 = spec_write_register(v, Register::Pulse2_1, data);
            &&& w1.square_pulse_1.channel.sequencer.sequence == waveform
            &&& w1.square_pulse_2 == v.square_pulse_2
            &&& w2.square_pulse_2.channel.sequencer.sequence == waveform
            &&& w2.square_pulse_1 == v.square_pulse_1
        }),
{
    assert((data >> 6u8) & 0x3 == data / 64) by (bit_vector);
    let waveform = if data < 64 {
        seq![0u8, 1, 0, 0, 0, 0, 0, 0]
    } else if data < 128 {
        seq![0u8, 1, 1, 0, 0, 0, 0, 0]
    } else if data < 192 {
        seq![0u8, 1, 1, 1, 1, 0, 0, 0]
    } else {
        seq![1u8, 0, 0, 1, 1, 1, 1, 1]
    };
    assert(duty_sequence(data >> 6u8) =~= waveform);
}

/// The fields of a channel register byte as arithmetic.
proof fn lemma_register_byte_fields(data: u8)
    by (bit_vector)
    ensures
        ((data >> 3u8) & 0x1F) as int == data / 8,
        ((data >> 4u8) & 0b111) as int == (data / 16) % 8,
        (data & 0b111) as int == data % 8,
        (data & 0x7F) as int == data % 128,
{
}

/// What a channel register write stores, field by field. Pulse control
/// ($4000/$4004) and noise control ($400C): volume (or envelope period) from
/// bits 0-3, constant volume from bit 4, length counter halt and envelope
/// loop from bit 5. Sweep ($4001/$4005): enabled by bit 7, divider period
/// from bits 4-6, negate from bit 3, shift count from bits 0-2. Length loads
/// ($4003/$4007/$400B/$400F): an enabled counter takes entry data / 8 of the
/// length table, a disabled one stays. Triangle control ($4008): linear
/// counter reload value from bits 0-6, control and length halt from bit 7.
/// Noise period ($400E): mode from bit 7, period from the noise table at
/// bits 0-3.
#[verifier::rlimit(40)]
pub proof fn lemma_channel_register_fields(v: ApuView, data: u8)
    ensures
        ({
            let p1 = spec_write_register(v, Register::Pulse1_1, data).square_pulse_1;
            let p2 = spec_write_register(v, Register::Pulse2_1, data).square_pulse_2;
            let n = spec_write_register(v, Register::Noise1, data).noise;
            let sw1 = spec_write_register(v, Register::Pulse1_2, data).square_pulse_1.channel.sweeper;
            let sw2 = spec_write_register(v, Register::Pulse2_2, data).square_pulse_2.channel.sweeper;
            let t = spec_write_register(v, Register::Triangle1, data).triangle;
            let nz = spec_write_register(v, Register::Noise3, data).noise.channel;
            let length = LENGTH_TABLE@[data as int / 8];
            &&& p1.channel.envelope_generator.divider_reload_value as int == data % 16
            &&& p2.channel.envelope_generator.divider_reload_value as int == data % 16
            &&& n.channel.envelope_generator.divider_reload_value as int == data % 16
            &&& p1.channel.envelope_generator.use_constant_volume == (data & 0x10 != 0)
            &&& p2.channel.envelope_generator.use_constant_volume == (data & 0x10 != 0)
            &&& n.channel.envelope_generator.use_constant_volume == (data & 0x10 != 0)
            &&& p1.length_counter.halt == (data & 0x20 != 0) && p1.channel.envelope_generator.loop_flag
                == (data & 0x20 != 0)
            &&& p2.length_counter.halt == (data & 0x20 != 0) && p2.channel.envelope_generator.loop_flag
                == (data & 0x20 != 0)
            &&& n.length_counter.halt == (data & 0x20 != 0) && n.channel.envelope_generator.loop_flag
                == (data & 0x20 != 0)
            &&& sw1.enabled == (data >= 128) && sw2.enabled == (data >= 128)
            &&& sw1.divider_period_reload_value as int == data / 16 % 8
                && sw2.divider_period_reload_value as int == data / 16 % 8
            &&& sw1.negative == (data & 8 != 0) && sw2.negative == (data & 8 != 0)
            &&& sw1.shift_count as int == data % 8 && sw2.shift_count as int == data % 8
            &&& spec_write_register(v, Register::Pulse1_4, data).square_pulse_1.length_counter.counter
                == if v.square_pulse_1.length_counter.enabled { length } else { v.square_pulse_1.length_counter.counter }
            &&& spec_write_register(v, Register::Pulse2_4, data).square_pulse_2.length_counter.counter
                == if v.square_pulse_2.length_counter.enabled { length } else { v.square_pulse_2.length_counter.counter }
            &&& spec_write_register(v, Register::Triangle4, data).triangle.length_counter.counter
                == if v.triangle.length_counter.enabled { length } else { v.triangle.length_counter.counter }
            &&& spec_write_register(v, Register::Noise4, data).noise.length_counter.counter
                == if v.noise.length_counter.enabled { length } else { v.noise.length_counter.counter }
            &&& t.channel.linear_counter_reload_value as int == data % 128
            &&& t.channel.linear_counter_control_flag == (data >= 128) && t.length_counter.halt == (data >= 128)
            &&& nz.mode_flag == (data >= 128)
            &&& nz.period == NOISE_PERIODS_TABLE@[data as int % 16]
        }),
{
    lemma_register_byte_fields(data);
    crate::bits::lemma_nibbles(data);
    crate::bits::lemma_byte_sign(data);
}

/// The two halves of a timer period as arithmetic.
proof fn lemma_period_halves(d: u16, period: u16)
    by (bit_vector)
    requires
        d < 256,
    ensures
        ((period & 0xFF00) | d) as int == (period / 256) * 256 + d,
        ((period & 0xFF) | ((d & 0b111) << 8u16)) as int == (d % 8) * 256 + period % 256,
{
}

/// Timer writes: the low register ($4002/$4006/$400A) replaces the low 8
/// bits of the period with the byte, and the high one ($4003/$4007/$400B)
/// replaces the bits above them with bits 0-2 of the byte. A pulse channel
/// is muted exactly when its new period is below 8 or above 0x7FF, the
/// triangle exactly when it is below 2. The high write also restarts the
/// pulse's waveform at its first step and its envelope.
#[verifier::rlimit(40)]
pub proof fn lemma_channel_timer_writes(v: ApuView, data: u8)
    ensures
        ({
            let low1 = spec_write_register(v, Register::Pulse1_3, data).square_pulse_1.channel;
            let high1 = spec_write_register(v, Register::Pulse1_4, data).square_pulse_1.channel;
            let low2 = spec_write_register(v, Register::Pulse2_3, data).square_pulse_2.channel;
            let high2 = spec_write_register(v, Register::Pulse2_4, data).square_pulse_2.channel;
            let tl = spec_write_register(v, Register::Triangle3, data).triangle.channel;
            let th = spec_write_register(v, Register::Triangle4, data).triangle.channel;
            let p1 = v.square_pulse_1.channel.period as int;
            let p2 = v.square_pulse_2.channel.period as int;
            let pt = v.triangle.channel.period as int;
            &&& low1.period == p1 / 256 * 256 + data
            &&& high1.period == (data % 8) * 256 + p1 % 256
            &&& low2.period == p2 / 256 * 256 + data
            &&& high2.period == (data % 8) * 256 + p2 % 256
            &&& tl.period == pt / 256 * 256 + data
            &&& th.period == (data % 8) * 256 + pt % 256
            &&& low1.muted == !(8 <= low1.period <= 0x7FF) && high1.muted == !(8 <= high1.period <= 0x7FF)
            &&& low2.muted == !(8 <= low2.period <= 0x7FF) && high2.muted == !(8 <= high2.period <= 0x7FF)
            &&& tl.muted == (tl.period < 2) && th.muted == (th.period < 2)
            &&& high1.sequencer.position == 0 && high1.envelope_generator.start_flag
            &&& high2.sequencer.position == 0 && high2.envelope_generator.start_flag
        }),
{
    lemma_period_halves(data as u16, v.square_pulse_1.channel.period);
    lemma_period_halves(data as u16, v.square_pulse_2.channel.period);
    lemma_period_halves(data as u16, v.triangle.channel.period);
}

/// The control registers, field by field. Status ($4015): bits 0-3 enable
/// the pulse 1, pulse 2, triangle and noise length counters, and a cleared
/// bit also zeroes that counter; bit 4 clear stops the DMC sample. Frame
/// counter ($4017): bit 7 chooses the 5-step sequence, bit 6 inhibits the
/// frame interrupt and clears a pending one. DMC ($4010-$4013): the rate
/// index in bits 0-3 (half the table entry), loop in bit 6, IRQ enable in
/// bit 7; the output level from bits 0-6; the sample address 0xC000 + 64 *
/// data; the sample length 16 * data + 1.
#[verifier::rlimit(40)]
pub proof fn lemma_control_register_fields(v: ApuView, data: u8)
    ensures
        ({
            let st = spec_write_register(v, Register::Status, data);
            let fc = spec_write_register(v, Register::FrameCounter, data);
            let d1 = spec_write_register(v, Register::DMC1, data).dmc;
            let d2 = spec_write_register(v, Register::DMC2, data).dmc;
            let d3 = spec_write_register(v, Register::DMC3, data).dmc;
            let d4 = spec_write_register(v, Register::DMC4, data).dmc;
            &&& st.square_pulse_1.length_counter.enabled == (data & 1 != 0)
            &&& st.square_pulse_2.length_counter.enabled == (data & 2 != 0)
            &&& st.triangle.length_counter.enabled == (data & 4 != 0)
            &&& st.noise.length_counter.enabled == (data & 8 != 0)
            &&& data & 1 == 0 ==> st.square_pulse_1.length_counter.counter == 0
            &&& data & 2 == 0 ==> st.square_pulse_2.length_counter.counter == 0
            &&& data & 4 == 0 ==> st.triangle.length_counter.counter == 0
            &&& data & 8 == 0 ==> st.noise.length_counter.counter == 0
            &&& data & 0x10 == 0 ==> st.dmc.samples_remaining_bytes_counter == 0
            &&& fc.is_4_step_squence_mode_hold_value == (data < 128)
            &&& fc.interrupt_inhibit_flag == (data & 0x40 != 0)
            &&& data & 0x40 != 0 ==> !fc.interrupt_flag
            &&& d1.period == DMC_PERIOD_RATES_NTSC@[data as int % 16] / 2
            &&& d1.loop_flag == (data & 0x40 != 0)
            &&& d1.irq_enabled_flag == (data >= 128)
            &&& d2.output_level as int == data % 128
            &&& d3.samples_address == 0xC000 + 64 * data
            &&& d4.samples_length == 16 * data + 1
        }),
{
    lemma_register_byte_fields(data);
    crate::bits::lemma_nibbles(data);
    crate::bits::lemma_byte_sign(data);
}

/// The frame counter counts CPU cycles through its sequence and starts
/// over at its end (29830 in 4-step mode, 37282 in 5-step mode), so it stays
/// below the end; the frame interrupt is raised (unless inhibited) exactly
/// on the last three cycles of the 4-step sequence and never in 5-step mode.
pub proof fn lemma_frame_counter_sequence(v: ApuView)
    requires
        v.wait_reset < 0,
        v.is_4_step_squence_mode ==> v.cycle < 29830,
        !v.is_4_step_squence_mode ==> v.cycle < 37282,
    ensures
        ({
            let next = spec_clock(v).0;
            let c = v.cycle + 1;
            let m = v.is_4_step_squence_mode;
            let raises = m && !v.interrupt_inhibit_flag && (c == 29828 || c == 29829 || c == 29830);
            &&& next.cycle == (if (m && c == 29830) || (!m && c == 37282) { 0 } else { c })
            &&& next.is_4_step_squence_mode == m
            &&& next.interrupt_flag == (v.interrupt_flag || raises)
            &&& raises ==> next.request_interrupt_flag_change
        }),
{
}

/// Reading the status register acknowledges the frame interrupt: a second
/// read reports it clear.
pub proof fn lemma_status_read_acknowledges(v: ApuView)
    ensures
        status_byte(ApuView { interrupt_flag: false, request_interrupt_flag_change: true, ..v }) & 0x40
            == 0,
{
    let w = ApuView { interrupt_flag: false, request_interrupt_flag_change: true, ..v };
    let b = status_byte(w);
    let d: u8 = if w.dmc.irq_pin_state { 1 } else { 0 };
    let a: u8 = if w.dmc.samples_remaining_bytes_counter > 0 { 1 } else { 0 };
    let n: u8 = if w.noise.length_counter.counter != 0 { 1 } else { 0 };
    let t: u8 = if w.triangle.length_counter.counter != 0 { 1 } else { 0 };
    let p2: u8 = if w.square_pulse_2.length_counter.counter != 0 { 1 } else { 0 };
    let p1: u8 = if w.square_pulse_1.length_counter.counter != 0 { 1 } else { 0 };
    assert(b == (0x80 * d + 0x10 * a + 8 * n + 4 * t + 2 * p2 + p1) as u8);
    assert((0x80 * d + 0x10 * a + 8 * n + 4 * t + 2 * p2 + p1) as u8 & 0x40 == 0) by (bit_vector)
        requires
            d <= 1 && a <= 1 && n <= 1 && t <= 1 && p2 <= 1 && p1 <= 1,
    ;
}

} // verus!

//! The noise channel: a 15-bit linear-feedback shift register clocked at a
//! rate from a table, gated by an envelope.

use vstd::prelude::*;
use crate::apu2a03::envelope::EnvelopeGenerator;
use crate::apu2a03::tone_source::TimedAPUChannel;
use crate::bits::lemma_register_masks;

verus! {

/// Table for NTSC only
pub const NOISE_PERIODS_TABLE: [u16; 16] = [
    4, 8, 16, 32, 64, 96, 128, 160, 202, 254, 380, 508, 762, 1016, 2034, 4068,
];

/// Every noise period is at most 4068.
proof fn lemma_noise_periods_bounded(i: int)
    requires
        0 <= i < 16,
    ensures
        NOISE_PERIODS_TABLE@[i] <= 4068,
{
    assert(NOISE_PERIODS_TABLE@[0] == 4 && NOISE_PERIODS_TABLE@[1] == 8 && NOISE_PERIODS_TABLE@[2] == 16
        && NOISE_PERIODS_TABLE@[3] == 32 && NOISE_PERIODS_TABLE@[4] == 64 && NOISE_PERIODS_TABLE@[5] == 96
        && NOISE_PERIODS_TABLE@[6] == 128 && NOISE_PERIODS_TABLE@[7] == 160 && NOISE_PERIODS_TABLE@[8] == 202
        && NOISE_PERIODS_TABLE@[9] == 254 && NOISE_PERIODS_TABLE@[10] == 380 && NOISE_PERIODS_TABLE@[11] == 508
        && NOISE_PERIODS_TABLE@[12] == 762 && NOISE_PERIODS_TABLE@[13] == 1016 && NOISE_PERIODS_TABLE@[14] == 2034
        && NOISE_PERIODS_TABLE@[15] == 4068);
}

/// The shift register after one step: bit 0 xor bit 6 (mode set) or bit 1
/// (mode clear) enters at bit 14 as the register shifts right.
pub open spec fn shifted_noise(shift_register: u16, mode_flag: bool) -> u16 {
    let selected_bit_location: u16 = if mode_flag {
        6
    } else {
        1
    };
    let bit_0 = shift_register & 1;
    let selected_bit = (shift_register >> selected_bit_location) & 1;
    let feedback = bit_0 ^ selected_bit;
    ((shift_register >> 1u16) & 0x3FFF) | (feedback << 14u16)
}

#[derive(Clone, Copy, PartialEq, Eq, Debug, Structural)]
pub struct NoiseWave {
    pub period: u16,
    pub current_timer: u16,
    pub shift_register: u16,
    pub mode_flag: bool,
    pub envelope_generator: EnvelopeGenerator,
}

impl View for NoiseWave {
    type V = NoiseWave;

    open spec fn view(&self) -> NoiseWave {
        *self
    }
}

impl NoiseWave {
    /// The channel's level: 0 while bit 0 of the shift register is set,
    /// else the envelope's volume.
    pub open spec fn spec_level(self) -> u8 {
        if self.shift_register & 1 != 0 {
            0
        } else if self.envelope_generator.use_constant_volume {
            self.envelope_generator.divider_reload_value
        } else {
            self.envelope_generator.decay_level
        }
    }

    pub fn new() -> (n: Self)
        ensures
            n == (NoiseWave {
                period: 0,
                current_timer: 0,
                shift_register: 1,
                mode_flag: false,
                envelope_generator: EnvelopeGenerator::spec_new(),
            }),
    {
        Self {
            period: 0,
            current_timer: 0,
            shift_register: 1,
            mode_flag: false,
            envelope_generator: EnvelopeGenerator::new(),
        }
    }

    pub fn get_period(&self) -> (p: u16)
        ensures
            p == self.period,
    {
        self.period
    }

    /// Sets the period from the table entry that the low 4 bits select.
    pub fn set_period(&mut self, period_index: u8)
        ensures
            *final(self) == (NoiseWave {
                period: NOISE_PERIODS_TABLE@[(period_index & 0xF) as int],
                ..*old(self)
            }),
            final(self).period <= 4068,
    {
        proof {
            lemma_register_masks(period_index);
        }
        proof {
            lemma_noise_periods_bounded((period_index & 0xF) as int);
        }
        self.period = NOISE_PERIODS_TABLE[(period_index & 0xF) as usize];
    }

    pub fn set_mode_flag(&mut self, flag: bool)
        ensures
            *final(self) == (NoiseWave { mode_flag: flag, ..*old(self) }),
    {
        self.mode_flag = flag;
    }

    pub fn clock_envlope(&mut self)
        ensures
            *final(self) == (NoiseWave {
                envelope_generator: old(self).envelope_generator.spec_clocked(),
                ..*old(self)
            }),
    {
        self.envelope_generator.clock();
    }

    /// The channel's level: 0 while bit 0 of the shift register is set,
    /// else the envelope's volume.
    pub fn output_level(&self) -> (level: u8)
        ensures
            level == self.spec_level(),
    {
        if self.shift_register & 1 != 0 {
            0
        } else {
            self.envelope_generator.current_volume()
        }
    }
}

impl TimedAPUChannel for NoiseWave {
    /// When the timer has run out the shift register steps and the timer
    /// reloads with the period plus one; otherwise the timer counts down.
    open spec fn spec_timer_clock(self) -> NoiseWave {
        if self.current_timer == 0 {
            NoiseWave {
                shift_register: shifted_noise(self.shift_register, self.mode_flag),
                current_timer: (self.period + 1) as u16,
                ..self
            }
        } else {
            NoiseWave { current_timer: (self.current_timer - 1) as u16, ..self }
        }
    }

    /// The period leaves room for the reload.
    open spec fn spec_can_clock(self) -> bool {
        self.period < 0xFFFF
    }

    fn timer_clock(&mut self) {
        if self.current_timer == 0 {
            let selected_bit_location: u16 = if self.mode_flag { 6 } else { 1 };
            let bit_0 = self.shift_register & 1;
            let selected_bit = (self.shift_register >> selected_bit_location) & 1;
            let feedback = bit_0 ^ selected_bit;
            self.shift_register = (self.shift_register >> 1) & 0x3FFF;
            self.shift_register |= feedback << 14;
            assert(self.shift_register == shifted_noise(old(self).shift_register, self.mode_flag));
            self.current_timer = self.period + 1;
        } else {
            self.current_timer = self.current_timer.saturating_sub(1);
        }
    }
}

/// The shift register never locks up: a non-zero 15-bit register stays
/// non-zero and within 15 bits.
pub proof fn lemma_noise_never_zero(shift_register: u16, mode_flag: bool)
    requires
        shift_register != 0,
        shift_register <= 0x7FFF,
    ensures
        shifted_noise(shift_register, mode_flag) != 0,
        shifted_noise(shift_register, mode_flag) <= 0x7FFF,
{
    if mode_flag {
        assert(((shift_register >> 1u16) & 0x3FFF) | (((shift_register & 1) ^ ((shift_register >> 6u16) & 1))
            << 14u16) != 0 && ((shift_register >> 1u16) & 0x3FFF) | (((shift_register & 1) ^ ((shift_register
            >> 6u16) & 1)) << 14u16) <= 0x7FFF) by (bit_vector)
            requires
                shift_register != 0,
                shift_register <= 0x7FFF,
        ;
    } else {
        assert(((shift_register >> 1u16) & 0x3FFF) | (((shift_register & 1) ^ ((shift_register >> 1u16) & 1))
            << 14u16) != 0 && ((shift_register >> 1u16) & 0x3FFF) | (((shift_register & 1) ^ ((shift_register
            >> 1u16) & 1)) << 14u16) <= 0x7FFF) by (bit_vector)
            requires
                shift_register != 0,
                shift_register <= 0x7FFF,
        ;
    }
}

/// One step of the noise shift register in numbers: the register moves
/// down one bit, and the new bit 14 is bit 0 exclusive-or bit 6 (mode set)
/// or bit 1 (mode clear) of the old value.
pub proof fn lemma_noise_step(shift_register: u16)
    requires
        shift_register <= 0x7FFF,
    ensures
        shifted_noise(shift_register, true) as int == shift_register / 2 + if shift_register % 2
            != shift_register / 64 % 2 {
            0x4000int
        } else {
            0
        },
        shifted_noise(shift_register, false) as int == shift_register / 2 + if shift_register % 2
            != shift_register / 2 % 2 {
            0x4000int
        } else {
            0
        },
{
    let sr = shift_register;
    assert((((sr >> 1u16) & 0x3FFF) | (((sr & 1) ^ ((sr >> 6u16) & 1)) << 14u16)) as int == sr / 2
        + if sr % 2 != sr / 64 % 2 { 0x4000int } else { 0 } && (((sr >> 1u16) & 0x3FFF) | (((sr & 1) ^ ((sr
        >> 1u16) & 1)) << 14u16)) as int == sr / 2 + if sr % 2 != sr / 2 % 2 { 0x4000int } else { 0 })
        by (bit_vector)
        requires
            sr <= 0x7FFF,
    ;
}

} // verus!

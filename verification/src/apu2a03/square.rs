//! The pulse (square) channel: an 8-step duty-cycle sequence, an envelope,
//! and a sweep unit that moves its period up or down.

use vstd::prelude::*;
use crate::apu2a03::envelope::EnvelopeGenerator;
use crate::apu2a03::sequencer::{Sequencer, SequencerView};
use crate::apu2a03::tone_source::TimedAPUChannel;
use crate::bits::lemma_register_masks;

verus! {

/// The four duty cycles: 12.5%, 25%, 50% and 75% (negated 25%).
pub const DUTY_CYCLE_SEQUENCES: [[u8; 8]; 4] = [
    [0, 1, 0, 0, 0, 0, 0, 0],
    [0, 1, 1, 0, 0, 0, 0, 0],
    [0, 1, 1, 1, 1, 0, 0, 0],
    [1, 0, 0, 1, 1, 1, 1, 1],
];

/// The sweep unit's registers.
#[derive(Clone, Copy, PartialEq, Eq, Debug, Structural)]
pub struct Sweeper {
    pub enabled: bool,
    pub divider_period_reload_value: u8,
    pub divider_period_counter: u8,
    pub negative: bool,
    pub shift_count: u8,
}

impl Sweeper {
    pub fn new() -> (s: Self)
        ensures
            s == (Sweeper {
                enabled: false,
                divider_period_reload_value: 0,
                divider_period_counter: 0,
                negative: false,
                shift_count: 0,
            }),
    {
        Self {
            enabled: false,
            divider_period_reload_value: 0,
            divider_period_counter: 0,
            negative: false,
            shift_count: 0,
        }
    }

    /// EPPP NSSS: enable, divider period, negate, shift count.
    pub fn set_from_data_byte(&mut self, data: u8)
        ensures
            *final(self) == (Sweeper {
                enabled: data & 0x80 != 0,
                divider_period_reload_value: (data >> 4u8) & 0b111,
                negative: data & 0x08 != 0,
                shift_count: data & 0b111,
                ..*old(self)
            }),
            final(self).shift_count < 8,
    {
        self.enabled = data & 0x80 != 0;
        self.divider_period_reload_value = (data >> 4) & 0b111;
        self.negative = data & 0x08 != 0;
        self.shift_count = data & 0b111;
        proof {
            lemma_register_masks(data);
        }
    }
}

/// The period the sweep unit moves to: the period plus or minus the period
/// shifted right, held in 0..=0xFFFF.
pub open spec fn sweep_target(period: u16, shift_count: u8, negative: bool) -> int {
    let change = period >> (shift_count as u16);
    if negative {
        if period >= change {
            period - change
        } else {
            0
        }
    } else if period + change <= 0xFFFF {
        period + change
    } else {
        0xFFFF
    }
}

pub struct SquarePulse {
    pub period: u16,
    pub current_timer: u16,
    pub envelope_generator: EnvelopeGenerator,
    pub sequencer: Sequencer,
    pub muted: bool,
    pub sweeper: Sweeper,
}

/// A pulse channel as values.
pub struct SquareView {
    pub period: u16,
    pub current_timer: u16,
    pub envelope_generator: EnvelopeGenerator,
    pub sequencer: SequencerView,
    pub muted: bool,
    pub sweeper: Sweeper,
}

impl View for SquarePulse {
    type V = SquareView;

    open spec fn view(&self) -> SquareView {
        SquareView {
            period: self.period,
            current_timer: self.current_timer,
            envelope_generator: self.envelope_generator,
            sequencer: self.sequencer@,
            muted: self.muted,
            sweeper: self.sweeper,
        }
    }
}

/// The duty sequence that an index selects.
pub open spec fn duty_sequence(index: u8) -> Seq<u8> {
    DUTY_CYCLE_SEQUENCES@[(index & 0x3) as int]@
}

/// A period is audible: from 8 up to 0x7FF.
pub open spec fn audible_period(period: int) -> bool {
    8 <= period <= 0x7FF
}

impl SquareView {
    /// The sweep unit after a half-frame clock, and the period it sets: when
    /// its divider is at 0 the target period is set (or the channel muted
    /// when the target is out of the audible range) and the divider reloads.
    pub open spec fn spec_swept(self) -> SquareView {
        if !self.sweeper.enabled {
            self
        } else if self.sweeper.divider_period_counter == 0 {
            let target = sweep_target(self.period, self.sweeper.shift_count, self.sweeper.negative);
            let reloaded = Sweeper {
                divider_period_counter: self.sweeper.divider_period_reload_value,
                ..self.sweeper
            };
            if audible_period(target) {
                SquareView { period: target as u16, muted: false, sweeper: reloaded, ..self }
            } else {
                SquareView { muted: true, sweeper: reloaded, ..self }
            }
        } else {
            SquareView {
                sweeper: Sweeper {
                    divider_period_counter: (self.sweeper.divider_period_counter - 1) as u8,
                    ..self.sweeper
                },
                ..self
            }
        }
    }

    /// The channel after one timer clock.
    pub open spec fn spec_timer_clocked(self) -> SquareView {
        if self.current_timer == 0 {
            SquareView { current_timer: self.period, sequencer: self.sequencer.spec_clocked(), ..self }
        } else {
            SquareView { current_timer: (self.current_timer - 1) as u16, ..self }
        }
    }

    /// The channel's level: 0 while muted or at a 0 step, else the volume.
    pub open spec fn spec_level(self) -> u8 {
        if self.muted || self.sequencer.sequence.len() == 0 || self.sequencer.sequence[self.sequencer.position as int]
            == 0 {
            0
        } else if self.envelope_generator.use_constant_volume {
            self.envelope_generator.divider_reload_value
        } else {
            self.envelope_generator.decay_level
        }
    }
}

impl SquarePulse {
    /// The sequencer's position is valid and the sweep shift is below 16.
    pub open spec fn wf(&self) -> bool {
        self.sequencer.wf() && self.sweeper.shift_count < 16
    }

    pub fn new() -> (s: Self)
        ensures
            s.wf(),
            s@.period == 0 && s@.current_timer == 0 && !s@.muted,
            s@.envelope_generator == EnvelopeGenerator::spec_new(),
            s@.sequencer.sequence == Seq::<u8>::empty() && s@.sequencer.position == 0,
            s@.sweeper.shift_count == 0 && !s@.sweeper.enabled,
    {
        Self {
            period: 0,
            current_timer: 0,
            envelope_generator: EnvelopeGenerator::new(),
            sequencer: Sequencer::new(),
            muted: false,
            sweeper: Sweeper::new(),
        }
    }

    pub fn set_duty_cycle_index(&mut self, duty_cycle_index: u8)
        requires
            old(self).wf(),
        ensures
            final(self).wf(),
            final(self)@ == (SquareView {
                sequencer: SequencerView {
                    sequence: duty_sequence(duty_cycle_index),
                    position: old(self)@.sequencer.position % 8,
                },
                ..old(self)@
            }),
    {
        proof {
            lemma_register_masks(duty_cycle_index);
        }
        let sequence: [u8; 8] = DUTY_CYCLE_SEQUENCES[(duty_cycle_index & 0x3) as usize];
        self.sequencer.set_sequence(sequence.as_slice());
    }

    pub fn get_period(&self) -> (p: u16)
        ensures
            p == self.period,
    {
        self.period
    }

    /// Sets the period; periods outside 8..=0x7FF mute the channel.
    pub fn set_period(&mut self, period: u16)
        ensures
            final(self)@ == (SquareView { period, muted: !audible_period(period as int), ..old(self)@ }),
            final(self).sequencer == old(self).sequencer,
            final(self).sweeper == old(self).sweeper,
    {
        self.period = period;
        self.muted = self.period > 0x7FF || self.period < 8;
    }

    pub fn set_muted(&mut self, muted: bool)
        ensures
            final(self)@ == (SquareView { muted, ..old(self)@ }),
            final(self).sequencer == old(self).sequencer,
            final(self).sweeper == old(self).sweeper,
    {
        self.muted = muted;
    }

    /// Back to the first step of the duty cycle.
    pub fn reset(&mut self)
        requires
            old(self).wf(),
        ensures
            final(self).wf(),
            final(self)@ == (SquareView {
                sequencer: SequencerView { position: 0, ..old(self)@.sequencer },
                ..old(self)@
            }),
    {
        self.sequencer.reset();
    }

    pub fn set_sweeper_data(&mut self, data: u8)
        requires
            old(self).wf(),
        ensures
            final(self).wf(),
            final(self)@ == (SquareView {
                sweeper: Sweeper {
                    enabled: data & 0x80 != 0,
                    divider_period_reload_value: (data >> 4u8) & 0b111,
                    negative: data & 0x08 != 0,
                    shift_count: data & 0b111,
                    ..old(self)@.sweeper
                },
                ..old(self)@
            }),
    {
        self.sweeper.set_from_data_byte(data);
    }

    /// One half-frame clock of the sweep unit.
    pub fn clock_sweeper(&mut self)
        requires
            old(self).wf(),
        ensures
            final(self).wf(),
            final(self)@ == old(self)@.spec_swept(),
    {
        if self.sweeper.enabled {
            if self.sweeper.divider_period_counter == 0 {
                let current_period = self.period;
                let change_amount = current_period >> self.sweeper.shift_count;
                let target_period = if self.sweeper.negative {
                    current_period.saturating_sub(change_amount)
                } else {
                    current_period.saturating_add(change_amount)
                };
                if target_period > 0x7FF || target_period < 8 {
                    // sweep muting
                    self.set_muted(true);
                } else {
                    self.set_period(target_period);
                    self.set_muted(false);
                }
                self.sweeper.divider_period_counter = self.sweeper.divider_period_reload_value;
            } else {
                self.sweeper.divider_period_counter -= 1;
            }
        }
    }

    /// One quarter-frame clock of the envelope.
    pub fn clock_envlope(&mut self)
        ensures
            final(self)@ == (SquareView {
                envelope_generator: old(self)@.envelope_generator.spec_clocked(),
                ..old(self)@
            }),
            final(self).sequencer == old(self).sequencer,
            final(self).sweeper == old(self).sweeper,
    {
        self.envelope_generator.clock();
    }

    /// The channel's level, 0 to 15.
    pub fn output_level(&self) -> (level: u8)
        requires
            self.wf(),
        ensures
            level == self@.spec_level(),
    {
        if self.muted || self.sequencer.get_current_value() == 0 {
            0
        } else {
            self.envelope_generator.current_volume()
        }
    }
}

impl TimedAPUChannel for SquarePulse {
    /// When the timer has run out the sequencer steps and the timer reloads
    /// from the period; otherwise the timer counts down.
    open spec fn spec_timer_clock(self) -> SquarePulse {
        if self.current_timer == 0 {
            SquarePulse { current_timer: self.period, sequencer: self.sequencer.spec_clocked(), ..self }
        } else {
            SquarePulse { current_timer: (self.current_timer - 1) as u16, ..self }
        }
    }

    open spec fn spec_can_clock(self) -> bool {
        self.wf()
    }

    fn timer_clock(&mut self) {
        if self.current_timer == 0 {
            self.sequencer.clock();
            self.current_timer = self.period;
        } else {
            self.current_timer -= 1;
        }
    }
}

/// The sweep unit's target period in numbers: the change is the period
/// divided by 2 to the shift count; negating subtracts it (never going below
/// 0), otherwise it is added (stopping at 0xFFFF).
pub proof fn lemma_sweep_target(period: u16, shift_count: u8, negative: bool)
    requires
        shift_count < 16,
    ensures
        ({
            let change = period as nat / vstd::arithmetic::power2::pow2(shift_count as nat);
            sweep_target(period, shift_count, negative) == if negative {
                period - change
            } else if period + change <= 0xFFFF {
                period + change
            } else {
                0xFFFF
            }
        }),
{
    vstd::bits::lemma_u16_shr_is_div(period, shift_count as u16);
    let change = period as nat / vstd::arithmetic::power2::pow2(shift_count as nat);
    vstd::arithmetic::power2::lemma_pow2_pos(shift_count as nat);
    vstd::arithmetic::div_mod::lemma_div_is_ordered_by_denominator(period as int, 1, vstd::arithmetic::power2::pow2(shift_count as nat) as int);
    assert(change <= period);
}

} // verus!

//! The triangle channel: steps through a 32-level triangle sequence, gated
//! by a linear counter and muted at ultrasonic periods.

use vstd::prelude::*;
use crate::apu2a03::sequencer::{Sequencer, SequencerView};
use crate::apu2a03::tone_source::TimedAPUChannel;

verus! {

/// The levels of the triangle: 15 down to 0, then 0 up to 15.
pub open spec fn triangle_sequence() -> Seq<u8> {
    Seq::new(32, |i: int| if i < 16 { (15 - i) as u8 } else { (i - 16) as u8 })
}

pub struct TriangleWave {
    pub period: u16,
    pub current_timer: u16,
    pub sequencer: Sequencer,
    pub muted: bool,
    pub linear_counter_reload_value: u8,
    pub linear_counter: u8,
    pub linear_counter_control_flag: bool,
    pub linear_counter_reload_flag: bool,
}

/// A triangle channel as values.
pub struct TriangleView {
    pub period: u16,
    pub current_timer: u16,
    pub sequencer: SequencerView,
    pub muted: bool,
    pub linear_counter_reload_value: u8,
    pub linear_counter: u8,
    pub linear_counter_control_flag: bool,
    pub linear_counter_reload_flag: bool,
}

impl View for TriangleWave {
    type V = TriangleView;

    open spec fn view(&self) -> TriangleView {
        TriangleView {
            period: self.period,
            current_timer: self.current_timer,
            sequencer: self.sequencer@,
            muted: self.muted,
            linear_counter_reload_value: self.linear_counter_reload_value,
            linear_counter: self.linear_counter,
            linear_counter_control_flag: self.linear_counter_control_flag,
            linear_counter_reload_flag: self.linear_counter_reload_flag,
        }
    }
}

impl TriangleView {
    /// The linear counter after a quarter-frame clock.
    pub open spec fn spec_linear_clocked(self) -> TriangleView {
        TriangleView {
            linear_counter: if self.linear_counter_reload_flag {
                self.linear_counter_reload_value
            } else if self.linear_counter != 0 {
                (self.linear_counter - 1) as u8
            } else {
                0
            },
            linear_counter_reload_flag: self.linear_counter_reload_flag && self.linear_counter_control_flag,
            ..self
        }
    }

    /// The channel after one timer clock.
    pub open spec fn spec_timer_clocked(self) -> TriangleView {
        if self.current_timer == 0 {
            TriangleView { current_timer: self.period, sequencer: self.sequencer.spec_clocked(), ..self }
        } else {
            TriangleView { current_timer: (self.current_timer - 1) as u16, ..self }
        }
    }

    /// The channel's level: 0 while the linear counter is 0 or the channel
    /// is muted, else the sequencer's level.
    pub open spec fn spec_level(self) -> u8 {
        if self.linear_counter == 0 || self.muted {
            0
        } else {
            triangle_sequence()[self.sequencer.position as int]
        }
    }
}

impl TriangleWave {
    /// The sequencer holds the triangle sequence.
    pub open spec fn wf(&self) -> bool {
        &&& self.sequencer.wf()
        &&& self.sequencer@.sequence == triangle_sequence()
    }

    pub fn new() -> (t: Self)
        ensures
            t.wf(),
            t.sequencer@.position == 0,
            t.period == 0 && t.current_timer == 0 && !t.muted,
            t.linear_counter_reload_value == 0 && t.linear_counter == 0,
            !t.linear_counter_control_flag && !t.linear_counter_reload_flag,
    {
        let mut sequencer = Sequencer::new();
        let levels: [u8; 32] = [
            15, 14, 13, 12, 11, 10, 9, 8, 7, 6, 5, 4, 3, 2, 1, 0, 0, 1, 2, 3, 4, 5, 6, 7, 8, 9, 10,
            11, 12, 13, 14, 15,
        ];
        assert(levels@ =~= triangle_sequence());
        sequencer.set_sequence(levels.as_slice());
        Self {
            period: 0,
            current_timer: 0,
            sequencer,
            muted: false,
            linear_counter_reload_value: 0,
            linear_counter: 0,
            linear_counter_control_flag: false,
            linear_counter_reload_flag: false,
        }
    }

    pub fn get_period(&self) -> (p: u16)
        ensures
            p == self.period,
    {
        self.period
    }

    /// Sets the period; periods below 2 are ultrasonic and mute the channel.
    pub fn set_period(&mut self, period: u16)
        ensures
            final(self).period == period,
            final(self).muted == (period < 2),
            final(self).current_timer == old(self).current_timer,
            final(self).sequencer == old(self).sequencer,
            final(self).linear_counter_reload_value == old(self).linear_counter_reload_value,
            final(self).linear_counter == old(self).linear_counter,
            final(self).linear_counter_control_flag == old(self).linear_counter_control_flag,
            final(self).linear_counter_reload_flag == old(self).linear_counter_reload_flag,
    {
        self.period = period;
        self.muted = period < 2;
    }

    pub fn set_linear_counter_reload_value(&mut self, value: u8)
        ensures
            final(self).linear_counter_reload_value == value,
            final(self).period == old(self).period,
            final(self).muted == old(self).muted,
            final(self).current_timer == old(self).current_timer,
            final(self).sequencer == old(self).sequencer,
            final(self).linear_counter == old(self).linear_counter,
            final(self).linear_counter_control_flag == old(self).linear_counter_control_flag,
            final(self).linear_counter_reload_flag == old(self).linear_counter_reload_flag,
    {
        self.linear_counter_reload_value = value;
    }

    pub fn set_linear_counter_control_flag(&mut self, flag: bool)
        ensures
            final(self).linear_counter_control_flag == flag,
            final(self).period == old(self).period,
            final(self).muted == old(self).muted,
            final(self).current_timer == old(self).current_timer,
            final(self).sequencer == old(self).sequencer,
            final(self).linear_counter == old(self).linear_counter,
            final(self).linear_counter_reload_value == old(self).linear_counter_reload_value,
            final(self).linear_counter_reload_flag == old(self).linear_counter_reload_flag,
    {
        self.linear_counter_control_flag = flag;
    }

    pub fn set_linear_counter_reload_flag(&mut self, flag: bool)
        ensures
            final(self).linear_counter_reload_flag == flag,
            final(self).period == old(self).period,
            final(self).muted == old(self).muted,
            final(self).current_timer == old(self).current_timer,
            final(self).sequencer == old(self).sequencer,
            final(self).linear_counter == old(self).linear_counter,
            final(self).linear_counter_reload_value == old(self).linear_counter_reload_value,
            final(self).linear_counter_control_flag == old(self).linear_counter_control_flag,
    {
        self.linear_counter_reload_flag = flag;
    }

    /// With the reload flag set the linear counter is reloaded, and the flag
    /// stays set only while the control flag is; otherwise the counter
    /// counts down to 0.
    pub fn clock_linear_counter(&mut self)
        ensures
            final(self).linear_counter == (if old(self).linear_counter_reload_flag {
                old(self).linear_counter_reload_value
            } else if old(self).linear_counter != 0 {
                (old(self).linear_counter - 1) as u8
            } else {
                0
            }),
            final(self).linear_counter_reload_flag == (old(self).linear_counter_reload_flag
                && old(self).linear_counter_control_flag),
            final(self).period == old(self).period,
            final(self).muted == old(self).muted,
            final(self).current_timer == old(self).current_timer,
            final(self).sequencer == old(self).sequencer,
            final(self).linear_counter_reload_value == old(self).linear_counter_reload_value,
            final(self).linear_counter_control_flag == old(self).linear_counter_control_flag,
    {
        if self.linear_counter_reload_flag {
            // clear if control flag is also clear
            self.linear_counter_reload_flag = self.linear_counter_control_flag;
            self.linear_counter = self.linear_counter_reload_value;
            // clear only if the control flag is cleared
            if !self.linear_counter_control_flag {
                self.linear_counter_reload_flag = false;
            }
        } else {
            if self.linear_counter != 0 {
                self.linear_counter = self.linear_counter.saturating_sub(1);
            }
        }
    }

    /// The channel's level: 0 while the linear counter is 0 or the channel
    /// is muted, else the sequencer's level.
    pub fn output_level(&self) -> (level: u8)
        requires
            self.wf(),
        ensures
            level == (if self.linear_counter == 0 || self.muted {
                0
            } else {
                triangle_sequence()[self.sequencer@.position as int]
            }),
    {
        if self.linear_counter == 0 || self.muted {
            0
        } else {
            self.sequencer.get_current_value()
        }
    }
}

impl TimedAPUChannel for TriangleWave {
    /// When the timer has run out the sequencer steps and the timer reloads
    /// from the period; otherwise the timer counts down.
    open spec fn spec_timer_clock(self) -> TriangleWave {
        if self.current_timer == 0 {
            TriangleWave {
                current_timer: self.period,
                sequencer: self.sequencer.spec_clocked(),
                ..self
            }
        } else {
            TriangleWave { current_timer: (self.current_timer - 1) as u16, ..self }
        }
    }

    open spec fn spec_can_clock(self) -> bool {
        self.wf()
    }

    fn timer_clock(&mut self) {
        if self.current_timer == 0 {
            self.sequencer.clock();
            self.current_timer = self.period;
        } else {
            self.current_timer -= 1;
        }
    }
}

/// The triangle steps down from 15 to 0, then up from 0 to 15: 32 steps
/// with both ends held for two steps.
pub proof fn lemma_triangle_steps()
    ensures
        triangle_sequence() == seq![
            15u8, 14, 13, 12, 11, 10, 9, 8, 7, 6, 5, 4, 3, 2, 1, 0,
            0, 1, 2, 3, 4, 5, 6, 7, 8, 9, 10, 11, 12, 13, 14, 15,
        ],
{
    assert(triangle_sequence() =~= seq![
        15u8, 14, 13, 12, 11, 10, 9, 8, 7, 6, 5, 4, 3, 2, 1, 0,
        0, 1, 2, 3, 4, 5, 6, 7, 8, 9, 10, 11, 12, 13, 14, 15,
    ]);
}

} // verus!

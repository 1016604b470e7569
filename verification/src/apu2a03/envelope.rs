//! The envelope generator: a constant volume, or a decay from 15 down to 0
//! (looping when asked) at a rate set by its divider.

use vstd::prelude::*;

verus! {

#[derive(Clone, Copy, PartialEq, Eq, Debug, Structural)]
pub struct EnvelopeGenerator {
    pub start_flag: bool,
    pub loop_flag: bool,
    /// also used for constant volume
    pub divider_reload_value: u8,
    pub divider_counter: u8,
    pub use_constant_volume: bool,
    pub decay_level: u8,
}

impl EnvelopeGenerator {
    /// A generator at power-up.
    pub open spec fn spec_new() -> EnvelopeGenerator {
        EnvelopeGenerator {
            start_flag: false,
            loop_flag: false,
            divider_reload_value: 0,
            divider_counter: 0,
            use_constant_volume: false,
            decay_level: 0,
        }
    }

    /// The generator after one quarter-frame clock: a pending start loads
    /// the decay level with 15 and reloads the divider; otherwise the
    /// divider counts down, and when it was at 0 it reloads and the decay
    /// level steps down (or back to 15 when looping).
    pub open spec fn spec_clocked(self) -> EnvelopeGenerator {
        if self.start_flag {
            EnvelopeGenerator {
                start_flag: false,
                decay_level: 15,
                divider_counter: self.divider_reload_value,
                ..self
            }
        } else if self.divider_counter == 0 {
            EnvelopeGenerator {
                divider_counter: self.divider_reload_value,
                decay_level: if self.loop_flag {
                    15
                } else if self.decay_level == 0 {
                    0
                } else {
                    (self.decay_level - 1) as u8
                },
                ..self
            }
        } else {
            EnvelopeGenerator { divider_counter: (self.divider_counter - 1) as u8, ..self }
        }
    }

    pub fn new() -> (e: Self)
        ensures
            e == EnvelopeGenerator::spec_new(),
    {
        Self {
            start_flag: false,
            loop_flag: false,
            divider_reload_value: 0,
            divider_counter: 0,
            use_constant_volume: false,
            decay_level: 0,
        }
    }

    /// The volume (or divider period) and whether it is used as a constant.
    pub fn set_volume(&mut self, vol: u8, use_vol: bool)
        requires
            vol < 0x10,
        ensures
            *final(self) == (EnvelopeGenerator {
                divider_reload_value: vol,
                use_constant_volume: use_vol,
                ..*old(self)
            }),
    {
        self.divider_reload_value = vol;
        self.use_constant_volume = use_vol;
    }

    pub fn set_start_flag(&mut self, start_flag: bool)
        ensures
            *final(self) == (EnvelopeGenerator { start_flag, ..*old(self) }),
    {
        self.start_flag = start_flag;
    }

    pub fn set_loop_flag(&mut self, loop_flag: bool)
        ensures
            *final(self) == (EnvelopeGenerator { loop_flag, ..*old(self) }),
    {
        self.loop_flag = loop_flag;
    }

    pub fn clock(&mut self)
        ensures
            *final(self) == old(self).spec_clocked(),
    {
        // When clocked by the frame counter, one of two actions occurs: if the
        // start flag is clear, the divider is clocked, otherwise the start
        // flag is cleared, the decay level counter is loaded with 15, and
        // the divider's period is immediately reloaded.
        if self.start_flag {
            self.start_flag = false;
            self.decay_level = 15;
            self.divider_counter = self.divider_reload_value;
        } else {
            // When the divider is clocked while at 0, it is loaded with V
            // and clocks the decay level counter. Then one of two actions
            // occurs: If the counter is non-zero, it is decremented, otherwise
            // if the loop flag is set, the decay level counter is loaded with 15.
            if self.divider_counter == 0 {
                self.divider_counter = self.divider_reload_value;
                self.decay_level = if self.loop_flag {
                    15
                } else {
                    self.decay_level.saturating_sub(1)
                };
            } else {
                self.divider_counter = self.divider_counter.saturating_sub(1);
            }
        }
    }

    /// The volume the channel plays at: the constant volume, or the decay
    /// level.
    pub fn current_volume(&self) -> (v: u8)
        ensures
            v == (if self.use_constant_volume {
                self.divider_reload_value
            } else {
                self.decay_level
            }),
    {
        if self.use_constant_volume {
            self.divider_reload_value
        } else {
            self.decay_level
        }
    }
}

/// The decay level never rises above 15: a clock keeps it there.
pub proof fn lemma_decay_level_at_most_15(e: EnvelopeGenerator)
    requires
        e.decay_level <= 15,
    ensures
        e.spec_clocked().decay_level <= 15,
{
}

} // verus!

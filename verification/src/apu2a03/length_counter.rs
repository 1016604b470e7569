//! The length counter that silences a channel after a programmed number of
//! half frames, and a channel paired with its length counter.

use vstd::prelude::*;
use crate::apu2a03::tone_source::TimedAPUChannel;
use crate::bits::lemma_register_masks;

verus! {

/// The lengths, in half frames, that the 5-bit length index selects.
pub const LENGTH_TABLE: [u8; 32] = [
    10, 254, 20, 2, 40, 4, 80, 6, 160, 8, 60, 10, 14, 12, 26, 14, 12, 16, 24, 18, 48, 20, 96, 22, 192,
    24, 72, 26, 16, 28, 32, 30,
];

#[derive(Clone, Copy, PartialEq, Eq, Debug, Structural)]
pub struct LengthCounter {
    pub counter: u8,
    pub halt: bool,
    pub enabled: bool,
}

impl LengthCounter {
    /// A cleared, disabled counter.
    pub open spec fn spec_new() -> LengthCounter {
        LengthCounter { counter: 0, halt: false, enabled: false }
    }

    pub fn new() -> (l: Self)
        ensures
            l == LengthCounter::spec_new(),
    {
        Self { counter: 0, halt: false, enabled: false }
    }

    pub fn counter(&self) -> (c: u8)
        ensures
            c == self.counter,
    {
        self.counter
    }

    /// While halted the counter does not count down.
    pub fn set_halt(&mut self, halt: bool)
        ensures
            *final(self) == (LengthCounter { halt, ..*old(self) }),
    {
        self.halt = halt;
    }

    /// Disabling the counter also clears it.
    pub fn set_enabled(&mut self, enabled: bool)
        ensures
            *final(self) == (if enabled {
                LengthCounter { enabled: true, ..*old(self) }
            } else {
                LengthCounter { enabled: false, counter: 0, ..*old(self) }
            }),
    {
        self.enabled = enabled;
        if !enabled {
            self.counter = 0;
        }
    }

    /// Loads the length that `index` selects, when the counter is enabled.
    pub fn reload_counter(&mut self, index: u8)
        ensures
            *final(self) == (if old(self).enabled {
                LengthCounter { counter: LENGTH_TABLE@[(index & 0x1F) as int], ..*old(self) }
            } else {
                *old(self)
            }),
    {
        if self.enabled {
            proof {
                lemma_register_masks(index);
            }
            self.counter = LENGTH_TABLE[(index & 0x1F) as usize];
        }
    }

    /// One half frame: counts down unless halted or already 0.
    pub fn decrement(&mut self)
        ensures
            *final(self) == old(self).spec_decremented(),
    {
        if !self.halt && self.counter != 0 {
            self.counter -= 1;
        }
    }

    pub open spec fn spec_decremented(self) -> LengthCounter {
        if !self.halt && self.counter != 0 {
            LengthCounter { counter: (self.counter - 1) as u8, ..self }
        } else {
            self
        }
    }
}

/// A channel and the length counter that gates it.
pub struct LengthCountedChannel<C> {
    pub channel: C,
    pub length_counter: LengthCounter,
}

/// A length-counted channel as values.
pub struct LengthCountedView<V> {
    pub channel: V,
    pub length_counter: LengthCounter,
}

impl<C: View> View for LengthCountedChannel<C> {
    type V = LengthCountedView<C::V>;

    open spec fn view(&self) -> LengthCountedView<C::V> {
        LengthCountedView { channel: self.channel@, length_counter: self.length_counter }
    }
}

impl<C: TimedAPUChannel> TimedAPUChannel for LengthCountedChannel<C> {
    /// The timer is the channel's own.
    open spec fn spec_timer_clock(self) -> LengthCountedChannel<C> {
        LengthCountedChannel { channel: self.channel.spec_timer_clock(), ..self }
    }

    open spec fn spec_can_clock(self) -> bool {
        self.channel.spec_can_clock()
    }

    fn timer_clock(&mut self) {
        self.channel.timer_clock();
    }
}

impl<C> LengthCountedChannel<C> {
    /// `channel` with a cleared, disabled length counter.
    pub fn new(channel: C) -> (l: Self)
        ensures
            l.channel == channel,
            l.length_counter == LengthCounter::spec_new(),
    {
        Self { channel, length_counter: LengthCounter::new() }
    }
}

/// The counter after `n` half-frame clocks.
pub open spec fn decremented_times(l: LengthCounter, n: nat) -> LengthCounter
    decreases n,
{
    if n == 0 {
        l
    } else {
        decremented_times(l, (n - 1) as nat).spec_decremented()
    }
}

/// A counter counts down once per half frame and stops at 0: after `n`
/// clocks an unhalted counter holds the old count less `n`, or 0 once that
/// runs out, and a halted one keeps its count; the flags never change.
pub proof fn lemma_counts_down_to_zero(l: LengthCounter, n: nat)
    ensures
        decremented_times(l, n).counter == if l.halt {
            l.counter as int
        } else if n <= l.counter {
            l.counter - n
        } else {
            0
        },
        decremented_times(l, n).halt == l.halt,
        decremented_times(l, n).enabled == l.enabled,
    decreases n,
{
    if n > 0 {
        lemma_counts_down_to_zero(l, (n - 1) as nat);
    }
}

} // verus!

//! A sequencer: a cyclic list of levels and the position in it.

use vstd::prelude::*;

verus! {

pub struct Sequencer {
    pub sequence: Vec<u8>,
    pub current_position: usize,
}

/// A sequencer as values: the levels and the position.
pub struct SequencerView {
    pub sequence: Seq<u8>,
    pub position: nat,
}

impl SequencerView {
    /// The view after one step: the next position, wrapping at the end.
    pub open spec fn spec_clocked(self) -> SequencerView {
        SequencerView {
            position: if self.sequence.len() == 0 {
                0
            } else {
                (self.position + 1) % self.sequence.len()
            },
            ..self
        }
    }

    /// The current level (0 for an empty sequence).
    pub open spec fn spec_value(self) -> u8 {
        if self.sequence.len() == 0 {
            0
        } else {
            self.sequence[self.position as int]
        }
    }
}

impl View for Sequencer {
    type V = SequencerView;

    open spec fn view(&self) -> SequencerView {
        SequencerView { sequence: self.sequence@, position: self.current_position as nat }
    }
}

impl Sequencer {
    /// The position is inside the sequence, or 0 when it is empty.
    pub open spec fn wf(&self) -> bool {
        self.current_position == 0 || self.current_position < self.sequence@.len()
    }

    /// The sequencer after one step: the next position, wrapping at the end.
    pub open spec fn spec_clocked(self) -> Sequencer {
        Sequencer {
            current_position: if self.sequence@.len() == 0 {
                0
            } else {
                ((self.current_position + 1) % (self.sequence@.len() as int)) as usize
            },
            ..self
        }
    }

    /// An empty sequence at position 0.
    pub fn new() -> (s: Self)
        ensures
            s.wf(),
            s@.sequence == Seq::<u8>::empty(),
            s@.position == 0,
    {
        Self { sequence: Vec::new(), current_position: 0 }
    }

    /// Replaces the levels; the position is kept, wrapped into the new
    /// sequence.
    pub fn set_sequence(&mut self, sequence: &[u8])
        requires
            sequence@.len() > 0,
        ensures
            final(self).wf(),
            final(self)@.sequence == sequence@,
            final(self)@.position == old(self)@.position % sequence@.len(),
    {
        let mut v: Vec<u8> = Vec::new();
        let mut i: usize = 0;
        while i < sequence.len()
            invariant
                i <= sequence@.len(),
                v@ == sequence@.subrange(0, i as int),
            decreases sequence@.len() - i,
        {
            v.push(sequence[i]);
            i = i + 1;
            assert(v@ =~= sequence@.subrange(0, i as int));
        }
        assert(v@ =~= sequence@);
        self.current_position = self.current_position % v.len();
        self.sequence = v;
    }

    /// Back to the first level.
    pub fn reset(&mut self)
        ensures
            final(self).wf(),
            final(self)@.sequence == old(self)@.sequence,
            final(self)@.position == 0,
    {
        self.current_position = 0;
    }

    /// Steps to the next level, wrapping at the end.
    pub fn clock(&mut self)
        requires
            old(self).wf(),
        ensures
            final(self).wf(),
            *final(self) == old(self).spec_clocked(),
            final(self)@ == old(self)@.spec_clocked(),
    {
        if self.sequence.len() == 0 {
            self.current_position = 0;
        } else {
            self.current_position = (self.current_position + 1) % self.sequence.len();
        }
    }

    /// The current level (0 for an empty sequence).
    pub fn get_current_value(&self) -> (v: u8)
        requires
            self.wf(),
        ensures
            v == self@.spec_value(),
    {
        if self.sequence.len() == 0 {
            0
        } else {
            self.sequence[self.current_position]
        }
    }
}

/// Stepping a sequencer and then viewing it is viewing it and then
/// stepping the view.
pub proof fn lemma_clocked_view(s: Sequencer)
    ensures
        s.spec_clocked()@ == s@.spec_clocked(),
{
    assert(s.sequence.len() == s.sequence@.len());
}

} // verus!

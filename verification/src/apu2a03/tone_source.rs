//! What every timed audio channel offers: a timer clocked by the APU; and
//! the buffer that carries samples from the APU to the audio player.

use vstd::prelude::*;
use std::collections::VecDeque;

verus! {

/// A channel with a timer. Each clock counts the timer down; when it has
/// run out the channel steps and the timer reloads from its period.
pub trait TimedAPUChannel: Sized {
    /// The channel after one timer clock.
    spec fn spec_timer_clock(self) -> Self;

    /// Whether the channel can be clocked in its current state.
    spec fn spec_can_clock(self) -> bool;

    fn timer_clock(&mut self)
        requires
            old(self).spec_can_clock(),
        ensures
            *final(self) == old(self).spec_timer_clock(),
    ;
}

/// The rate at which the audio player takes samples, per second.
pub const SAMPLE_RATE: u32 = 22050;

/// The samples of one frame at 60 frames per second.
pub const SAMPLES_PER_FRAME: u32 = SAMPLE_RATE / 60;

/// Samples waiting between the APU, which records them in bursts, and the
/// audio player, which takes them one at a time. Two flags tell whether the
/// player takes them faster than they come (`overusing`) or the recording
/// runs more than a frame ahead (`underusing`).
pub struct BufferedChannel<T> {
    buffer: VecDeque<T>,
    overusing: bool,
    underusing: bool,
    last: T,
    recent_record: bool,
    recent_output: bool,
}

/// The state of a [`BufferedChannel`].
pub struct BufferedView<T> {
    /// the samples in the order they will be played
    pub buffer: Seq<T>,
    pub overusing: bool,
    pub underusing: bool,
    /// what is played while the buffer is empty
    pub last: T,
    /// a sample was recorded right after an output request
    pub recent_record: bool,
    /// an output request came since the last recording
    pub recent_output: bool,
}

impl<T> View for BufferedChannel<T> {
    type V = BufferedView<T>;

    closed spec fn view(&self) -> BufferedView<T> {
        BufferedView {
            buffer: self.buffer@,
            overusing: self.overusing,
            underusing: self.underusing,
            last: self.last,
            recent_record: self.recent_record,
            recent_output: self.recent_output,
        }
    }
}

impl<T> BufferedView<T> {
    /// The channel after `sample` is recorded. A recording that follows
    /// another in the same burst marks the channel as underusing when more
    /// than a frame of samples waits and it is not overusing.
    pub open spec fn spec_recorded(self, sample: T) -> BufferedView<T> {
        let buffer = self.buffer.push(sample);
        BufferedView {
            buffer,
            underusing: self.underusing || (self.recent_record && buffer.len()
                > SAMPLES_PER_FRAME && !self.overusing),
            recent_record: self.recent_output,
            recent_output: false,
            ..self
        }
    }

    /// The sample that the next output request plays.
    pub open spec fn spec_output(self) -> T {
        if self.buffer.len() == 0 {
            self.last
        } else {
            self.buffer[0]
        }
    }

    /// The channel after an output request. An empty buffer marks it as
    /// overusing; the last sample taken is kept to be played again.
    pub open spec fn spec_after_output(self) -> BufferedView<T> {
        if self.buffer.len() == 0 {
            BufferedView { overusing: true, underusing: false, recent_output: true, ..self }
        } else if self.buffer.len() == 1 {
            BufferedView {
                buffer: Seq::empty(),
                last: self.buffer[0],
                recent_output: true,
                ..self
            }
        } else {
            BufferedView { buffer: self.buffer.drop_first(), recent_output: true, ..self }
        }
    }
}

/// The samples that `n` successive output requests play.
pub open spec fn played<T>(v: BufferedView<T>, n: nat) -> Seq<T>
    decreases n,
{
    if n == 0 {
        Seq::empty()
    } else {
        seq![v.spec_output()] + played(v.spec_after_output(), (n - 1) as nat)
    }
}

/// Samples are played in the order in which they were recorded: as many
/// output requests as there are buffered samples play exactly those samples.
pub proof fn lemma_played_in_order<T>(v: BufferedView<T>, n: nat)
    requires
        n <= v.buffer.len(),
    ensures
        played(v, n) == v.buffer.take(n as int),
    decreases n,
{
    if n > 0 {
        let next = v.spec_after_output();
        lemma_played_in_order(next, (n - 1) as nat);
        if v.buffer.len() == 1 {
            assert(next.buffer.take(0) =~= Seq::<T>::empty());
        }
        assert(played(v, n) =~= v.buffer.take(n as int));
    }
}

/// While the buffer is empty, every output request plays the last sample
/// played again and marks the channel as overusing.
pub proof fn lemma_empty_repeats_last<T>(v: BufferedView<T>)
    requires
        v.buffer.len() == 0,
    ensures
        v.spec_output() == v.last,
        v.spec_after_output().buffer.len() == 0,
        v.spec_after_output().last == v.last,
        v.spec_after_output().overusing,
{
}

impl<T: Copy> BufferedChannel<T> {
    /// An empty channel that plays `silence` until a sample comes.
    pub fn new(silence: T) -> (c: Self)
        ensures
            c@ == (BufferedView {
                buffer: Seq::empty(),
                overusing: false,
                underusing: false,
                last: silence,
                recent_record: false,
                recent_output: false,
            }),
    {
        Self {
            buffer: VecDeque::new(),
            overusing: false,
            underusing: false,
            last: silence,
            recent_record: false,
            recent_output: false,
        }
    }

    pub fn get_is_overusing(&self) -> (b: bool)
        ensures
            b == self@.overusing,
    {
        self.overusing
    }

    pub fn get_is_underusing(&self) -> (b: bool)
        ensures
            b == self@.underusing,
    {
        self.underusing
    }

    pub fn clear_using_flags(&mut self)
        ensures
            final(self)@ == (BufferedView { overusing: false, underusing: false, ..old(self)@ }),
    {
        self.overusing = false;
        self.underusing = false;
    }

    /// Records a sample at the end of the buffer.
    pub fn recored_sample(&mut self, sample: T)
        ensures
            final(self)@ == old(self)@.spec_recorded(sample),
    {
        self.buffer.push_back(sample);
        if self.recent_record {
            if self.buffer.len() > SAMPLES_PER_FRAME as usize && !self.overusing {
                self.underusing = true;
            }
            self.recent_record = false;
        }
        if self.recent_output {
            self.recent_output = false;
            self.recent_record = true;
        }
    }

    pub fn clear_buffer(&mut self)
        ensures
            final(self)@ == (BufferedView { buffer: Seq::empty(), ..old(self)@ }),
    {
        self.buffer.clear();
    }

    pub fn len(&self) -> (n: usize)
        ensures
            n == self@.buffer.len(),
    {
        self.buffer.len()
    }

    /// Takes all the buffered samples, in order, and leaves the buffer empty.
    pub fn take_current_buffer(&mut self) -> (samples: Vec<T>)
        ensures
            samples@ == old(self)@.buffer,
            final(self)@ == (BufferedView { buffer: Seq::empty(), ..old(self)@ }),
    {
        let mut samples: Vec<T> = Vec::new();
        while self.buffer.len() > 0
            invariant
                samples@ + self.buffer@ == old(self)@.buffer,
                self@ == (BufferedView { buffer: self.buffer@, ..old(self)@ }),
            decreases self.buffer@.len(),
        {
            match self.buffer.pop_front() {
                Some(sample) => samples.push(sample),
                None => {},
            }
        }
        assert(self.buffer@ =~= Seq::<T>::empty());
        samples
    }

    /// The next sample to play.
    pub fn get_output(&mut self) -> (sample: T)
        ensures
            sample == old(self)@.spec_output(),
            final(self)@ == old(self)@.spec_after_output(),
    {
        self.recent_output = true;
        if self.buffer.len() == 0 {
            self.overusing = true;
            self.underusing = false;
            self.last
        } else if self.buffer.len() == 1 {
            match self.buffer.pop_front() {
                Some(sample) => self.last = sample,
                None => {},
            }
            assert(self.buffer@ =~= Seq::<T>::empty());
            self.last
        } else {
            let sample = match self.buffer.pop_front() {
                Some(sample) => sample,
                None => self.last,
            };
            assert(self.buffer@ =~= old(self)@.buffer.drop_first());
            sample
        }
    }
}

} // verus!

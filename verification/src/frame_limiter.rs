//! The bookkeeping of a frame limiter: how long to sleep before a frame,
//! the running average of frame times, and when a second has passed for
//! the frame rate to be measured. Reading the clock, sleeping and the
//! floating-point rate are the caller's.

use vstd::prelude::*;

verus! {

/// `value` increased by `percent` percent, rounded down.
pub fn add_percent(value: u64, percent: u64) -> (r: u64)
    requires
        value * 100 + value * percent <= u64::MAX,
    ensures
        r == (value * 100 + value * percent) / 100,
{
    assert(value * 100 <= u64::MAX && value * percent <= u64::MAX) by (nonlinear_arith)
        requires
            value * 100 + value * percent <= u64::MAX,
    ;
    (value * 100 + value * percent) / 100
}

/// The new average frame time: weighted two to one towards the old average
/// when the frame was faster, towards the frame when it was slower, and at
/// least 1000 microseconds.
pub open spec fn next_average(average: u64, elapsed: u64) -> int {
    let weighted = if elapsed < average {
        (average * 2 + elapsed) / 3
    } else {
        (average + elapsed * 2) / 3
    };
    if weighted < 1000 {
        1000
    } else {
        weighted
    }
}

/// The running average moves toward the new frame time without passing
/// it: it is never below 1000, it stays between the old average and the
/// frame time when both are at least 1000, and a frame as long as the
/// average leaves it unchanged.
pub proof fn lemma_average_between(average: u64, elapsed: u64)
    ensures
        next_average(average, elapsed) >= 1000,
        (average >= 1000 && elapsed >= 1000) ==> {
            &&& elapsed <= average ==> elapsed <= next_average(average, elapsed) <= average
            &&& average <= elapsed ==> average <= next_average(average, elapsed) <= elapsed
        },
        average >= 1000 ==> next_average(average, average) == average,
{
}

/// The time stamps and counters of a frame limiter, in microseconds.
pub struct FrameTiming {
    pub time_per_frame: u64,
    pub begin_timestamp: u64,
    pub last_frame_timestamp: u64,
    pub average_frametime: u64,
    pub frame_counter: u64,
    pub frame_counter_timestamp: u64,
    pub time_stamp_a: u64,
    pub time_stamp_b: u64,
    pub offset: i64,
}

impl FrameTiming {
    /// A limiter for frames of `time_per_frame` microseconds, started at `now`.
    pub fn new(time_per_frame: u64, now: u64) -> (t: Self)
        ensures
            t.time_per_frame == time_per_frame,
            t.frame_counter_timestamp == now && t.time_stamp_a == now && t.time_stamp_b == now,
            t.begin_timestamp == 0 && t.last_frame_timestamp == 0,
            t.average_frametime == 1000 && t.frame_counter == 0 && t.offset == 0,
    {
        let mut timing = Self {
            time_per_frame,
            begin_timestamp: 0,
            last_frame_timestamp: 0,
            average_frametime: 1000,
            frame_counter: 0,
            frame_counter_timestamp: now,
            time_stamp_a: now,
            time_stamp_b: now,
            offset: 0,
        };
        timing.average_frametime = timing.time_per_frame / 2;
        timing.reset(now);
        timing
    }

    /// Starts counting again from `now`.
    pub fn reset(&mut self, now: u64)
        ensures
            final(self).frame_counter_timestamp == now,
            final(self).time_stamp_a == now,
            final(self).time_stamp_b == now,
            final(self).begin_timestamp == 0,
            final(self).last_frame_timestamp == 0,
            final(self).average_frametime == 1000,
            final(self).frame_counter == 0,
            final(self).time_per_frame == old(self).time_per_frame,
            final(self).offset == old(self).offset,
    {
        self.frame_counter_timestamp = now;
        self.time_stamp_a = now;
        self.time_stamp_b = now;
        self.begin_timestamp = 0;
        self.last_frame_timestamp = 0;
        self.average_frametime = 1000;
        self.frame_counter = 0;
    }

    /// The start of a frame at `now`: the microseconds to sleep, when the
    /// work since the last frame took less than a frame and the offset
    /// leaves a positive time.
    pub fn begin(&mut self, now: u64) -> (sleep: Option<u64>)
        requires
            now >= old(self).time_stamp_b,
            now - old(self).time_stamp_b < old(self).time_per_frame ==> i64::MIN <= ((old(
                self,
            ).time_per_frame - (now - old(self).time_stamp_b)) as i64) + old(self).offset <= i64::MAX,
        ensures
            final(self).time_stamp_a == now,
            final(self).time_per_frame == old(self).time_per_frame,
            final(self).offset == old(self).offset,
            sleep == (if now - old(self).time_stamp_b < old(self).time_per_frame && ((old(
                self,
            ).time_per_frame - (now - old(self).time_stamp_b)) as i64) + old(self).offset > 0 {
                Some((((old(self).time_per_frame - (now - old(self).time_stamp_b)) as i64) + old(
                    self,
                ).offset) as u64)
            } else {
                None
            }),
    {
        self.time_stamp_a = now;
        let work_time = self.time_stamp_a - self.time_stamp_b;
        if work_time < self.time_per_frame {
            let sleep_micros = (self.time_per_frame - work_time) as i64 + self.offset;
            if sleep_micros > 0 {
                return Some(sleep_micros as u64);
            }
        }
        None
    }

    /// The end of the sleep at `now`.
    pub fn after_sleep(&mut self, now: u64)
        ensures
            *final(self) == (FrameTiming { time_stamp_b: now, ..*old(self) }),
    {
        self.time_stamp_b = now;
    }

    /// The end of a frame at `current`: the average frame time moves
    /// towards this frame's time, the frame is counted, and once a second
    /// has passed since the last count the frames counted and the time
    /// they took are returned and counting starts again.
    pub fn end(&mut self, current: u64) -> (report: Option<(u64, u64)>)
        requires
            current >= old(self).begin_timestamp,
            current >= old(self).frame_counter_timestamp,
            old(self).average_frametime * 2 + (current - old(self).begin_timestamp) <= u64::MAX,
            old(self).average_frametime + (current - old(self).begin_timestamp) * 2 <= u64::MAX,
            old(self).time_per_frame * 120 <= u64::MAX,
            old(self).last_frame_timestamp + old(self).time_per_frame <= u64::MAX,
            old(self).frame_counter < u64::MAX,
        ensures
            final(self).average_frametime == next_average(
                old(self).average_frametime,
                (current - old(self).begin_timestamp) as u64,
            ),
            final(self).last_frame_timestamp == (if current - old(self).frame_counter_timestamp > old(
                self,
            ).time_per_frame * 120 / 100 {
                current as int
            } else {
                old(self).last_frame_timestamp + old(self).time_per_frame
            }),
            current - old(self).frame_counter_timestamp >= 1000 * 1000 ==> report == Some(
                ((old(self).frame_counter + 1) as u64, (current - old(self).frame_counter_timestamp) as u64),
            ) && final(self).frame_counter == 0 && final(self).frame_counter_timestamp == current,
            current - old(self).frame_counter_timestamp < 1000 * 1000 ==> report.is_none()
                && final(self).frame_counter == old(self).frame_counter + 1
                && final(self).frame_counter_timestamp == old(self).frame_counter_timestamp,
            final(self).time_per_frame == old(self).time_per_frame,
            final(self).begin_timestamp == old(self).begin_timestamp,
            final(self).offset == old(self).offset,
    {
        let elapsed = current - self.begin_timestamp;
        let elapsed_since_last_fps_update = current - self.frame_counter_timestamp;
        self.average_frametime = if elapsed < self.average_frametime {
            (self.average_frametime * 2 + elapsed) / 3
        } else {
            (self.average_frametime + elapsed * 2) / 3
        };
        if self.average_frametime < 1000 {
            self.average_frametime = 1000;
        }
        assert(self.time_per_frame * 100 + self.time_per_frame * 20 == self.time_per_frame * 120);
        if elapsed_since_last_fps_update > add_percent(self.time_per_frame, 20) {
            self.last_frame_timestamp = current;
        } else {
            self.last_frame_timestamp += self.time_per_frame;
        }
        self.frame_counter += 1;
        if elapsed_since_last_fps_update >= 1000 * 1000 {
            let frames = self.frame_counter;
            self.frame_counter_timestamp = current;
            self.frame_counter = 0;
            Some((frames, elapsed_since_last_fps_update))
        } else {
            None
        }
    }

    /// Moves the sleep correction by `change` microseconds.
    pub fn adjust_offset(&mut self, change: i64)
        requires
            i64::MIN <= old(self).offset - change <= i64::MAX,
        ensures
            *final(self) == (FrameTiming { offset: (old(self).offset - change) as i64, ..*old(self) }),
    {
        self.offset -= change;
    }
}

} // verus!

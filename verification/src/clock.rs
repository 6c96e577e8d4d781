//! A clock that reports the playhead between two looks at the playback
//! state, by counting on from the last look with the wall clock.
//!
//! Times and instants are whole nanoseconds; instants count from any origin
//! that the caller keeps to.

use vstd::prelude::*;

verus! {

/// Mathematical model of a [`Timer`].
pub struct TimerModel {
    /// The playhead's time at the last look.
    pub last_time: nat,
    /// The wall-clock instant of the last look.
    pub last_pause: nat,
}

/// The wall-clock time that has passed from `earlier` to `now`; none if
/// `now` lies before `earlier`.
pub open spec fn elapsed(now: nat, earlier: nat) -> nat {
    if now >= earlier {
        (now - earlier) as nat
    } else {
        0
    }
}

/// `time + passed`, held at the largest time that can be reported.
pub open spec fn time_after(time: nat, passed: nat) -> nat {
    if time + passed <= u128::MAX {
        time + passed
    } else {
        u128::MAX as nat
    }
}

impl TimerModel {
    /// What the clock reports at `now` while playback runs.
    pub open spec fn reading(self, now: nat) -> nat {
        time_after(self.last_time, elapsed(now, self.last_pause))
    }
}

/// Reports the playhead to consumers that ask every frame.
pub struct Timer {
    last_pause: u128,
    last_time: u128,
}

impl View for Timer {
    type V = TimerModel;

    closed spec fn view(&self) -> TimerModel {
        TimerModel { last_time: self.last_time as nat, last_pause: self.last_pause as nat }
    }
}

impl Timer {
    /// A clock whose last look was at instant `now`, with the playhead at
    /// zero.
    pub fn new(now: u128) -> (timer: Self)
        ensures
            timer@ == (TimerModel { last_time: 0, last_pause: now as nat }),
    {
        Timer { last_pause: now, last_time: 0 }
    }

    /// Reports the playhead at instant `now`. While paused, that is `time`,
    /// the playhead as the playback state has it, and the clock takes a new
    /// look: it will count on from `time` and `now`. While playing, it is the
    /// time of the last look plus the wall-clock time passed since, and the
    /// clock stays as it is.
    pub fn sync(&mut self, paused: bool, time: u128, now: u128) -> (reported: u128)
        ensures
            paused ==> reported == time && final(self)@ == (TimerModel {
                last_time: time as nat,
                last_pause: now as nat,
            }),
            !paused ==> reported == old(self)@.reading(now as nat) && final(self)@ == old(self)@,
    {
        if paused {
            self.last_pause = now;
            self.last_time = time;
            time
        } else {
            let diff: u128 = now.saturating_sub(self.last_pause);
            diff.saturating_add(self.last_time)
        }
    }

    /// Leaves the clock as it is, whatever `time` is.
    pub fn interpolate(&mut self, time: u128)
        ensures
            final(self)@ == old(self)@,
    {
    }

    /// Takes a new look: the clock will count on from `time` and `now`.
    pub fn reset(&mut self, time: u128, now: u128)
        ensures
            final(self)@ == (TimerModel { last_time: time as nat, last_pause: now as nat }),
    {
        self.last_pause = now;
        self.last_time = time;
    }
}

/// Right after a look the clock reports the time it was given, and from then
/// on it runs with the wall clock: what it reports `passed` nanoseconds after
/// a look at `time` is `time + passed`, as long as that can be held.
pub proof fn lemma_reading_follows_wall_clock(time: nat, now: nat, passed: nat)
    requires
        time + passed <= u128::MAX,
    ensures
        (TimerModel { last_time: time, last_pause: now }).reading(now) == time,
        (TimerModel { last_time: time, last_pause: now }).reading(now + passed) == time + passed,
{
}

} // verus!

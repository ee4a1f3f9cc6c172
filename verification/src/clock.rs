//! The frame clock: how much time the loop has seen go by.
use vstd::prelude::*;

verus! {

/// Time state of the render loop.
///
/// Instants and durations are whole nanoseconds.  An instant is the reading
/// of a monotonic clock, counted from an origin that the host picks once.
#[derive(Clone, Copy, Debug, PartialEq, Eq)]
pub struct ClockState {
    /// Sum of all frame deltas since the loop started.
    pub elapsed_total: u64,
    /// The instant at which the last frame was timed.
    pub last_tick: u64,
}

impl ClockState {
    /// The loop cannot have seen more time than lies between the clock's
    /// origin and the last frame.
    pub open spec fn wf(self) -> bool {
        self.elapsed_total <= self.last_tick
    }

    /// The instant a frame at reading `now` is timed at: a reading that
    /// predates the last frame counts as the last frame's own instant.
    pub open spec fn instant_used(self, now: u64) -> u64 {
        if now >= self.last_tick {
            now
        } else {
            self.last_tick
        }
    }

    /// The frame delta observed at reading `now`.  Never negative.
    pub open spec fn delta(self, now: u64) -> nat {
        (self.instant_used(now) - self.last_tick) as nat
    }

    /// The clock after a frame at reading `now`.
    pub open spec fn advanced(self, now: u64) -> ClockState {
        ClockState {
            elapsed_total: (self.elapsed_total + self.delta(now)) as u64,
            last_tick: self.instant_used(now),
        }
    }

    /// A clock that starts at instant `now` with nothing elapsed.
    pub fn new(now: u64) -> (clock: ClockState)
        ensures
            clock == (ClockState { elapsed_total: 0, last_tick: now }),
            clock.wf(),
    {
        ClockState { elapsed_total: 0, last_tick: now }
    }

    /// Times one frame at reading `now`: returns the delta since the last
    /// frame, adds it to the elapsed total and remembers the instant.
    pub fn advance(&mut self, now: u64) -> (dt: u64)
        requires
            old(self).wf(),
        ensures
            dt == old(self).delta(now),
            *final(self) == old(self).advanced(now),
            final(self).wf(),
            final(self).elapsed_total == old(self).elapsed_total + dt,
            final(self).last_tick == old(self).last_tick + dt,
            final(self).last_tick >= now,
    {
        let used: u64 = if now >= self.last_tick { now } else { self.last_tick };
        let dt: u64 = used - self.last_tick;
        self.elapsed_total = self.elapsed_total + dt;
        self.last_tick = used;
        dt
    }
}

/// A frame never takes time away: the delta is the distance from the stored
/// instant to the instant used, the instant used predates neither the stored
/// one nor the reading, and the elapsed total grows by exactly the delta.
pub proof fn lemma_advance_is_monotone(clock: ClockState, now: u64)
    requires
        clock.wf(),
    ensures
        clock.advanced(now).wf(),
        clock.advanced(now).last_tick >= clock.last_tick,
        clock.advanced(now).last_tick >= now,
        clock.advanced(now).last_tick == clock.last_tick + clock.delta(now),
        clock.advanced(now).elapsed_total == clock.elapsed_total + clock.delta(now),
        clock.advanced(now).elapsed_total >= clock.elapsed_total,
{
}

} // verus!

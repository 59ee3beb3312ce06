//! A reusable debounce primitive: it tracks the time elapsed since it last
//! fired, reports whether it is ready, and consumes the elapsed time when it
//! fires.

use vstd::prelude::*;

verus! {

/// Debounce timer for the pick/drop/deliver action.
///
/// The timer is ready once the accumulated elapsed time reaches its duration;
/// firing consumes the accumulated time, so it cannot fire again until the
/// duration has elapsed anew.
pub struct Cooldown {
    /// How long the timer must accumulate before it can fire again.
    duration_ms: u64,
    /// Time accumulated since construction or the last successful fire,
    /// capped at `duration_ms` (a longer wait readies the timer no further).
    elapsed_ms: u64,
}

impl Cooldown {
    /// Duration of the debounce window, in milliseconds.
    pub closed spec fn duration(&self) -> u64 {
        self.duration_ms
    }

    /// Time accumulated toward the next fire, in milliseconds.
    pub closed spec fn elapsed(&self) -> u64 {
        self.elapsed_ms
    }

    /// The timer may fire exactly when the accumulated time has reached the
    /// duration.
    pub open spec fn is_ready(&self) -> bool {
        self.elapsed() >= self.duration()
    }

    /// A fresh timer: the accumulator starts at zero, so the timer must wait
    /// a full duration before its first fire.
    pub fn from_millis(duration_ms: u64) -> (c: Self)
        ensures
            c.duration() == duration_ms,
            c.elapsed() == 0,
    {
        Cooldown { duration_ms, elapsed_ms: 0 }
    }

    /// Advances the accumulator by the elapsed tick time. The accumulator is
    /// capped at the duration: once ready, waiting longer changes nothing.
    pub fn tick(&mut self, delta_ms: u64)
        ensures
            final(self).duration() == old(self).duration(),
            final(self).elapsed() == if old(self).elapsed() + delta_ms >= old(self).duration() {
                old(self).duration()
            } else {
                (old(self).elapsed() + delta_ms) as u64
            },
    {
        if delta_ms >= self.duration_ms || self.elapsed_ms >= self.duration_ms - delta_ms {
            self.elapsed_ms = self.duration_ms;
        } else {
            self.elapsed_ms = self.elapsed_ms + delta_ms;
        }
    }

    /// Reports whether the timer is ready to fire.
    pub fn ready(&self) -> (r: bool)
        ensures
            r == self.is_ready(),
    {
        self.elapsed_ms >= self.duration_ms
    }

    /// Fires the timer if it is ready, consuming the accumulated time.
    /// Returns whether it fired; when not ready, nothing changes.
    pub fn try_fire(&mut self) -> (fired: bool)
        ensures
            fired == old(self).is_ready(),
            final(self).duration() == old(self).duration(),
            final(self).elapsed() == if old(self).is_ready() { 0u64 } else { old(self).elapsed() },
    {
        if self.elapsed_ms >= self.duration_ms {
            self.elapsed_ms = 0;
            true
        } else {
            false
        }
    }
}

} // verus!

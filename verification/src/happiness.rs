//! The companion's mood: a bounded value that decays on a fixed interval and
//! is restored by successful deliveries.
//!
//! The mood value counts thousandths of full happiness, so it lives in
//! `[0, MOOD_SCALE]`; every decay and reward clamps into that range.

use vstd::prelude::*;

verus! {

/// Full happiness, in thousandths: the mood value's upper bound.
pub const MOOD_SCALE: u32 = 1000;

/// Largest decay interval the mood engine accepts, in milliseconds.
pub const INTERVAL_LIMIT_MS: u64 = 1_000_000_000;

/// Largest tick duration the mood engine accepts, in milliseconds.
pub const MOOD_TICK_LIMIT_MS: u64 = 1_000_000;

/// One mood mutation: a timed decay or a delivery reward.
#[derive(Clone, Copy, PartialEq, Eq, Structural, Debug)]
pub enum MoodOp {
    Decay(u32),
    Reward(u32),
}

/// Clamps a mood value into `[0, MOOD_SCALE]`.
pub open spec fn clamp_mood(v: int) -> int {
    if v < 0 {
        0
    } else if v > MOOD_SCALE {
        MOOD_SCALE as int
    } else {
        v
    }
}

/// The mood value after one decay or reward.
pub open spec fn apply_op(v: int, op: MoodOp) -> int {
    match op {
        MoodOp::Decay(amount) => clamp_mood(v - amount),
        MoodOp::Reward(amount) => clamp_mood(v + amount),
    }
}

/// The mood value after a sequence of decays and rewards, applied in order.
pub open spec fn apply_ops(v: int, ops: Seq<MoodOp>) -> int
    decreases ops.len(),
{
    if ops.len() == 0 {
        v
    } else {
        apply_ops(apply_op(v, ops[0]), ops.skip(1))
    }
}

/// The mood value stays in `[0, MOOD_SCALE]` after any sequence of decay and
/// reward operations, whatever their magnitudes and count.
pub proof fn lemma_mood_stays_bounded(v: int, ops: Seq<MoodOp>)
    requires
        0 <= v <= MOOD_SCALE,
    ensures
        0 <= apply_ops(v, ops) <= MOOD_SCALE,
    decreases ops.len(),
{
    if ops.len() > 0 {
        lemma_mood_stays_bounded(apply_op(v, ops[0]), ops.skip(1));
    }
}

/// The companion's mood value, in thousandths of full happiness.
pub struct Happiness {
    value: u32,
}

impl Happiness {
    /// The mood value never leaves `[0, MOOD_SCALE]`.
    #[verifier::type_invariant]
    spec fn bounded(self) -> bool {
        self.value <= MOOD_SCALE
    }

    /// The current mood value, in thousandths of full happiness.
    pub closed spec fn value(&self) -> u32 {
        self.value
    }

    /// Full happiness, the mood at spawn.
    pub fn happy() -> (h: Self)
        ensures
            h.value() == MOOD_SCALE,
    {
        Happiness { value: MOOD_SCALE }
    }

    /// Rewards the mood by the given amount, clamped at full happiness.
    pub fn add(&mut self, amount: u32)
        ensures
            final(self).value() == apply_op(old(self).value() as int, MoodOp::Reward(amount)),
    {
        proof {
            use_type_invariant(&*self);
        }
        if amount >= MOOD_SCALE || self.value >= MOOD_SCALE - amount {
            self.value = MOOD_SCALE;
        } else {
            self.value = self.value + amount;
        }
    }

    /// Decays the mood by the given amount, clamped at zero.
    pub fn sub(&mut self, amount: u32)
        ensures
            final(self).value() == apply_op(old(self).value() as int, MoodOp::Decay(amount)),
    {
        proof {
            use_type_invariant(&*self);
        }
        if self.value >= amount {
            self.value = self.value - amount;
        } else {
            self.value = 0;
        }
    }

    /// Reads the mood value; it is always within `[0, MOOD_SCALE]`.
    pub fn value_milli(&self) -> (r: u32)
        ensures
            r == self.value(),
            r <= MOOD_SCALE,
    {
        proof {
            use_type_invariant(self);
        }
        self.value
    }

    /// The display asset index presentation reads: `floor(mood * n)` over the
    /// fixed-point scale, kept inside `[0, n)`.
    pub fn sprite_index(&self, n: u32) -> (idx: u32)
        requires
            1 <= n <= 4096,
        ensures
            idx == mood_sprite_index(self.value() as int, n as int),
            idx < n,
    {
        proof {
            use_type_invariant(self);
            assert(self.value * n <= 4_096_000) by (nonlinear_arith)
                requires self.value <= 1000, n <= 4096;
            assert(self.value * n / 1000 >= 0);
        }
        let i: u32 = self.value * n / MOOD_SCALE;
        if i < n {
            i
        } else {
            n - 1
        }
    }
}

/// The display asset index for a mood value `v` over `n` assets.
pub open spec fn mood_sprite_index(v: int, n: int) -> int {
    if v * n / (MOOD_SCALE as int) < n {
        v * n / (MOOD_SCALE as int)
    } else {
        n - 1
    }
}

/// The fixed-interval timer driving mood decay: it fires once per tick in
/// which the accumulated time reaches the interval, then keeps the remainder.
pub struct DecayTimer {
    interval_ms: u64,
    acc_ms: u64,
}

impl DecayTimer {
    /// The accumulator stays below the interval, which is positive and
    /// bounded.
    #[verifier::type_invariant]
    spec fn timer_ok(self) -> bool {
        0 < self.interval_ms <= INTERVAL_LIMIT_MS && self.acc_ms < self.interval_ms
    }

    /// The configured decay interval, in milliseconds.
    pub closed spec fn interval(&self) -> u64 {
        self.interval_ms
    }

    /// Time accumulated toward the next decay, in milliseconds.
    pub closed spec fn accumulated(&self) -> u64 {
        self.acc_ms
    }

    /// A fresh timer with the given interval and an empty accumulator.
    pub fn new(interval_ms: u64) -> (t: Self)
        requires
            0 < interval_ms <= INTERVAL_LIMIT_MS,
        ensures
            t.interval() == interval_ms,
            t.accumulated() == 0,
    {
        DecayTimer { interval_ms, acc_ms: 0 }
    }

    /// Advances the timer; reports whether the interval elapsed this tick.
    /// When it fires, the time beyond the last whole interval is kept.
    pub fn tick(&mut self, delta_ms: u64) -> (fired: bool)
        requires
            delta_ms <= MOOD_TICK_LIMIT_MS,
        ensures
            final(self).interval() == old(self).interval(),
            fired == (old(self).accumulated() + delta_ms >= old(self).interval()),
            final(self).accumulated() as int == if fired {
                (old(self).accumulated() + delta_ms) % (old(self).interval() as int)
            } else {
                old(self).accumulated() + delta_ms
            },
            final(self).accumulated() < final(self).interval(),
    {
        proof {
            use_type_invariant(&*self);
        }
        let total: u64 = self.acc_ms + delta_ms;
        if total >= self.interval_ms {
            self.acc_ms = total % self.interval_ms;
            true
        } else {
            self.acc_ms = total;
            false
        }
    }
}

} // verus!

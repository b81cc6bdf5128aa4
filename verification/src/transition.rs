//! The transition driver: a single continuous animation progress value in
//! `[0, PROGRESS_END]`, driven linearly toward a requested endpoint over a
//! fixed duration, with an immediate non-animated jump for resets.

use vstd::prelude::*;

verus! {

/// Progress value at the start endpoint of a transition.
pub const PROGRESS_START: u64 = 0;

/// Progress value at the end endpoint of a transition.
pub const PROGRESS_END: u64 = 1000;

/// Progress value at the neutral resting point (half way between the
/// endpoints): no visible offset.
pub const PROGRESS_NEUTRAL: u64 = 500;

/// How far an animation advances for `elapsed` time units out of a whole
/// transition of `duration` time units, scaled so that `PROGRESS_END`
/// thousandths stand for one complete traversal. Elapsed time at or beyond
/// the duration always yields a full traversal.
pub open spec fn eased_delta(elapsed: int, duration: int) -> int {
    if elapsed * 1000 / duration >= 1000 {
        1000
    } else {
        elapsed * 1000 / duration
    }
}

/// Progress after moving from `progress` toward `target` by at most `delta`
/// thousandths: the motion is monotonic and saturates exactly at the target,
/// never overshooting and never stopping short once `delta` covers the
/// remaining distance.
pub open spec fn stepped(progress: int, target: int, delta: int) -> int {
    if target >= progress {
        if progress + delta >= target {
            target
        } else {
            progress + delta
        }
    } else {
        if progress - delta <= target {
            target
        } else {
            progress - delta
        }
    }
}

/// Owns the animation progress value. While a target is set, `step` moves
/// progress linearly toward it; `jump_to` force-sets progress instantly and
/// cancels any in-flight transition.
pub struct Transition {
    progress: u64,
    duration: u64,
    target: Option<u64>,
}

impl Transition {
    /// Current progress, in thousandths of the full range.
    pub closed spec fn progress(self) -> u64 {
        self.progress
    }

    /// Length of a full transition, in time units.
    pub closed spec fn duration(self) -> u64 {
        self.duration
    }

    /// The endpoint an in-flight transition is moving toward, if any.
    pub closed spec fn target(self) -> Option<u64> {
        self.target
    }

    /// Well-formedness: progress stays inside the range, the duration is
    /// positive, and the only legal animation targets are the two endpoints.
    pub open spec fn wf(self) -> bool {
        &&& self.progress() <= PROGRESS_END
        &&& self.duration() >= 1
        &&& self.target() is Some ==> (self.target()->0 == PROGRESS_START
            || self.target()->0 == PROGRESS_END)
    }

    /// A fresh driver: at rest on `initial`, with no transition in flight.
    pub fn new(duration: u64, initial: u64) -> (t: Transition)
        requires
            duration >= 1,
            initial <= PROGRESS_END,
        ensures
            t.wf(),
            t.progress() == initial,
            t.duration() == duration,
            t.target() is None,
    {
        Transition { progress: initial, duration, target: None }
    }

    /// Reads the current progress value, in thousandths.
    pub fn progress_value(&self) -> (v: u64)
        ensures
            v == self.progress(),
    {
        self.progress
    }

    /// Begins (or redirects) a transition toward an endpoint. Safe to call
    /// mid-transition: progress is left where it is, so the redirect never
    /// jumps backward past distance already traveled.
    pub fn animate_to(&mut self, target: u64)
        requires
            old(self).wf(),
            target == PROGRESS_START || target == PROGRESS_END,
        ensures
            final(self).wf(),
            final(self).target() == Some(target),
            final(self).progress() == old(self).progress(),
            final(self).duration() == old(self).duration(),
    {
        self.target = Some(target);
    }

    /// Force-sets progress with no interpolation and no intermediate values,
    /// cancelling any in-flight transition.
    pub fn jump_to(&mut self, value: u64)
        requires
            old(self).wf(),
            value <= PROGRESS_END,
        ensures
            final(self).wf(),
            final(self).progress() == value,
            final(self).target() is None,
            final(self).duration() == old(self).duration(),
    {
        self.progress = value;
        self.target = None;
    }

    /// Advances the animation by `elapsed` time units and returns the new
    /// progress value. With no transition in flight, progress does not move.
    /// Otherwise progress moves linearly toward the target and lands on it
    /// exactly — never asymptotically — once enough time has passed; in
    /// particular a single step of a full duration always reaches the target.
    pub fn step(&mut self, elapsed: u64) -> (v: u64)
        requires
            old(self).wf(),
        ensures
            final(self).wf(),
            final(self).duration() == old(self).duration(),
            final(self).target() == old(self).target(),
            v == final(self).progress(),
            old(self).target() is None ==> final(self).progress() == old(self).progress(),
            old(self).target() is Some ==> final(self).progress() == stepped(
                old(self).progress() as int,
                old(self).target()->0 as int,
                eased_delta(elapsed as int, old(self).duration() as int),
            ),
            old(self).target() is Some && elapsed >= old(self).duration()
                ==> final(self).progress() == old(self).target()->0,
    {
        match self.target {
            None => self.progress,
            Some(t) => {
                let scaled: u128 = (elapsed as u128) * 1000 / (self.duration as u128);
                let delta: u64 = if scaled >= 1000 {
                    1000
                } else {
                    scaled as u64
                };
                proof {
                    lemma_eased_delta_full(elapsed as int, self.duration as int);
                }
                if t >= self.progress {
                    if self.progress + delta >= t {
                        self.progress = t;
                    } else {
                        self.progress = self.progress + delta;
                    }
                } else {
                    if delta >= self.progress - t {
                        self.progress = t;
                    } else {
                        self.progress = self.progress - delta;
                    }
                }
                self.progress
            },
        }
    }
}

/// Elapsed time at or beyond the duration always scales to a full traversal,
/// so a transition reaches its endpoint exactly rather than asymptotically.
pub proof fn lemma_eased_delta_full(elapsed: int, duration: int)
    requires
        0 < duration,
        0 <= elapsed,
    ensures
        elapsed >= duration ==> eased_delta(elapsed, duration) == 1000,
        0 <= eased_delta(elapsed, duration) <= 1000,
{
    vstd::arithmetic::div_mod::lemma_div_pos_is_pos(elapsed * 1000, duration);
    vstd::arithmetic::mul::lemma_mul_nonnegative(elapsed, 1000);
    if elapsed >= duration {
        vstd::arithmetic::mul::lemma_mul_inequality(duration, elapsed, 1000);
        vstd::arithmetic::div_mod::lemma_div_is_ordered(duration * 1000, elapsed * 1000, duration);
        vstd::arithmetic::div_mod::lemma_div_by_multiple(1000, duration);
    }
}

} // verus!

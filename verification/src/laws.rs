//! The laws of the carousel, stated over the same spec functions its
//! contracts use: every resolved slide index is in range, the index after
//! any sequence of completed transition cycles depends only on how many
//! completed at each endpoint, and a driven transition lands exactly on its
//! endpoint.

use vstd::prelude::*;

use crate::component::{index_after_progress, wrap_index};
use crate::transition::{eased_delta, stepped, PROGRESS_END, PROGRESS_START};

verus! {

/// The index after one completed transition cycle: a cycle completing at
/// the end endpoint decrements the current index, one completing at the
/// start endpoint increments it, both with wraparound.
pub open spec fn completion_step(current_index: int, count: int, at_end: bool) -> int {
    if at_end {
        wrap_index(current_index, -1, count)
    } else {
        wrap_index(current_index, 1, count)
    }
}

/// The index after a whole sequence of completed transition cycles, applied
/// in order (`true` for a cycle completing at the end endpoint).
pub open spec fn apply_completions(current_index: int, count: int, cycles: Seq<bool>) -> int
    decreases cycles.len(),
{
    if cycles.len() == 0 {
        current_index
    } else {
        completion_step(
            apply_completions(current_index, count, cycles.drop_last()),
            count,
            cycles.last(),
        )
    }
}

/// How many cycles of a sequence completed at the end endpoint.
pub open spec fn count_at_end(cycles: Seq<bool>) -> int
    decreases cycles.len(),
{
    if cycles.len() == 0 {
        0
    } else {
        count_at_end(cycles.drop_last()) + if cycles.last() {
            1int
        } else {
            0int
        }
    }
}

/// How many cycles of a sequence completed at the start endpoint.
pub open spec fn count_at_start(cycles: Seq<bool>) -> int
    decreases cycles.len(),
{
    if cycles.len() == 0 {
        0
    } else {
        count_at_start(cycles.drop_last()) + if cycles.last() {
            0int
        } else {
            1int
        }
    }
}

/// For every slide count of at least one, every current index — however far
/// it has drifted, in either direction — and every offset, the resolved
/// slide index lies in `[0, count)`.
pub proof fn lemma_resolved_index_in_range(current_index: int, offset: int, count: int)
    requires
        count >= 1,
    ensures
        0 <= wrap_index(current_index, offset, count) < count,
{
    vstd::arithmetic::div_mod::lemma_mod_bound(current_index + offset, count);
}

/// Shifting before or after normalization reaches the same slide:
/// `((x % n) + c) % n == (x + c) % n`.
proof fn lemma_mod_shift(x: int, c: int, n: int)
    requires
        n >= 1,
    ensures
        (x % n + c) % n == (x + c) % n,
{
    vstd::arithmetic::div_mod::lemma_fundamental_div_mod(x, n);
    vstd::arithmetic::div_mod::lemma_mod_multiples_vanish(x / n, x % n + c, n);
}

/// The net index change over any sequence of completed transition cycles
/// equals the difference between the number of cycles completing at the
/// start endpoint and the number completing at the end endpoint, modulo the
/// slide count — regardless of the order the cycles happened in.
pub proof fn lemma_net_index_change(current_index: int, count: int, cycles: Seq<bool>)
    requires
        count >= 1,
        0 <= current_index < count,
    ensures
        apply_completions(current_index, count, cycles) == wrap_index(
            current_index,
            count_at_start(cycles) - count_at_end(cycles),
            count,
        ),
    decreases cycles.len(),
{
    if cycles.len() == 0 {
        vstd::arithmetic::div_mod::lemma_small_mod(current_index as nat, count as nat);
    } else {
        let prefix = cycles.drop_last();
        let d = count_at_start(prefix) - count_at_end(prefix);
        lemma_net_index_change(current_index, count, prefix);
        if cycles.last() {
            lemma_mod_shift(current_index + d, -1, count);
        } else {
            lemma_mod_shift(current_index + d, 1, count);
        }
    }
}

/// One observed progress value steps the index at most once: an observation
/// at an endpoint performs exactly one completion step of the cycle model —
/// the end endpoint a decrementing one, the start endpoint an incrementing
/// one — and every other observation, the neutral reset included, performs
/// none. This ties the controller's observation rule to the cycle sequences
/// of `lemma_net_index_change`.
pub proof fn lemma_observation_matches_cycle_model(current_index: int, count: int, value: u64)
    requires
        count >= 1,
    ensures
        value == PROGRESS_END ==> index_after_progress(current_index, count, value)
            == completion_step(current_index, count, true),
        value == PROGRESS_START ==> index_after_progress(current_index, count, value)
            == completion_step(current_index, count, false),
        value != PROGRESS_END && value != PROGRESS_START ==> index_after_progress(
            current_index,
            count,
            value,
        ) == current_index,
{
}

/// A transition driven for at least its full duration does not merely come
/// near its endpoint: it reaches it exactly, from any starting progress.
pub proof fn lemma_transition_reaches_endpoint(
    progress: int,
    target: int,
    elapsed: int,
    duration: int,
)
    requires
        0 <= progress <= 1000,
        0 <= target <= 1000,
        1 <= duration <= elapsed,
    ensures
        stepped(progress, target, eased_delta(elapsed, duration)) == target,
{
    crate::transition::lemma_eased_delta_full(elapsed, duration);
}

} // verus!

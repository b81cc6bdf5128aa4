//! The carousel controller: owns the slide list and the circular current
//! index, bridges continuous transition progress to discrete index steps with
//! wraparound, and derives the five-slot rendering model from the pair
//! (current index, progress).

use vstd::prelude::*;

use crate::transition::{
    eased_delta, stepped, Transition, PROGRESS_END, PROGRESS_NEUTRAL, PROGRESS_START,
};

verus! {

/// Time units a full transition takes.
pub const TRANSITION_DURATION: u64 = 500;

/// The slide resolved for `offset` around `current_index` among `count`
/// slides: circular index arithmetic, always normalized into `[0, count)`.
pub open spec fn wrap_index(current_index: int, offset: int, count: int) -> int {
    (current_index + offset) % count
}

/// The current index after the controller observes progress `value` (in
/// thousandths): progress reaching the end decrements the index, progress
/// reaching the start increments it, both with wraparound; any other value
/// leaves the index alone.
pub open spec fn index_after_progress(current_index: int, count: int, value: u64) -> int {
    if value == PROGRESS_END {
        wrap_index(current_index, -1, count)
    } else if value == PROGRESS_START {
        wrap_index(current_index, 1, count)
    } else {
        current_index
    }
}

/// Where the linear map of progress onto `[-100%, +100%]`, shifted by one
/// full width per slot offset, places a slot: in tenths of a percent, so
/// the value is exact. `progress` is in thousandths, `offset` in slots.
pub open spec fn slot_translate(progress: int, offset: int) -> int {
    2 * progress - 1000 + 1000 * offset
}

/// The rendering model of one of the five visible slots, all geometry in
/// tenths of a percent. The mask is a horizontal gradient: fully transparent
/// below `mask_fade_in`, fully opaque between `mask_opaque_from` and
/// `mask_opaque_to`, fully transparent above `mask_fade_out`, so only the
/// centered slot is fully visible while neighbors fade at the edges.
#[derive(Clone, Copy, Debug, PartialEq, Eq, Structural)]
pub struct Slot {
    /// Which slide this slot shows, resolved with wraparound.
    pub slide_index: usize,
    /// Horizontal translation of the slot.
    pub translate: i64,
    /// Below this the mask is fully transparent.
    pub mask_fade_in: i64,
    /// From here the mask is fully opaque.
    pub mask_opaque_from: i64,
    /// Up to here the mask is fully opaque.
    pub mask_opaque_to: i64,
    /// Above this the mask is fully transparent.
    pub mask_fade_out: i64,
    /// Whether the slot overlays the centered one (every offset but 0).
    pub overlay: bool,
}

/// The slot rendered for `offset` among `count` slides when the carousel is
/// at `current_index` with animation progress `progress` (in thousandths).
pub open spec fn slot_spec(current_index: int, offset: int, count: int, progress: int) -> Slot {
    let t = slot_translate(progress, offset);
    Slot {
        slide_index: wrap_index(current_index, offset, count) as usize,
        translate: t as i64,
        mask_fade_in: (t - 100) as i64,
        mask_opaque_from: t as i64,
        mask_opaque_to: (t + 1000) as i64,
        mask_fade_out: (t + 1100) as i64,
        overlay: offset != 0,
    }
}

/// The carousel widget: an immutable slide list (never mutated after
/// construction), the circular current-slide index, and the transition
/// driver for the animation progress value.
pub struct Component<T> {
    slides: Vec<T>,
    current_index: usize,
    transition: Transition,
}

impl<T> Component<T> {
    /// The slide list.
    pub closed spec fn slides(self) -> Seq<T> {
        self.slides@
    }

    /// Number of slides.
    pub open spec fn count(self) -> nat {
        self.slides().len()
    }

    /// The slide considered centered, kept normalized into `[0, count)`.
    pub closed spec fn index(self) -> int {
        self.current_index as int
    }

    /// The transition driver's state.
    pub closed spec fn transition(self) -> Transition {
        self.transition
    }

    /// Current animation progress, in thousandths.
    pub open spec fn progress(self) -> u64 {
        self.transition().progress()
    }

    /// Well-formedness: at least one slide, a normalized index, and a
    /// well-formed driver.
    pub open spec fn wf(self) -> bool {
        &&& 1 <= self.count() <= i64::MAX
        &&& 0 <= self.index() < self.count()
        &&& self.transition().wf()
    }

    /// A fresh carousel: centered on slide 0, driver resting at neutral with
    /// no transition in flight. An empty slide list is a precondition
    /// violation and is rejected here, before any state exists.
    pub fn new(slides: Vec<T>) -> (c: Component<T>)
        requires
            1 <= slides@.len() <= i64::MAX,
        ensures
            c.wf(),
            c.slides() == slides@,
            c.index() == 0,
            c.progress() == PROGRESS_NEUTRAL,
            c.transition().target() is None,
            c.transition().duration() == TRANSITION_DURATION,
    {
        Component {
            slides,
            current_index: 0,
            transition: Transition::new(TRANSITION_DURATION, PROGRESS_NEUTRAL),
        }
    }

    /// Number of slides.
    pub fn len(&self) -> (n: usize)
        ensures
            n == self.count(),
    {
        self.slides.len()
    }

    /// Resolves the slide shown at `offset` relative to `current_index`:
    /// add, lift negative values by whole slide counts, then reduce modulo
    /// the slide count. Defined — in range, without panic — for every
    /// `current_index`, however far it may have drifted, and every offset.
    pub fn resolve_index(&self, current_index: i64, offset: i64) -> (i: usize)
        requires
            self.wf(),
        ensures
            i == wrap_index(current_index as int, offset as int, self.count() as int),
            i < self.count(),
    {
        let count: usize = self.slides.len();
        let n: i128 = count as i128;
        let mut raw: i128 = current_index as i128 + offset as i128;
        while raw < 0
            invariant
                self.wf(),
                n == self.count(),
                1 <= n <= usize::MAX,
                raw <= i128::MAX - n,
                (raw as int) % (n as int) == wrap_index(current_index as int, offset as int, self.count() as int),
            decreases (if raw < 0 { -raw as int } else { 0int }),
        {
            proof {
                vstd::arithmetic::div_mod::lemma_mod_add_multiples_vanish(raw as int, n as int);
            }
            raw = raw + n;
        }
        proof {
            vstd::arithmetic::div_mod::lemma_mod_bound(raw as int, n as int);
        }
        ((raw as u128) % (count as u128)) as usize
    }

    /// A borrow of the slide at `index`.
    pub fn get_slide(&self, index: usize) -> (s: &T)
        requires
            index < self.count(),
        ensures
            *s == self.slides()[index as int],
    {
        &self.slides[index]
    }

    /// Computes the rendering model of the slot at `offset` around
    /// `current_index` for the current animation progress: the resolved
    /// slide, the horizontal translation, and the mask gradient boundaries.
    pub fn render_slide(&self, current_index: i64, offset: i64) -> (s: Slot)
        requires
            self.wf(),
            -2 <= offset <= 2,
        ensures
            s == slot_spec(
                current_index as int,
                offset as int,
                self.count() as int,
                self.transition().progress() as int,
            ),
    {
        let progress: u64 = self.transition.progress_value();
        self.slot_at(progress, current_index, offset)
    }

    /// Computes the rendering model of one slot as a pure function of an
    /// observed progress value (in thousandths), the current index, and the
    /// slot offset: the per-render-tick derivation, for observers that carry
    /// the progress value themselves.
    pub fn slot_at(&self, progress: u64, current_index: i64, offset: i64) -> (s: Slot)
        requires
            self.wf(),
            progress <= PROGRESS_END,
            -2 <= offset <= 2,
        ensures
            s == slot_spec(
                current_index as int,
                offset as int,
                self.count() as int,
                progress as int,
            ),
    {
        let index: usize = self.resolve_index(current_index, offset);
        let t: i64 = 2 * (progress as i64) - 1000 + 1000 * offset;
        Slot {
            slide_index: index,
            translate: t,
            mask_fade_in: t - 100,
            mask_opaque_from: t,
            mask_opaque_to: t + 1000,
            mask_fade_out: t + 1100,
            overlay: offset != 0,
        }
    }

    /// Observes one progress value, exactly as delivered by the driver's
    /// ongoing signal: progress landing exactly on an endpoint steps the
    /// index once (end decrements, start increments, with wraparound) and
    /// immediately resets the driver to neutral, ending the transition
    /// cycle; every other value — neutral included — changes nothing.
    pub fn on_progress(&mut self, value: u64)
        requires
            old(self).wf(),
            value <= PROGRESS_END,
        ensures
            final(self).wf(),
            final(self).slides() == old(self).slides(),
            final(self).transition().duration() == old(self).transition().duration(),
            final(self).index() == index_after_progress(
                old(self).index(),
                old(self).count() as int,
                value,
            ),
            value == PROGRESS_END || value == PROGRESS_START ==> final(self).progress()
                == PROGRESS_NEUTRAL && final(self).transition().target() is None,
            value != PROGRESS_END && value != PROGRESS_START ==> final(self).transition()
                == old(self).transition(),
    {
        let ghost n = self.count() as int;
        let ghost i = self.index();
        if value == PROGRESS_END {
            self.transition.jump_to(PROGRESS_NEUTRAL);
            if self.current_index == 0 {
                self.current_index = self.slides.len() - 1;
                proof {
                    vstd::arithmetic::div_mod::lemma_mod_add_multiples_vanish(-1, n);
                    vstd::arithmetic::div_mod::lemma_small_mod((n - 1) as nat, n as nat);
                }
            } else {
                self.current_index = self.current_index - 1;
                proof {
                    vstd::arithmetic::div_mod::lemma_small_mod((i - 1) as nat, n as nat);
                }
            }
        }
        if value == PROGRESS_START {
            self.transition.jump_to(PROGRESS_NEUTRAL);
            if self.current_index == self.slides.len() - 1 {
                self.current_index = 0;
                proof {
                    vstd::arithmetic::div_mod::lemma_mod_self_0(n);
                }
            } else {
                self.current_index = self.current_index + 1;
                proof {
                    vstd::arithmetic::div_mod::lemma_small_mod((i + 1) as nat, n as nat);
                }
            }
        }
    }

    /// Advances the animation by `elapsed` time units, observes the new
    /// progress value, and returns it. One call both moves the driver (see
    /// `Transition::step`) and applies the boundary rule (see
    /// `on_progress`), so a completed transition is observed at its exact
    /// endpoint at least once — here — before the reset to neutral, and
    /// steps the index exactly once.
    pub fn tick(&mut self, elapsed: u64) -> (v: u64)
        requires
            old(self).wf(),
        ensures
            final(self).wf(),
            final(self).slides() == old(self).slides(),
            final(self).transition().duration() == old(self).transition().duration(),
            old(self).transition().target() is None ==> v == old(self).progress(),
            old(self).transition().target() is Some ==> v == stepped(
                old(self).progress() as int,
                old(self).transition().target()->0 as int,
                eased_delta(elapsed as int, old(self).transition().duration() as int),
            ),
            old(self).transition().target() is Some && elapsed
                >= old(self).transition().duration() ==> v == old(self).transition().target()->0,
            final(self).index() == index_after_progress(
                old(self).index(),
                old(self).count() as int,
                v,
            ),
            v == PROGRESS_END || v == PROGRESS_START ==> final(self).progress()
                == PROGRESS_NEUTRAL && final(self).transition().target() is None,
            PROGRESS_START < v < PROGRESS_END ==> final(self).progress() == v
                && final(self).transition().target() == old(self).transition().target(),
    {
        let v = self.transition.step(elapsed);
        self.on_progress(v);
        v
    }

    /// Begins (or redirects) a transition toward an endpoint: the user's
    /// "previous"/"next" activation, forwarded to the driver. The index
    /// only changes later, when the transition completes.
    pub fn animate_to(&mut self, target: u64)
        requires
            old(self).wf(),
            target == PROGRESS_START || target == PROGRESS_END,
        ensures
            final(self).wf(),
            final(self).slides() == old(self).slides(),
            final(self).index() == old(self).index(),
            final(self).transition().target() == Some(target),
            final(self).progress() == old(self).progress(),
            final(self).transition().duration() == old(self).transition().duration(),
    {
        self.transition.animate_to(target);
    }

    /// Force-sets progress with no interpolation, cancelling any in-flight
    /// transition; the index is untouched.
    pub fn jump_to(&mut self, value: u64)
        requires
            old(self).wf(),
            value <= PROGRESS_END,
        ensures
            final(self).wf(),
            final(self).slides() == old(self).slides(),
            final(self).index() == old(self).index(),
            final(self).progress() == value,
            final(self).transition().target() is None,
            final(self).transition().duration() == old(self).transition().duration(),
    {
        self.transition.jump_to(value);
    }

    /// Reads the current (normalized) slide index.
    pub fn current_index(&self) -> (i: usize)
        ensures
            i == self.index(),
    {
        self.current_index
    }

    /// Reads the current animation progress, in thousandths.
    pub fn progress_value(&self) -> (v: u64)
        ensures
            v == self.progress(),
    {
        self.transition.progress_value()
    }

    /// Computes the full rendering model: the five slots for offsets
    /// `-2..=2`, in order, around the current index at the current progress.
    pub fn render(&self) -> (slots: Vec<Slot>)
        requires
            self.wf(),
        ensures
            slots@.len() == 5,
            forall|k: int| 0 <= k < 5 ==> slots@[k] == slot_spec(
                self.index(),
                k - 2,
                self.count() as int,
                self.transition().progress() as int,
            ),
    {
        let current: i64 = self.current_index as i64;
        let mut slots: Vec<Slot> = Vec::new();
        slots.push(self.render_slide(current, -2));
        slots.push(self.render_slide(current, -1));
        slots.push(self.render_slide(current, 0));
        slots.push(self.render_slide(current, 1));
        slots.push(self.render_slide(current, 2));
        slots
    }
}

} // verus!

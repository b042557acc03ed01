//! UI fade/transition animator.
//!
//! A three-state machine per text collection, independent of the game
//! state: `Show` starts a fixed-duration alpha fade toward each
//! element's configured target colour, `Hide` one toward fully
//! transparent, `Idle` does nothing. At most one fade runs per element
//! at a time: starting a new fade replaces the running one, and it
//! resumes from the element's current interpolated alpha, so an
//! interrupted fade never snaps visually. Visibility is coupled to
//! fade progress through thresholds rather than exact completion
//! events: an element turns render-visible as soon as its show fade
//! passes a near-zero progress, and turns hidden once its hide fade
//! nears completion.

use vstd::arithmetic::div_mod::{
    lemma_div_is_ordered, lemma_div_multiples_vanish, lemma_div_pos_is_pos,
};
use vstd::arithmetic::mul::lemma_mul_inequality;
use vstd::prelude::*;

use crate::units::{lemma_scale_milli_within, scale_milli, spec_scale_milli};

verus! {

/// Duration of every fade, milliseconds.
pub const COLOR_TWEEN_DURATION: u64 = 500;

/// Upper bound on fade durations and tick deltas, milliseconds.
pub const MAX_TWEEN_MS: u64 = 86400000;

/// Fully opaque alpha, per-mille.
pub const ALPHA_OPAQUE: i64 = 1000;

/// Progress past which a showing element turns render-visible,
/// per-mille: near zero, so the element appears as soon as the fade
/// starts progressing.
pub const SHOW_VISIBLE_THRESHOLD: i64 = 10;

/// Progress at which a hiding element turns hidden, per-mille: near
/// completion, checked as a threshold to avoid a one-frame pop.
pub const HIDE_COMPLETE_THRESHOLD: i64 = 990;

/// Whether a UI element is rendered.
#[derive(Clone, Copy, Debug, PartialEq, Eq, Structural)]
pub enum Visibility {
    Visible,
    Hidden,
}

/// The rendering flag for a visibility bool.
pub fn visibility_from_bool(v: bool) -> (r: Visibility)
    ensures
        r == Visibility::Visible <==> v,
{
    if v {
        return Visibility::Visible;
    }
    Visibility::Hidden
}

/// The per-collection animator state.
#[derive(Clone, Copy, Debug, PartialEq, Eq, Structural)]
pub enum TransitionStateText {
    /// Elements are fading in.
    Show,
    /// Nothing to do.
    Idle,
    /// Elements are fading out.
    Hide,
}

impl Default for TransitionStateText {
    /// The animator rests until a show or hide is fired.
    fn default() -> (r: Self)
        ensures
            r == TransitionStateText::Idle,
    {
        TransitionStateText::Idle
    }
}

/// One running alpha fade: linear interpolation from a start alpha to
/// an end alpha over a fixed duration, driven by accumulated elapsed
/// time.
#[derive(Clone, Copy, Debug, PartialEq, Eq, Structural)]
pub struct FadeAnimation {
    /// Alpha the fade starts from, per-mille.
    pub start_alpha: i64,
    /// Alpha the fade ends at, per-mille.
    pub end_alpha: i64,
    /// Accumulated elapsed time, milliseconds.
    pub elapsed_ms: u64,
    /// Total duration, milliseconds.
    pub duration_ms: u64,
}

impl FadeAnimation {
    /// A well-formed fade: alphas inside the per-mille range, a
    /// positive bounded duration, and elapsed time within it.
    pub open spec fn wf(&self) -> bool {
        &&& 0 <= self.start_alpha <= ALPHA_OPAQUE
        &&& 0 <= self.end_alpha <= ALPHA_OPAQUE
        &&& 1 <= self.duration_ms <= MAX_TWEEN_MS
        &&& self.elapsed_ms <= self.duration_ms
    }

    /// Fade progress, per-mille of the duration.
    pub open spec fn spec_progress(&self) -> int {
        (self.elapsed_ms * 1000) / (self.duration_ms as int)
    }

    /// The interpolated alpha at the current progress.
    pub open spec fn spec_alpha(&self) -> int {
        self.start_alpha + spec_scale_milli(
            self.end_alpha - self.start_alpha,
            self.spec_progress(),
        )
    }

    /// A well-formed fade keeps progress and alpha inside the
    /// per-mille range.
    pub proof fn lemma_wf_ranges(&self)
        requires
            self.wf(),
        ensures
            0 <= self.spec_progress() <= 1000,
            0 <= self.spec_alpha() <= ALPHA_OPAQUE,
    {
        lemma_div_pos_is_pos(self.elapsed_ms * 1000, self.duration_ms as int);
        lemma_mul_inequality(self.elapsed_ms as int, self.duration_ms as int, 1000);
        lemma_div_is_ordered(
            self.elapsed_ms * 1000,
            (self.duration_ms as int) * 1000,
            self.duration_ms as int,
        );
        lemma_div_multiples_vanish(1000, self.duration_ms as int);
        lemma_scale_milli_within(
            self.end_alpha - self.start_alpha,
            self.spec_progress(),
        );
    }

    /// A fresh fade between the given alphas over the standard
    /// duration; its alpha starts exactly at `start_alpha`.
    pub fn new_fade(start_alpha: i64, end_alpha: i64) -> (r: Self)
        requires
            0 <= start_alpha <= ALPHA_OPAQUE,
            0 <= end_alpha <= ALPHA_OPAQUE,
        ensures
            r == (FadeAnimation {
                start_alpha,
                end_alpha,
                elapsed_ms: 0,
                duration_ms: COLOR_TWEEN_DURATION,
            }),
            r.wf(),
            r.spec_alpha() == start_alpha,
    {
        let r = FadeAnimation { start_alpha, end_alpha, elapsed_ms: 0, duration_ms: COLOR_TWEEN_DURATION };
        proof {
            assert(r.spec_progress() == 0) by {
                lemma_div_pos_is_pos(0, r.duration_ms as int);
                vstd::arithmetic::div_mod::lemma_div_nonincreasing(0, r.duration_ms as int);
            }
            assert(spec_scale_milli(end_alpha - start_alpha, 0) == 0) by {
                assert((end_alpha - start_alpha) * 0 == 0) by (nonlinear_arith);
                lemma_div_pos_is_pos(0, crate::units::MILLI as int);
                vstd::arithmetic::div_mod::lemma_div_nonincreasing(
                    0,
                    crate::units::MILLI as int,
                );
            }
        }
        r
    }

    /// The fade progress, per-mille.
    pub fn progress(&self) -> (r: i64)
        requires
            self.wf(),
        ensures
            r == self.spec_progress(),
            0 <= r <= 1000,
    {
        proof {
            self.lemma_wf_ranges();
        }
        ((self.elapsed_ms * 1000) / self.duration_ms) as i64
    }

    /// The interpolated alpha at the current progress.
    pub fn alpha(&self) -> (r: i64)
        requires
            self.wf(),
        ensures
            r == self.spec_alpha(),
            0 <= r <= ALPHA_OPAQUE,
    {
        proof {
            self.lemma_wf_ranges();
        }
        let p = self.progress();
        self.start_alpha + scale_milli(self.end_alpha - self.start_alpha, p)
    }

    /// Advances the fade by one tick's elapsed time, saturating at the
    /// duration; nothing else about the fade changes.
    pub fn tick(&mut self, dt_ms: u64)
        requires
            old(self).wf(),
        ensures
            final(self).wf(),
            final(self).start_alpha == old(self).start_alpha,
            final(self).end_alpha == old(self).end_alpha,
            final(self).duration_ms == old(self).duration_ms,
            final(self).elapsed_ms == if old(self).elapsed_ms + dt_ms <= old(self).duration_ms {
                (old(self).elapsed_ms + dt_ms) as u64
            } else {
                old(self).duration_ms
            },
    {
        let room = self.duration_ms - self.elapsed_ms;
        if dt_ms >= room {
            self.elapsed_ms = self.duration_ms;
        } else {
            self.elapsed_ms = self.elapsed_ms + dt_ms;
        }
    }
}

/// A text element taking part in show/hide transitions: its current
/// visibility flag, its configured target alpha, and the at most one
/// fade running on it.
#[derive(Clone, Copy, Debug, PartialEq, Eq, Structural)]
pub struct TransitionElement {
    /// The element is currently render-visible.
    pub show: bool,
    /// Target alpha of the element's configured colour, per-mille.
    pub color_target: i64,
    /// The running fade, if any.
    pub anim: Option<FadeAnimation>,
}

impl TransitionElement {
    /// A well-formed element: target alpha in range and any running
    /// fade well formed.
    pub open spec fn wf(&self) -> bool {
        &&& 0 <= self.color_target <= ALPHA_OPAQUE
        &&& self.anim matches Some(a) ==> a.wf()
    }

    /// The element's current interpolated alpha: the running fade's
    /// alpha, or the resting alpha of its visibility (target when
    /// shown, transparent when hidden).
    pub open spec fn spec_current_alpha(&self) -> int {
        match self.anim {
            Some(a) => a.spec_alpha(),
            None => if self.show {
                self.color_target as int
            } else {
                0
            },
        }
    }

    /// The element's current interpolated alpha.
    pub fn current_alpha(&self) -> (r: i64)
        requires
            self.wf(),
        ensures
            r == self.spec_current_alpha(),
            0 <= r <= ALPHA_OPAQUE,
    {
        match &self.anim {
            Some(a) => a.alpha(),
            None => if self.show {
                self.color_target
            } else {
                0
            },
        }
    }
}

/// The element after a show fade was started on it: a fresh fade from
/// its current interpolated alpha to its target alpha replaces any
/// running fade.
pub open spec fn spec_shown(e: TransitionElement) -> TransitionElement {
    TransitionElement {
        anim: Some(
            FadeAnimation {
                start_alpha: e.spec_current_alpha() as i64,
                end_alpha: e.color_target,
                elapsed_ms: 0,
                duration_ms: COLOR_TWEEN_DURATION,
            },
        ),
        ..e
    }
}

/// The element after a hide fade was started on it: a fresh fade from
/// its current interpolated alpha to fully transparent replaces any
/// running fade.
pub open spec fn spec_hidden(e: TransitionElement) -> TransitionElement {
    TransitionElement {
        anim: Some(
            FadeAnimation {
                start_alpha: e.spec_current_alpha() as i64,
                end_alpha: 0,
                elapsed_ms: 0,
                duration_ms: COLOR_TWEEN_DURATION,
            },
        ),
        ..e
    }
}

/// Starts the show fade on every element and moves the animator to
/// `Show`.
pub fn show_text(elements: &mut Vec<TransitionElement>) -> (st: TransitionStateText)
    requires
        forall|i: int|
            0 <= i < old(elements)@.len() ==> (#[trigger] old(elements)@[i]).wf(),
    ensures
        st == TransitionStateText::Show,
        final(elements)@.len() == old(elements)@.len(),
        forall|i: int|
            0 <= i < old(elements)@.len() ==> #[trigger] final(elements)@[i] == spec_shown(
                old(elements)@[i],
            ) && final(elements)@[i].wf(),
{
    let ghost orig = elements@;
    let n = elements.len();
    let mut i: usize = 0;
    while i < n
        invariant
            n == orig.len(),
            elements@.len() == orig.len(),
            i <= n,
            forall|k: int| 0 <= k < n ==> (#[trigger] orig[k]).wf(),
            forall|k: int| i <= k < n ==> #[trigger] elements@[k] == orig[k],
            forall|k: int|
                0 <= k < i ==> #[trigger] elements@[k] == spec_shown(orig[k])
                    && elements@[k].wf(),
        decreases n - i,
    {
        let current = elements[i].current_alpha();
        let target = elements[i].color_target;
        elements[i].anim = Some(FadeAnimation::new_fade(current, target));
        i = i + 1;
    }
    TransitionStateText::Show
}

/// Starts the hide fade on every element and moves the animator to
/// `Hide`.
pub fn hide_text(elements: &mut Vec<TransitionElement>) -> (st: TransitionStateText)
    requires
        forall|i: int|
            0 <= i < old(elements)@.len() ==> (#[trigger] old(elements)@[i]).wf(),
    ensures
        st == TransitionStateText::Hide,
        final(elements)@.len() == old(elements)@.len(),
        forall|i: int|
            0 <= i < old(elements)@.len() ==> #[trigger] final(elements)@[i] == spec_hidden(
                old(elements)@[i],
            ) && final(elements)@[i].wf(),
{
    let ghost orig = elements@;
    let n = elements.len();
    let mut i: usize = 0;
    while i < n
        invariant
            n == orig.len(),
            elements@.len() == orig.len(),
            i <= n,
            forall|k: int| 0 <= k < n ==> (#[trigger] orig[k]).wf(),
            forall|k: int| i <= k < n ==> #[trigger] elements@[k] == orig[k],
            forall|k: int|
                0 <= k < i ==> #[trigger] elements@[k] == spec_hidden(orig[k])
                    && elements@[k].wf(),
        decreases n - i,
    {
        let current = elements[i].current_alpha();
        elements[i].anim = Some(FadeAnimation::new_fade(current, 0));
        i = i + 1;
    }
    TransitionStateText::Hide
}

/// The element after one `Show` update: it turns render-visible once
/// its fade has progressed past the near-zero threshold.
pub open spec fn spec_update_show(e: TransitionElement) -> TransitionElement {
    if e.anim matches Some(a) && a.spec_progress() >= SHOW_VISIBLE_THRESHOLD {
        TransitionElement { show: true, ..e }
    } else {
        e
    }
}

/// The element after one `Hide` update: it turns hidden once its fade
/// nears completion.
pub open spec fn spec_update_hide(e: TransitionElement) -> TransitionElement {
    if e.anim matches Some(a) && a.spec_progress() >= HIDE_COMPLETE_THRESHOLD {
        TransitionElement { show: false, ..e }
    } else {
        e
    }
}

/// One animator tick: `Show` and `Hide` apply their visibility
/// threshold to every element and hand the machine back to `Idle`;
/// `Idle` touches nothing.
pub fn transition_update(
    state: TransitionStateText,
    elements: &mut Vec<TransitionElement>,
) -> (st: TransitionStateText)
    requires
        forall|i: int|
            0 <= i < old(elements)@.len() ==> (#[trigger] old(elements)@[i]).wf(),
    ensures
        st == TransitionStateText::Idle,
        final(elements)@.len() == old(elements)@.len(),
        state == TransitionStateText::Idle ==> final(elements)@ == old(elements)@,
        state == TransitionStateText::Show ==> forall|i: int|
            0 <= i < old(elements)@.len() ==> #[trigger] final(elements)@[i] == spec_update_show(
                old(elements)@[i],
            ),
        state == TransitionStateText::Hide ==> forall|i: int|
            0 <= i < old(elements)@.len() ==> #[trigger] final(elements)@[i] == spec_update_hide(
                old(elements)@[i],
            ),
{
    match state {
        TransitionStateText::Idle => TransitionStateText::Idle,
        TransitionStateText::Show => {
            let ghost orig = elements@;
            let n = elements.len();
            let mut i: usize = 0;
            while i < n
                invariant
                    n == orig.len(),
                    elements@.len() == orig.len(),
                    i <= n,
                    forall|k: int| 0 <= k < n ==> (#[trigger] orig[k]).wf(),
                    forall|k: int| i <= k < n ==> #[trigger] elements@[k] == orig[k],
                    forall|k: int|
                        0 <= k < i ==> #[trigger] elements@[k] == spec_update_show(orig[k]),
                decreases n - i,
            {
                let visible = match &elements[i].anim {
                    Some(a) => a.progress() >= SHOW_VISIBLE_THRESHOLD,
                    None => false,
                };
                if visible {
                    elements[i].show = true;
                }
                i = i + 1;
            }
            TransitionStateText::Idle
        },
        TransitionStateText::Hide => {
            let ghost orig = elements@;
            let n = elements.len();
            let mut i: usize = 0;
            while i < n
                invariant
                    n == orig.len(),
                    elements@.len() == orig.len(),
                    i <= n,
                    forall|k: int| 0 <= k < n ==> (#[trigger] orig[k]).wf(),
                    forall|k: int| i <= k < n ==> #[trigger] elements@[k] == orig[k],
                    forall|k: int|
                        0 <= k < i ==> #[trigger] elements@[k] == spec_update_hide(orig[k]),
                decreases n - i,
            {
                let hidden = match &elements[i].anim {
                    Some(a) => a.progress() >= HIDE_COMPLETE_THRESHOLD,
                    None => false,
                };
                if hidden {
                    elements[i].show = false;
                }
                i = i + 1;
            }
            TransitionStateText::Idle
        },
    }
}

/// Advances every running fade by one tick's elapsed time; elements
/// without a fade stay untouched.
pub fn tick_transitions(elements: &mut Vec<TransitionElement>, dt_ms: u64)
    requires
        forall|i: int|
            0 <= i < old(elements)@.len() ==> (#[trigger] old(elements)@[i]).wf(),
    ensures
        final(elements)@.len() == old(elements)@.len(),
        forall|i: int|
            0 <= i < old(elements)@.len() ==> {
                let before = old(elements)@[i];
                let after = #[trigger] final(elements)@[i];
                &&& after.show == before.show
                &&& after.color_target == before.color_target
                &&& after.wf()
                &&& before.anim is None ==> after == before
                &&& before.anim matches Some(a) ==> after.anim matches Some(b)
                    && b.start_alpha == a.start_alpha && b.end_alpha == a.end_alpha
                    && b.duration_ms == a.duration_ms && b.elapsed_ms == if a.elapsed_ms + dt_ms
                    <= a.duration_ms {
                    (a.elapsed_ms + dt_ms) as u64
                } else {
                    a.duration_ms
                }
            },
{
    let ghost orig = elements@;
    let n = elements.len();
    let mut i: usize = 0;
    while i < n
        invariant
            n == orig.len(),
            elements@.len() == orig.len(),
            i <= n,
            forall|k: int| 0 <= k < n ==> (#[trigger] orig[k]).wf(),
            forall|k: int| i <= k < n ==> #[trigger] elements@[k] == orig[k],
            forall|k: int|
                0 <= k < i ==> {
                    let before = orig[k];
                    let after = #[trigger] elements@[k];
                    &&& after.show == before.show
                    &&& after.color_target == before.color_target
                    &&& after.wf()
                    &&& before.anim is None ==> after == before
                    &&& before.anim matches Some(a) ==> after.anim matches Some(b)
                        && b.start_alpha == a.start_alpha && b.end_alpha == a.end_alpha
                        && b.duration_ms == a.duration_ms && b.elapsed_ms == if a.elapsed_ms
                        + dt_ms <= a.duration_ms {
                        (a.elapsed_ms + dt_ms) as u64
                    } else {
                        a.duration_ms
                    }
                },
        decreases n - i,
    {
        let has_anim = elements[i].anim.is_some();
        if has_anim {
            let mut a = elements[i].anim.unwrap();
            a.tick(dt_ms);
            elements[i].anim = Some(a);
        }
        i = i + 1;
    }
}

/// Starting Show while a Hide fade is mid-flight on the same element
/// cancels the Hide and resumes from the element's current
/// interpolated alpha: the fresh fade starts exactly there, not at
/// fully transparent.
pub proof fn lemma_show_interrupts_hide(e: TransitionElement)
    requires
        e.wf(),
        e.anim matches Some(h) && h.end_alpha == 0,
    ensures
        spec_shown(e).anim matches Some(s) && s.start_alpha
            == e.anim->Some_0.spec_alpha() && s.spec_alpha() == e.anim->Some_0.spec_alpha(),
{
    let h = e.anim->Some_0;
    h.lemma_wf_ranges();
    let s = spec_shown(e).anim->Some_0;
    assert(s.spec_progress() == 0) by {
        lemma_div_pos_is_pos(0, s.duration_ms as int);
        vstd::arithmetic::div_mod::lemma_div_nonincreasing(0, s.duration_ms as int);
    }
}

} // verus!

//! Properties of the hover/unlock state machine over single ticks and runs
//! of ticks.
use vstd::prelude::*;
use crate::config::InteractionConfig;
use crate::events::{OverlayEvent, no_progress};
use crate::geometry::{CursorSample, rect_contains, within_jitter};
use crate::hover::{HoverSession, dwell_active, progress_of, run, tick_spec, total_ticks};

verus! {

/// The lock flag keeps its starting value after every tick of the run.
pub open spec fn locked_throughout(c: InteractionConfig, s: HoverSession, samples: Seq<Option<CursorSample>>) -> bool
    decreases samples.len(),
{
    if samples.len() == 0 {
        true
    } else {
        let (c1, s1, call, e) = tick_spec(c, s, samples[0]);
        c1.locked == c.locked && locked_throughout(c1, s1, samples.drop_first())
    }
}

/// The cursor of a sample is over its window.
pub open spec fn sample_hovering(m: CursorSample) -> bool {
    rect_contains(m.window, m.x as int, m.y as int)
}

proof fn lemma_in_sync_no_calls(c: InteractionConfig, s: HoverSession, samples: Seq<Option<CursorSample>>)
    requires
        c.interactive == !c.locked,
        locked_throughout(c, s, samples),
    ensures
        run(c, s, samples).2 == 0,
    decreases samples.len(),
{
    if samples.len() > 0 {
        let (c1, s1, call, e) = tick_spec(c, s, samples[0]);
        lemma_in_sync_no_calls(c1, s1, samples.drop_first());
    }
}

/// While the lock flag stays the same, a run of ticks makes at most one
/// click-through call, and none once the applied state already follows the
/// lock flag.
pub proof fn lemma_pass_through_at_most_once(
    c: InteractionConfig,
    s: HoverSession,
    samples: Seq<Option<CursorSample>>,
)
    requires
        locked_throughout(c, s, samples),
    ensures
        run(c, s, samples).2 <= 1,
        c.interactive == !c.locked ==> run(c, s, samples).2 == 0,
    decreases samples.len(),
{
    if c.interactive == !c.locked {
        lemma_in_sync_no_calls(c, s, samples);
    } else if samples.len() > 0 {
        let (c1, s1, call, e) = tick_spec(c, s, samples[0]);
        match samples[0] {
            None => {
                lemma_pass_through_at_most_once(c1, s1, samples.drop_first());
            },
            Some(m) => {
                lemma_in_sync_no_calls(c1, s1, samples.drop_first());
            },
        }
    }
}

/// Leaving the overlay clears the dwell on that very tick: the idle count is
/// zero and the events are the hover change and zero progress.
pub proof fn lemma_hover_exit_reset(c: InteractionConfig, s: HoverSession, m: CursorSample)
    requires
        s.was_hovering,
        !sample_hovering(m),
    ensures
        tick_spec(c, s, Some(m)).1.idle_ticks == 0,
        tick_spec(c, s, Some(m)).3 == seq![
            OverlayEvent::OverlayHover(false),
            OverlayEvent::UnlockProgress(no_progress()),
        ],
{
    assert(tick_spec(c, s, Some(m)).3 =~= seq![
        OverlayEvent::OverlayHover(false),
        OverlayEvent::UnlockProgress(no_progress()),
    ]);
}

/// While the gesture runs and is not yet complete, a move within the jitter
/// radius counts one more still tick and any larger move starts the count
/// over.
pub proof fn lemma_jitter_tolerance(c: InteractionConfig, s: HoverSession, m: CursorSample)
    requires
        dwell_active(c, sample_hovering(m)),
        s.idle_ticks + 1 < total_ticks(c),
    ensures
        within_jitter(m.x as int, m.y as int, s.last_x as int, s.last_y as int)
            ==> tick_spec(c, s, Some(m)).1.idle_ticks == s.idle_ticks + 1,
        !within_jitter(m.x as int, m.y as int, s.last_x as int, s.last_y as int)
            ==> tick_spec(c, s, Some(m)).1.idle_ticks == 0,
{
}

/// With the hover unlock switched off, no run of ticks unlocks the overlay:
/// the lock flag ends as it began, no lock change is published, and every
/// unlock progress published is zero.
pub proof fn lemma_feature_off_never_unlocks(
    c: InteractionConfig,
    s: HoverSession,
    samples: Seq<Option<CursorSample>>,
)
    requires
        !c.hover_unlock_enabled,
    ensures
        run(c, s, samples).0.locked == c.locked,
        !run(c, s, samples).0.hover_unlock_enabled,
        forall|i: int| 0 <= i < run(c, s, samples).3.len() ==> match #[trigger] run(c, s, samples).3[i] {
            OverlayEvent::UnlockProgress(p) => p.done == 0,
            OverlayEvent::LockStateUpdate(_) => false,
            _ => true,
        },
    decreases samples.len(),
{
    if samples.len() > 0 {
        let (c1, s1, call, e) = tick_spec(c, s, samples[0]);
        lemma_feature_off_never_unlocks(c1, s1, samples.drop_first());
        let es = run(c1, s1, samples.drop_first()).3;
        assert(run(c, s, samples).3 == e + es);
        assert forall|i: int| 0 <= i < e.len() implies match #[trigger] e[i] {
            OverlayEvent::UnlockProgress(p) => p.done == 0,
            OverlayEvent::LockStateUpdate(_) => false,
            _ => true,
        } by {
        }
        assert forall|i: int| 0 <= i < run(c, s, samples).3.len() implies match #[trigger] run(c, s, samples).3[i] {
            OverlayEvent::UnlockProgress(p) => p.done == 0,
            OverlayEvent::LockStateUpdate(_) => false,
            _ => true,
        } by {
            if i >= e.len() {
                assert(run(c, s, samples).3[i] == es[i - e.len()]);
            } else {
                assert(run(c, s, samples).3[i] == e[i]);
            }
        }
    }
}

/// Unlock progress never falls as the still time grows, stays within
/// `[0, 1]`, and is complete exactly when the wait and the hold time have
/// both passed.
pub proof fn lemma_progress_monotone(i: int, j: int, wait: u32, hold: u32)
    requires
        0 <= i <= j,
    ensures
        progress_of(i, wait, hold).wf(),
        progress_of(i, wait, hold).le(progress_of(j, wait, hold)),
        progress_of(i, wait, hold).is_full_spec() <== i >= wait + hold,
        i < wait + hold ==> !progress_of(i, wait, hold).is_full_spec(),
{
    let p = progress_of(i, wait, hold);
    let q = progress_of(j, wait, hold);
    if i >= wait && hold > 0 {
        assert(p.done * q.span <= q.done * p.span) by (nonlinear_arith)
            requires
                p.span == hold,
                q.span == hold,
                p.done <= q.done,
        ;
    }
}

/// Sample `i` lies within the jitter radius of the sample before it, or, for
/// the first, of the session's last position.
pub open spec fn still_at(s: HoverSession, samples: Seq<Option<CursorSample>>, i: int) -> bool {
    let m = samples[i]->0;
    let (px, py) = if i == 0 {
        (s.last_x, s.last_y)
    } else {
        (samples[i - 1]->0.x, samples[i - 1]->0.y)
    };
    within_jitter(m.x as int, m.y as int, px as int, py as int)
}

/// The cursor of each sample is over its window, the lock is on with the
/// hover unlock switched on, and the cursor stays within the jitter radius
/// from one sample to the next.
pub open spec fn still_hover(c: InteractionConfig, s: HoverSession, samples: Seq<Option<CursorSample>>) -> bool {
    &&& c.locked
    &&& c.hover_unlock_enabled
    &&& forall|i: int| 0 <= i < samples.len() ==> (#[trigger] samples[i]) is Some
    &&& forall|i: int| 0 <= i < samples.len() ==> sample_hovering(#[trigger] samples[i]->0)
    &&& forall|i: int| 0 <= i < samples.len() ==> #[trigger] still_at(s, samples, i)
}

/// The events of a still dwell of `k` ticks that starts from `idle` still
/// ticks: one unlock progress per tick, then the unlock when the dwell is
/// complete.
pub open spec fn dwell_events(c: InteractionConfig, idle: int, k: nat) -> Seq<OverlayEvent> {
    Seq::new(
        k,
        |i: int| OverlayEvent::UnlockProgress(progress_of(idle + i + 1, c.wait_ticks, c.hold_ticks)),
    ) + if k > 0 && idle + k == total_ticks(c) {
        seq![OverlayEvent::LockStateUpdate(false)]
    } else {
        seq![]
    }
}

/// A cursor held still over the locked overlay counts one still tick per
/// tick and publishes the progress of each; when the count reaches the wait
/// plus the hold time the overlay unlocks and the count returns to zero.
pub proof fn lemma_still_dwell(c: InteractionConfig, s: HoverSession, samples: Seq<Option<CursorSample>>)
    requires
        s.was_hovering,
        still_hover(c, s, samples),
        s.idle_ticks + samples.len() <= total_ticks(c),
    ensures
        run(c, s, samples).3 == dwell_events(c, s.idle_ticks as int, samples.len()),
        s.idle_ticks + samples.len() < total_ticks(c) ==> {
            &&& run(c, s, samples).0.locked
            &&& run(c, s, samples).1.idle_ticks == s.idle_ticks + samples.len()
        },
        s.idle_ticks + samples.len() == total_ticks(c) && samples.len() > 0 ==> {
            &&& !run(c, s, samples).0.locked
            &&& run(c, s, samples).1.idle_ticks == 0
        },
    decreases samples.len(),
{
    if samples.len() > 0 {
        let m = samples[0]->0;
        assert(sample_hovering(samples[0]->0));
        let (c1, s1, call, e) = tick_spec(c, s, samples[0]);
        let rest = samples.drop_first();
        let idle = s.idle_ticks as int;
        assert(still_at(s, samples, 0));
        assert(s1.idle_ticks == idle + 1 || idle + 1 == total_ticks(c));
        assert(s1.last_x == m.x && s1.last_y == m.y);
        if idle + 1 < total_ticks(c) {
            assert forall|i: int| 0 <= i < rest.len() implies #[trigger] still_at(s1, rest, i) by {
                assert(still_at(s, samples, i + 1));
                assert(rest[i] == samples[i + 1]);
                if i > 0 {
                    assert(rest[i - 1] == samples[i]);
                }
            }
            assert forall|i: int| 0 <= i < rest.len() implies (#[trigger] rest[i]) is Some by {
                assert(rest[i] == samples[i + 1]);
            }
            assert forall|i: int| 0 <= i < rest.len() implies sample_hovering(#[trigger] rest[i]->0) by {
                assert(rest[i] == samples[i + 1]);
            }
            lemma_still_dwell(c1, s1, rest);
            assert(e == seq![OverlayEvent::UnlockProgress(progress_of(idle + 1, c.wait_ticks, c.hold_ticks))]);
            assert(run(c, s, samples).3 =~= dwell_events(c, idle, samples.len()));
        } else {
            assert(rest.len() == 0);
            assert(run(c1, s1, rest).3 == Seq::<OverlayEvent>::empty());
            assert(e == seq![
                OverlayEvent::UnlockProgress(progress_of(idle + 1, c.wait_ticks, c.hold_ticks)),
                OverlayEvent::LockStateUpdate(false),
            ]);
            assert(run(c, s, samples).3 =~= dwell_events(c, idle, samples.len()));
        }
    } else {
        assert(dwell_events(c, s.idle_ticks as int, 0) =~= seq![]);
    }
}

} // verus!

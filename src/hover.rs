//! The hover/unlock state machine. Once per tick (100 ms) it takes a cursor
//! sample, makes the click-through state follow the lock flag, reports hover
//! changes, and runs the dwell gesture: a cursor held still over the locked
//! overlay for the wait and then the hold time unlocks it.
use vstd::prelude::*;
use crate::config::{InteractionConfig, pass_through_call, synced};
use crate::events::{OverlayEvent, UnlockProgress, no_progress};
use crate::geometry::{CursorSample, rect_contains, within_jitter, is_within_jitter};

verus! {

/// Bound on the idle counter: the largest dwell the timing can ask for.
pub const MAX_IDLE_TICKS: u64 = 8589934590;

/// State owned by the polling loop and carried from one tick to the next.
#[derive(Clone, Copy, Debug, PartialEq, Eq, Structural)]
pub struct HoverSession {
    /// Whether the cursor was over the overlay at the previous sample.
    pub was_hovering: bool,
    /// Consecutive ticks the cursor has stood still during the gesture.
    pub idle_ticks: u64,
    /// Cursor position at the previous sample.
    pub last_x: i32,
    pub last_y: i32,
}

/// What one tick asks of the window system and the presentation layer.
#[derive(Clone, Debug, PartialEq, Eq)]
pub struct TickOutcome {
    /// The click-through call to make, `Some(ignore_cursor_events)`, if any.
    pub pass_through: Option<bool>,
    /// The events to publish, in order.
    pub events: Vec<OverlayEvent>,
}

impl HoverSession {
    /// The idle counter stays within the largest dwell the timing can ask for.
    pub open spec fn wf(self) -> bool {
        self.idle_ticks <= MAX_IDLE_TICKS
    }

    /// A session before the first tick: not hovering, no dwell, cursor at the
    /// origin.
    pub fn new() -> (r: HoverSession)
        ensures
            r.wf(),
            !r.was_hovering,
            r.idle_ticks == 0,
            r.last_x == 0,
            r.last_y == 0,
    {
        HoverSession { was_hovering: false, idle_ticks: 0, last_x: 0, last_y: 0 }
    }
}

/// Ticks of stillness that complete the gesture.
pub open spec fn total_ticks(c: InteractionConfig) -> int {
    c.wait_ticks + c.hold_ticks
}

/// Unlock progress after `idle` still ticks: zero during the wait, then the
/// share of the hold time that has passed, capped at one; an empty hold time
/// is complete as soon as the wait is over.
pub open spec fn progress_of(idle: int, wait: u32, hold: u32) -> UnlockProgress {
    if idle < wait {
        no_progress()
    } else if hold == 0 {
        UnlockProgress { done: 1, span: 1 }
    } else if idle - wait < hold {
        UnlockProgress { done: (idle - wait) as u32, span: hold }
    } else {
        UnlockProgress { done: hold, span: hold }
    }
}

/// The dwell gesture runs only over a locked overlay with the feature on.
pub open spec fn dwell_active(c: InteractionConfig, hovering: bool) -> bool {
    hovering && c.locked && c.hover_unlock_enabled
}

/// Hover bookkeeping: a change of hover state is reported, and leaving the
/// overlay clears the dwell.
pub open spec fn hover_step(s: HoverSession, hovering: bool) -> (HoverSession, Seq<OverlayEvent>) {
    if hovering == s.was_hovering {
        (s, seq![])
    } else if hovering {
        (HoverSession { was_hovering: true, ..s }, seq![OverlayEvent::OverlayHover(true)])
    } else {
        (
            HoverSession { was_hovering: false, idle_ticks: 0, ..s },
            seq![OverlayEvent::OverlayHover(false), OverlayEvent::UnlockProgress(no_progress())],
        )
    }
}

/// The idle count after a sample at `(x, y)` while the gesture runs: one more
/// if the cursor stayed within the jitter radius, else a fresh start.
pub open spec fn next_idle(s: HoverSession, x: i32, y: i32) -> int {
    if within_jitter(x as int, y as int, s.last_x as int, s.last_y as int) {
        s.idle_ticks + 1
    } else {
        0
    }
}

/// The dwell gesture for one sample at `(x, y)`.
pub open spec fn dwell_step(c: InteractionConfig, s: HoverSession, x: i32, y: i32, hovering: bool) -> (
    InteractionConfig,
    HoverSession,
    Seq<OverlayEvent>,
) {
    if dwell_active(c, hovering) {
        let idle = next_idle(s, x, y);
        let p = OverlayEvent::UnlockProgress(progress_of(idle, c.wait_ticks, c.hold_ticks));
        if idle >= total_ticks(c) {
            (
                InteractionConfig { locked: false, ..c },
                HoverSession { idle_ticks: 0, last_x: x, last_y: y, ..s },
                seq![p, OverlayEvent::LockStateUpdate(false)],
            )
        } else {
            (c, HoverSession { idle_ticks: idle as u64, last_x: x, last_y: y, ..s }, seq![p])
        }
    } else {
        (
            c,
            HoverSession { idle_ticks: 0, last_x: x, last_y: y, ..s },
            if s.idle_ticks > 0 {
                seq![OverlayEvent::UnlockProgress(no_progress())]
            } else {
                seq![]
            },
        )
    }
}

/// One tick: settings, session, click-through call and events after it. A
/// tick without a sample changes nothing and asks for nothing.
pub open spec fn tick_spec(c: InteractionConfig, s: HoverSession, sample: Option<CursorSample>) -> (
    InteractionConfig,
    HoverSession,
    Option<bool>,
    Seq<OverlayEvent>,
) {
    match sample {
        None => (c, s, None, seq![]),
        Some(m) => {
            let hovering = rect_contains(m.window, m.x as int, m.y as int);
            let (s1, e1) = hover_step(s, hovering);
            let (c2, s2, e2) = dwell_step(synced(c), s1, m.x, m.y, hovering);
            (c2, s2, pass_through_call(c), e1 + e2)
        },
    }
}

/// Ticks run on `samples` in order: the settings and session at the end,
/// the number of click-through calls made, and every event published.
pub open spec fn run(c: InteractionConfig, s: HoverSession, samples: Seq<Option<CursorSample>>) -> (
    InteractionConfig,
    HoverSession,
    nat,
    Seq<OverlayEvent>,
)
    decreases samples.len(),
{
    if samples.len() == 0 {
        (c, s, 0, seq![])
    } else {
        let (c1, s1, call, e) = tick_spec(c, s, samples[0]);
        let (c2, s2, n, es) = run(c1, s1, samples.drop_first());
        (c2, s2, n + if call is Some { 1nat } else { 0nat }, e + es)
    }
}

/// Unlock progress after `idle_ticks` still ticks under the given timing.
pub fn unlock_progress(idle_ticks: u64, wait_ticks: u32, hold_ticks: u32) -> (r: UnlockProgress)
    ensures
        r == progress_of(idle_ticks as int, wait_ticks, hold_ticks),
        r.wf(),
{
    if idle_ticks < wait_ticks as u64 {
        UnlockProgress::zero()
    } else if hold_ticks == 0 {
        UnlockProgress { done: 1, span: 1 }
    } else if idle_ticks - (wait_ticks as u64) < hold_ticks as u64 {
        UnlockProgress { done: (idle_ticks - wait_ticks as u64) as u32, span: hold_ticks }
    } else {
        UnlockProgress { done: hold_ticks, span: hold_ticks }
    }
}

impl HoverSession {
    /// Runs one tick of the control loop on `sample`, the cursor reading of
    /// this tick (`None` when it could not be taken). Updates the settings and
    /// this session, and returns the click-through call and the events to
    /// publish.
    pub fn tick(&mut self, config: &mut InteractionConfig, sample: Option<CursorSample>) -> (r: TickOutcome)
        requires
            old(self).wf(),
        ensures
            final(self).wf(),
            (*final(config), *final(self), r.pass_through, r.events@)
                == tick_spec(*old(config), *old(self), sample),
    {
        let m = match sample {
            None => {
                return TickOutcome { pass_through: None, events: Vec::new() };
            },
            Some(m) => m,
        };
        let pass_through = config.sync_pass_through();
        let hovering = m.hovering();
        let mut events: Vec<OverlayEvent> = Vec::new();

        if hovering != self.was_hovering {
            self.was_hovering = hovering;
            events.push(OverlayEvent::OverlayHover(hovering));
            if !hovering {
                self.idle_ticks = 0;
                events.push(OverlayEvent::UnlockProgress(UnlockProgress::zero()));
            }
        }
        let ghost e1 = events@;

        if hovering && config.locked && config.hover_unlock_enabled {
            if is_within_jitter(m.x, m.y, self.last_x, self.last_y) {
                self.idle_ticks = self.idle_ticks + 1;
            } else {
                self.idle_ticks = 0;
            }
            self.last_x = m.x;
            self.last_y = m.y;
            let progress = unlock_progress(self.idle_ticks, config.wait_ticks, config.hold_ticks);
            events.push(OverlayEvent::UnlockProgress(progress));
            if self.idle_ticks >= config.wait_ticks as u64 + config.hold_ticks as u64 {
                config.locked = false;
                events.push(OverlayEvent::LockStateUpdate(false));
                self.idle_ticks = 0;
            }
        } else {
            if self.idle_ticks > 0 {
                self.idle_ticks = 0;
                events.push(OverlayEvent::UnlockProgress(UnlockProgress::zero()));
            }
            self.last_x = m.x;
            self.last_y = m.y;
        }
        proof {
            let (s1, he) = hover_step(*old(self), hovering);
            let (c2, s2, de) = dwell_step(synced(*old(config)), s1, m.x, m.y, hovering);
            assert(e1 == he);
            assert(events@ =~= he + de);
        }
        TickOutcome { pass_through, events }
    }
}

} // verus!

//! Events delivered to the presentation layer, and their names.
use vstd::prelude::*;
use crate::payload::{LyricsEvent, ProgressEvent};

verus! {

/// Progress of the unlock gesture as the exact fraction `done / span`; the
/// percentage shown is `100 * done / span`.
#[derive(Clone, Copy, Debug, PartialEq, Eq, Structural)]
pub struct UnlockProgress {
    pub done: u32,
    pub span: u32,
}

/// Zero unlock progress.
pub open spec fn no_progress() -> UnlockProgress {
    UnlockProgress { done: 0, span: 1 }
}

impl UnlockProgress {
    /// A well-formed fraction lies in `[0, 1]` and has a non-zero denominator.
    pub open spec fn wf(self) -> bool {
        0 < self.span && self.done <= self.span
    }

    /// No progress at all.
    pub open spec fn is_zero_spec(self) -> bool {
        self.done == 0
    }

    /// The gesture is complete: one hundred percent.
    pub open spec fn is_full_spec(self) -> bool {
        self.done == self.span
    }

    /// `self` is at most `other`, compared as fractions.
    pub open spec fn le(self, other: UnlockProgress) -> bool {
        self.done * other.span <= other.done * self.span
    }

    /// Zero progress.
    pub fn zero() -> (r: UnlockProgress)
        ensures
            r == no_progress(),
    {
        UnlockProgress { done: 0, span: 1 }
    }

    /// Whether no progress has been made.
    pub fn is_zero(&self) -> (r: bool)
        ensures
            r == self.is_zero_spec(),
    {
        self.done == 0
    }

    /// Whether the gesture is complete.
    pub fn is_full(&self) -> (r: bool)
        ensures
            r == self.is_full_spec(),
    {
        self.done == self.span
    }
}

/// An event for the presentation layer.
#[derive(Clone, Debug, PartialEq, Eq)]
pub enum OverlayEvent {
    /// The cursor entered (`true`) or left (`false`) the overlay.
    OverlayHover(bool),
    /// New progress of the unlock gesture.
    UnlockProgress(UnlockProgress),
    /// The lock flag changed to the given value.
    LockStateUpdate(bool),
    /// New lyrics arrived.
    LyricsUpdate(LyricsEvent),
    /// New playback progress arrived.
    ProgressUpdate(ProgressEvent),
}

/// The name under which an event is published.
pub open spec fn event_name(e: OverlayEvent) -> Seq<char> {
    match e {
        OverlayEvent::OverlayHover(_) => "overlay-hover"@,
        OverlayEvent::UnlockProgress(_) => "unlock-progress"@,
        OverlayEvent::LockStateUpdate(_) => "lock-state-update"@,
        OverlayEvent::LyricsUpdate(_) => "lyrics-update"@,
        OverlayEvent::ProgressUpdate(_) => "progress-update"@,
    }
}

impl OverlayEvent {
    /// The name under which this event is published.
    pub fn name(&self) -> (r: &'static str)
        ensures
            r@ == event_name(*self),
    {
        match self {
            OverlayEvent::OverlayHover(_) => "overlay-hover",
            OverlayEvent::UnlockProgress(_) => "unlock-progress",
            OverlayEvent::LockStateUpdate(_) => "lock-state-update",
            OverlayEvent::LyricsUpdate(_) => "lyrics-update",
            OverlayEvent::ProgressUpdate(_) => "progress-update",
        }
    }
}

} // verus!

//! The interaction settings shared between the hover loop and the command
//! handlers: the lock flag, the applied click-through state, the dwell timing
//! and the hover-unlock switch.
use vstd::prelude::*;

verus! {

/// Default wait before unlock progress starts, in ticks (1.2 s).
pub const DEFAULT_WAIT_TICKS: u32 = 12;

/// Default hold time that completes the unlock, in ticks (3.0 s).
pub const DEFAULT_HOLD_TICKS: u32 = 30;

/// Shared interaction settings. A tick lasts 100 ms, so the dwell timing is
/// kept in tenths of a second.
#[derive(Clone, Copy, Debug, PartialEq, Eq, Structural)]
pub struct InteractionConfig {
    /// The overlay lets mouse events through unless unlocked.
    pub locked: bool,
    /// The click-through state last handed to the window system: `true` when
    /// the window was last told to capture mouse events.
    pub interactive: bool,
    /// Ticks of stillness before unlock progress starts.
    pub wait_ticks: u32,
    /// Ticks of further stillness over which progress goes to 100%.
    pub hold_ticks: u32,
    /// Whether the dwell gesture may unlock the overlay at all.
    pub hover_unlock_enabled: bool,
}

/// The window-system call that makes the click-through state follow the
/// lock flag, if one is due: `Some(ignore)` asks to ignore cursor events when
/// `ignore` holds and to capture them otherwise.
pub open spec fn pass_through_call(c: InteractionConfig) -> Option<bool> {
    if c.locked == c.interactive {
        Some(c.locked)
    } else {
        None
    }
}

/// The settings after the click-through state follows the lock flag.
pub open spec fn synced(c: InteractionConfig) -> InteractionConfig {
    InteractionConfig { interactive: !c.locked, ..c }
}

impl InteractionConfig {
    /// Locked, not interactive, dwell of 1.2 s then 3.0 s, hover unlock on.
    pub fn new() -> (r: InteractionConfig)
        ensures
            r.locked,
            !r.interactive,
            r.wait_ticks == DEFAULT_WAIT_TICKS,
            r.hold_ticks == DEFAULT_HOLD_TICKS,
            r.hover_unlock_enabled,
    {
        InteractionConfig {
            locked: true,
            interactive: false,
            wait_ticks: DEFAULT_WAIT_TICKS,
            hold_ticks: DEFAULT_HOLD_TICKS,
            hover_unlock_enabled: true,
        }
    }

    /// Sets the lock flag.
    pub fn set_lock_state(&mut self, locked: bool)
        ensures
            *final(self) == (InteractionConfig { locked, ..*old(self) }),
    {
        self.locked = locked;
    }

    /// Flips the lock flag and returns its new value.
    pub fn toggle_lock(&mut self) -> (r: bool)
        ensures
            r == !old(self).locked,
            *final(self) == (InteractionConfig { locked: r, ..*old(self) }),
    {
        self.locked = !self.locked;
        self.locked
    }

    /// Sets the dwell timing, in ticks of 100 ms.
    pub fn set_unlock_timing(&mut self, wait_ticks: u32, hold_ticks: u32)
        ensures
            *final(self) == (InteractionConfig { wait_ticks, hold_ticks, ..*old(self) }),
    {
        self.wait_ticks = wait_ticks;
        self.hold_ticks = hold_ticks;
    }

    /// Switches the dwell gesture on or off.
    pub fn set_hover_unlock_enabled(&mut self, enabled: bool)
        ensures
            *final(self) == (InteractionConfig { hover_unlock_enabled: enabled, ..*old(self) }),
    {
        self.hover_unlock_enabled = enabled;
    }

    /// Makes the click-through state follow the lock flag. Returns the
    /// window-system call to make, `Some(ignore_cursor_events)`, or `None`
    /// when the applied state already matches, so that the same call is
    /// never issued twice in a row.
    pub fn sync_pass_through(&mut self) -> (r: Option<bool>)
        ensures
            r == pass_through_call(*old(self)),
            *final(self) == synced(*old(self)),
    {
        if self.locked {
            if self.interactive {
                self.interactive = false;
                Some(true)
            } else {
                None
            }
        } else {
            if !self.interactive {
                self.interactive = true;
                Some(false)
            } else {
                None
            }
        }
    }
}

} // verus!

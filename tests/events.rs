use lyrics_overlay::config::InteractionConfig;
use lyrics_overlay::events::{OverlayEvent, UnlockProgress};

#[test]
fn event_names() {
    assert_eq!(OverlayEvent::OverlayHover(true).name(), "overlay-hover");
    assert_eq!(OverlayEvent::UnlockProgress(UnlockProgress::zero()).name(), "unlock-progress");
    assert_eq!(OverlayEvent::LockStateUpdate(false).name(), "lock-state-update");
}

#[test]
fn zero_progress() {
    let z = UnlockProgress::zero();
    assert!(z.is_zero());
    assert!(!z.is_full());
    assert_eq!(z, UnlockProgress { done: 0, span: 1 });
}

#[test]
fn config_setters() {
    let mut c = InteractionConfig::new();
    c.set_lock_state(false);
    assert!(!c.locked);
    assert!(c.toggle_lock());
    assert!(c.locked);
    assert!(!c.toggle_lock());
    c.set_unlock_timing(7, 9);
    assert_eq!((c.wait_ticks, c.hold_ticks), (7, 9));
    c.set_hover_unlock_enabled(false);
    assert!(!c.hover_unlock_enabled);
    assert!(!c.interactive);
}

#[test]
fn sync_pass_through_follows_lock() {
    let mut c = InteractionConfig::new();
    assert_eq!(c.sync_pass_through(), None);
    c.set_lock_state(false);
    assert_eq!(c.sync_pass_through(), Some(false));
    assert!(c.interactive);
    assert_eq!(c.sync_pass_through(), None);
    c.set_lock_state(true);
    assert_eq!(c.sync_pass_through(), Some(true));
    assert!(!c.interactive);
    assert_eq!(c.sync_pass_through(), None);
}

use lyrics_overlay::geometry::{is_within_jitter, CursorSample, WindowRect};

#[test]
fn window_contains_origin_but_not_far_edge() {
    let w = WindowRect { x: 10, y: 20, width: 30, height: 40 };
    assert!(w.contains(10, 20));
    assert!(w.contains(39, 59));
    assert!(!w.contains(40, 20));
    assert!(!w.contains(10, 60));
    assert!(!w.contains(9, 30));
    assert!(!w.contains(20, 19));
}

#[test]
fn empty_window_contains_nothing() {
    let w = WindowRect { x: 0, y: 0, width: 0, height: 0 };
    assert!(!w.contains(0, 0));
}

#[test]
fn window_at_extreme_coordinates() {
    let w = WindowRect { x: i32::MAX - 5, y: i32::MIN, width: u32::MAX, height: 10 };
    assert!(w.contains(i32::MAX, i32::MIN));
    assert!(!w.contains(i32::MIN, i32::MIN));
    let s = CursorSample { x: i32::MAX, y: i32::MIN + 9, window: w };
    assert!(s.hovering());
}

#[test]
fn jitter_radius() {
    assert!(is_within_jitter(0, 0, 0, 0));
    assert!(is_within_jitter(4, 2, 0, 0));
    assert!(is_within_jitter(-3, -3, 0, 0));
    assert!(!is_within_jitter(3, 4, 0, 0));
    assert!(!is_within_jitter(5, 1, 0, 0));
    assert!(!is_within_jitter(0, 5, 0, 0));
    assert!(!is_within_jitter(i32::MAX, i32::MAX, i32::MIN, i32::MIN));
}

//! Screen-space geometry of a cursor sample: window containment and the
//! jitter radius within which a cursor counts as standing still.
use vstd::prelude::*;

verus! {

/// Squared radius below which a cursor displacement between two ticks is
/// treated as jitter rather than movement (about five pixels).
pub const JITTER_RADIUS_SQ: i64 = 25;

/// A window's rectangle on screen: its top-left corner and its size.
#[derive(Clone, Copy, Debug, PartialEq, Eq, Structural)]
pub struct WindowRect {
    pub x: i32,
    pub y: i32,
    pub width: u32,
    pub height: u32,
}

/// One reading of the cursor position together with the overlay window's
/// rectangle, both taken at (nearly) the same instant.
#[derive(Clone, Copy, Debug, PartialEq, Eq, Structural)]
pub struct CursorSample {
    pub x: i32,
    pub y: i32,
    pub window: WindowRect,
}

/// The point lies inside the rectangle: the origin edge is included, the far
/// edge is not.
pub open spec fn rect_contains(r: WindowRect, px: int, py: int) -> bool {
    &&& r.x <= px < r.x + r.width
    &&& r.y <= py < r.y + r.height
}

/// Squared Euclidean distance between two points.
pub open spec fn dist_sq(ax: int, ay: int, bx: int, by: int) -> int {
    (ax - bx) * (ax - bx) + (ay - by) * (ay - by)
}

/// A move from `(bx, by)` to `(ax, ay)` stays within the jitter radius.
pub open spec fn within_jitter(ax: int, ay: int, bx: int, by: int) -> bool {
    dist_sq(ax, ay, bx, by) < JITTER_RADIUS_SQ
}

impl WindowRect {
    /// Whether the point `(px, py)` lies inside this rectangle.
    pub fn contains(&self, px: i32, py: i32) -> (r: bool)
        ensures
            r == rect_contains(*self, px as int, py as int),
    {
        let rel_x = px as i64 - self.x as i64;
        let rel_y = py as i64 - self.y as i64;
        0 <= rel_x && rel_x < self.width as i64 && 0 <= rel_y && rel_y < self.height as i64
    }
}

impl CursorSample {
    /// Whether the cursor of this sample is over the window of this sample.
    pub fn hovering(&self) -> (r: bool)
        ensures
            r == rect_contains(self.window, self.x as int, self.y as int),
    {
        self.window.contains(self.x, self.y)
    }
}

/// Whether a move from `(bx, by)` to `(ax, ay)` is small enough to count as
/// the cursor standing still.
pub fn is_within_jitter(ax: i32, ay: i32, bx: i32, by: i32) -> (r: bool)
    ensures
        r == within_jitter(ax as int, ay as int, bx as int, by as int),
{
    let dx = ax as i64 - bx as i64;
    let dy = ay as i64 - by as i64;
    if dx <= -5 || dx >= 5 || dy <= -5 || dy >= 5 {
        proof {
            assert(dx * dx >= 25 || dy * dy >= 25) by (nonlinear_arith)
                requires dx <= -5 || dx >= 5 || dy <= -5 || dy >= 5;
            assert(dx * dx >= 0 && dy * dy >= 0) by (nonlinear_arith);
        }
        false
    } else {
        assert(0 <= dx * dx <= 16 && 0 <= dy * dy <= 16) by (nonlinear_arith)
            requires -5 < dx < 5, -5 < dy < 5;
        dx * dx + dy * dy < JITTER_RADIUS_SQ
    }
}

} // verus!

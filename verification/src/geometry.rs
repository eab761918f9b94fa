use vstd::prelude::*;

verus! {

/// A point in physical pixels.
#[derive(Clone, Copy, Debug, PartialEq, Eq, Structural)]
pub struct UiPoint {
    pub x: i32,
    pub y: i32,
}

/// A rectangle in physical pixels, edges as Win32 `RECT` has them: `left`
/// and `top` inclusive, `right` and `bottom` exclusive.
#[derive(Clone, Copy, Debug, PartialEq, Eq, Structural)]
pub struct UiRect {
    pub left: i32,
    pub top: i32,
    pub right: i32,
    pub bottom: i32,
}

impl UiRect {
    pub fn new(left: i32, top: i32, right: i32, bottom: i32) -> (rc: UiRect)
        ensures
            rc == (UiRect { left, top, right, bottom }),
    {
        UiRect { left, top, right, bottom }
    }

    pub open spec fn spec_height(self) -> int {
        self.bottom - self.top
    }

    pub open spec fn spec_width(self) -> int {
        self.right - self.left
    }

    /// `bottom - top`, for a rectangle whose height fits `i32`.
    pub fn height(&self) -> (h: i32)
        requires
            i32::MIN <= self.spec_height() <= i32::MAX,
        ensures
            h == self.spec_height(),
    {
        self.bottom - self.top
    }

    pub open spec fn contains_point(self, x: int, y: int) -> bool {
        self.left <= x < self.right && self.top <= y < self.bottom
    }
}

/// Integer division as Rust performs it on signed values: the quotient is
/// rounded toward zero.
pub open spec fn trunc_div(a: int, b: int) -> int
    recommends
        b > 0,
{
    if a >= 0 {
        a / b
    } else {
        -((-a) / b)
    }
}

/// Whether `(x, y)` lies inside `rc` (left/top edges inside, right/bottom
/// edges outside).
pub fn pt_in_rect(x: i32, y: i32, rc: &UiRect) -> (inside: bool)
    ensures
        inside == rc.contains_point(x as int, y as int),
{
    x >= rc.left && x < rc.right && y >= rc.top && y < rc.bottom
}

} // verus!

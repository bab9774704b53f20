use vstd::prelude::*;

verus! {

/// Number of coordinate units in one pixel.
pub const UNITS_PER_PIXEL: i64 = 10;

/// A point or a displacement in the plane.
#[derive(Clone, Copy, Debug, PartialEq, Eq, Structural)]
pub struct Vec2 {
    pub x: i64,
    pub y: i64,
}

impl Vec2 {
    pub fn new(x: i64, y: i64) -> (r: Vec2)
        ensures
            r.x == x,
            r.y == y,
    {
        Vec2 { x, y }
    }
}

/// An axis-aligned rectangle given by its four edges.
#[derive(Clone, Copy, Debug, PartialEq, Eq, Structural)]
pub struct Rect {
    pub left: i64,
    pub right: i64,
    pub bottom: i64,
    pub top: i64,
}

impl Rect {
    /// The edges are in order: a window never has a negative extent.
    pub open spec fn wf(self) -> bool {
        self.left <= self.right && self.bottom <= self.top
    }

    /// Half the width, rounded towards zero.
    pub open spec fn half_w(self) -> int {
        (self.right - self.left) / 2
    }

    /// Half the height, rounded towards zero.
    pub open spec fn half_h(self) -> int {
        (self.top - self.bottom) / 2
    }

    /// A rectangle of the given width and height centred on the origin.
    pub fn centred(w: i64, h: i64) -> (r: Rect)
        requires
            0 <= w,
            0 <= h,
        ensures
            r.wf(),
            r.left == -(w / 2),
            r.right == w - w / 2,
            r.bottom == -(h / 2),
            r.top == h - h / 2,
            r.half_w() == w / 2,
            r.half_h() == h / 2,
    {
        Rect { left: -(w / 2), right: w - w / 2, bottom: -(h / 2), top: h - h / 2 }
    }

    /// Half the width, rounded towards zero.
    pub fn half_width(&self) -> (r: i64)
        requires
            self.wf(),
        ensures
            r == self.half_w(),
            0 <= r,
    {
        (((self.right as i128) - (self.left as i128)) / 2) as i64
    }

    /// Half the height, rounded towards zero.
    pub fn half_height(&self) -> (r: i64)
        requires
            self.wf(),
        ensures
            r == self.half_h(),
            0 <= r,
    {
        (((self.top as i128) - (self.bottom as i128)) / 2) as i64
    }
}

/// Whether `v` lies in the closed range between `start` and `end`, in either
/// order of the two ends.
pub open spec fn range_contains(start: int, end: int, v: int) -> bool {
    if start <= end {
        start <= v && v <= end
    } else {
        end <= v && v <= start
    }
}

} // verus!

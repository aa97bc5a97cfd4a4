//! Axis-aligned rectangles in fixed-point units: the colliders of every
//! entity and the play-field boundary.

use vstd::prelude::*;
use crate::vec2::Vec2;

verus! {

/// An axis-aligned rectangle: top-left corner plus size.
#[derive(Clone, Copy, PartialEq, Eq, Structural, Debug)]
pub struct Rect {
    pub x: i64,
    pub y: i64,
    pub w: i64,
    pub h: i64,
}

/// Every rectangle the engine works with stays inside this coordinate range,
/// which leaves room for the sums of the collision arithmetic in `i64`.
pub const RECT_ABS_LIMIT: i64 = 0x2000_0000_0000_0000;

pub open spec fn min_int(a: int, b: int) -> int {
    if a <= b { a } else { b }
}

pub open spec fn max_int(a: int, b: int) -> int {
    if a >= b { a } else { b }
}

/// Clamping to a closed interval, as the collision rules use it.
pub open spec fn clamp_int(v: int, lo: int, hi: int) -> int
    recommends lo <= hi,
{
    if v < lo { lo } else if v > hi { hi } else { v }
}

impl Rect {
    /// Non-negative size and all edges within the coordinate range.
    pub open spec fn wf(self) -> bool {
        &&& 0 <= self.w
        &&& 0 <= self.h
        &&& -RECT_ABS_LIMIT <= self.x
        &&& self.x + self.w <= RECT_ABS_LIMIT
        &&& -RECT_ABS_LIMIT <= self.y
        &&& self.y + self.h <= RECT_ABS_LIMIT
    }

    pub open spec fn spec_left(self) -> int {
        self.x as int
    }

    pub open spec fn spec_right(self) -> int {
        self.x + self.w
    }

    pub open spec fn spec_top(self) -> int {
        self.y as int
    }

    pub open spec fn spec_bottom(self) -> int {
        self.y + self.h
    }

    /// Strict overlap: rectangles that only share an edge do not intersect.
    pub open spec fn overlaps(self, other: Rect) -> bool {
        &&& self.spec_left() < other.spec_right()
        &&& other.spec_left() < self.spec_right()
        &&& self.spec_top() < other.spec_bottom()
        &&& other.spec_top() < self.spec_bottom()
    }

    /// The overlap region of two overlapping rectangles.
    pub open spec fn spec_intersection(self, other: Rect) -> Rect {
        Rect {
            x: max_int(self.spec_left(), other.spec_left()) as i64,
            y: max_int(self.spec_top(), other.spec_top()) as i64,
            w: (min_int(self.spec_right(), other.spec_right())
                - max_int(self.spec_left(), other.spec_left())) as i64,
            h: (min_int(self.spec_bottom(), other.spec_bottom())
                - max_int(self.spec_top(), other.spec_top())) as i64,
        }
    }

    /// The smallest rectangle containing both.
    pub open spec fn spec_union(self, other: Rect) -> Rect {
        Rect {
            x: min_int(self.spec_left(), other.spec_left()) as i64,
            y: min_int(self.spec_top(), other.spec_top()) as i64,
            w: (max_int(self.spec_right(), other.spec_right())
                - min_int(self.spec_left(), other.spec_left())) as i64,
            h: (max_int(self.spec_bottom(), other.spec_bottom())
                - min_int(self.spec_top(), other.spec_top())) as i64,
        }
    }

    pub fn new(x: i64, y: i64, w: i64, h: i64) -> (r: Rect)
        ensures
            r == (Rect { x, y, w, h }),
    {
        Rect { x, y, w, h }
    }

    /// The rectangle of the given size centered on `center` (odd sizes round
    /// the half-size down).
    pub fn from_center(center: Vec2, w: i64, h: i64) -> (r: Rect)
        requires
            0 <= w <= RECT_ABS_LIMIT,
            0 <= h <= RECT_ABS_LIMIT,
            -RECT_ABS_LIMIT <= center.x <= RECT_ABS_LIMIT,
            -RECT_ABS_LIMIT <= center.y <= RECT_ABS_LIMIT,
        ensures
            r.x == center.x - w / 2,
            r.y == center.y - h / 2,
            r.w == w,
            r.h == h,
    {
        let half_w: i64 = (w as u64 / 2) as i64;
        let half_h: i64 = (h as u64 / 2) as i64;
        Rect { x: center.x - half_w, y: center.y - half_h, w, h }
    }

    pub fn left(&self) -> (r: i64)
        requires self.wf(),
        ensures r == self.spec_left(),
    {
        self.x
    }

    pub fn right(&self) -> (r: i64)
        requires self.wf(),
        ensures r == self.spec_right(),
    {
        self.x + self.w
    }

    pub fn top(&self) -> (r: i64)
        requires self.wf(),
        ensures r == self.spec_top(),
    {
        self.y
    }

    pub fn bottom(&self) -> (r: i64)
        requires self.wf(),
        ensures r == self.spec_bottom(),
    {
        self.y + self.h
    }

    /// Whether the two rectangles overlap in a region of positive area.
    pub fn has_intersection(&self, other: &Rect) -> (r: bool)
        requires
            self.wf(),
            other.wf(),
        ensures
            r == self.overlaps(*other),
    {
        self.x < other.x + other.w && other.x < self.x + self.w && self.y < other.y + other.h
            && other.y < self.y + self.h
    }

    /// The overlap region, or `None` when the rectangles do not overlap.
    pub fn intersection(&self, other: &Rect) -> (r: Option<Rect>)
        requires
            self.wf(),
            other.wf(),
        ensures
            if self.overlaps(*other) {
                r == Some(self.spec_intersection(*other))
            } else {
                r == None::<Rect>
            },
    {
        if self.has_intersection(other) {
            let lx = if self.x >= other.x { self.x } else { other.x };
            let ty = if self.y >= other.y { self.y } else { other.y };
            let sr = self.x + self.w;
            let or = other.x + other.w;
            let rx = if sr <= or { sr } else { or };
            let sb = self.y + self.h;
            let ob = other.y + other.h;
            let by = if sb <= ob { sb } else { ob };
            Some(Rect { x: lx, y: ty, w: rx - lx, h: by - ty })
        } else {
            None
        }
    }

    /// The smallest rectangle containing both rectangles.
    pub fn union(&self, other: &Rect) -> (r: Rect)
        requires
            self.wf(),
            other.wf(),
        ensures
            r == self.spec_union(*other),
            r.wf(),
    {
        let lx = if self.x <= other.x { self.x } else { other.x };
        let ty = if self.y <= other.y { self.y } else { other.y };
        let sr = self.x + self.w;
        let or = other.x + other.w;
        let rx = if sr >= or { sr } else { or };
        let sb = self.y + self.h;
        let ob = other.y + other.h;
        let by = if sb >= ob { sb } else { ob };
        Rect { x: lx, y: ty, w: rx - lx, h: by - ty }
    }
}

/// Clamp a value to the closed interval `[lo, hi]`.
pub fn clamp_i64(v: i64, lo: i64, hi: i64) -> (r: i64)
    requires
        lo <= hi,
    ensures
        r == clamp_int(v as int, lo as int, hi as int),
{
    if v < lo {
        lo
    } else if v > hi {
        hi
    } else {
        v
    }
}

} // verus!

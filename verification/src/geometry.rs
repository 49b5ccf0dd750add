//! Geometry primitives: a 2D point, an axis-aligned rectangle with half-open
//! containment, and the per-axis size range every node reports during layout.
//!
//! All coordinates are integers. Rectangle coordinates are kept within
//! `MAX_COORD` and declared sizes within `MAX_SIZE`, so that every layout
//! computation in the engine stays free of overflow.

use vstd::prelude::*;

verus! {

/// Largest magnitude a rectangle or point coordinate may have.
pub const MAX_COORD: i64 = 0x2000_0000_0000;

/// Largest value a declared minimum or maximum size may have.
pub const MAX_SIZE: i64 = 0x100_0000_0000;

/// Largest magnification a viewport may apply to pointer coordinates.
pub const MAX_ZOOM: i64 = 1024;

/// A 2D point.
#[derive(Clone, Copy, Debug, PartialEq, Eq, Structural)]
pub struct Point {
    pub x: i64,
    pub y: i64,
}

impl Point {
    /// Both coordinates within the engine's coordinate bound.
    pub open spec fn wf(self) -> bool {
        -MAX_COORD <= self.x <= MAX_COORD && -MAX_COORD <= self.y <= MAX_COORD
    }
}

/// An axis-aligned rectangle given by its minimum and maximum corners.
#[derive(Clone, Copy, Debug, PartialEq, Eq, Structural)]
pub struct Rect {
    pub x_min: i64,
    pub y_min: i64,
    pub x_max: i64,
    pub y_max: i64,
}

impl Rect {
    /// Corners ordered on both axes, all coordinates within bound.
    pub open spec fn wf(self) -> bool {
        &&& -MAX_COORD <= self.x_min <= self.x_max <= MAX_COORD
        &&& -MAX_COORD <= self.y_min <= self.y_max <= MAX_COORD
    }

    pub open spec fn spec_width(self) -> int {
        self.x_max - self.x_min
    }

    pub open spec fn spec_height(self) -> int {
        self.y_max - self.y_min
    }

    /// Half-open containment: the minimum edges belong to the rectangle,
    /// the maximum edges do not.
    pub open spec fn spec_contains(self, point: Point) -> bool {
        &&& self.x_min <= point.x < self.x_max
        &&& self.y_min <= point.y < self.y_max
    }

    /// `inner` lies entirely within `self`.
    pub open spec fn spec_fits_in(self, outer: Rect) -> bool {
        &&& outer.x_min <= self.x_min && self.x_max <= outer.x_max
        &&& outer.y_min <= self.y_min && self.y_max <= outer.y_max
    }

    pub fn contains(&self, point: Point) -> (r: bool)
        ensures
            r == self.spec_contains(point),
    {
        self.x_min <= point.x && point.x < self.x_max && self.y_min <= point.y
            && point.y < self.y_max
    }

    pub fn min_point(&self) -> (r: Point)
        ensures
            r == (Point { x: self.x_min, y: self.y_min }),
    {
        Point { x: self.x_min, y: self.y_min }
    }

    pub fn width(&self) -> (r: i64)
        requires
            self.wf(),
        ensures
            r == self.spec_width(),
    {
        self.x_max - self.x_min
    }

    pub fn height(&self) -> (r: i64)
        requires
            self.wf(),
        ensures
            r == self.spec_height(),
    {
        self.y_max - self.y_min
    }
}

/// The sizing opinion of a node along one axis: a minimum the parent must
/// offer, and an optional maximum beyond which the node will not grow.
/// `None` stands for an unbounded maximum.
#[derive(Clone, Copy, Debug)]
pub struct SizeRange {
    pub min: i64,
    pub max: Option<i64>,
}

impl SizeRange {
    /// The minimum is non-negative and a finite maximum is at least the
    /// minimum; both stay within the engine's size bound.
    pub open spec fn wf(self) -> bool {
        &&& 0 <= self.min <= MAX_SIZE
        &&& match self.max {
            Some(m) => self.min <= m <= MAX_SIZE,
            None => true,
        }
    }

    /// "No opinion": anything from zero to whatever the slot offers.
    pub fn unbounded() -> (r: SizeRange)
        ensures
            r == (SizeRange { min: 0, max: None::<i64> }),
    {
        SizeRange { min: 0, max: None }
    }

    /// Exactly `size` on this axis.
    pub fn exact(size: i64) -> (r: SizeRange)
        ensures
            r == (SizeRange { min: size, max: Some(size) }),
    {
        SizeRange { min: size, max: Some(size) }
    }
}

/// Size addition, saturating at `MAX_SIZE`.
pub open spec fn spec_size_add(a: int, b: int) -> int {
    if a + b > MAX_SIZE {
        MAX_SIZE as int
    } else {
        a + b
    }
}

/// Size addition, saturating at `MAX_SIZE`.
pub fn size_add(a: i64, b: i64) -> (r: i64)
    requires
        0 <= a <= MAX_SIZE,
        0 <= b <= MAX_SIZE,
    ensures
        r == spec_size_add(a as int, b as int),
        0 <= r <= MAX_SIZE,
{
    if a > MAX_SIZE - b {
        MAX_SIZE
    } else {
        a + b
    }
}

pub fn min_i64(a: i64, b: i64) -> (r: i64)
    ensures
        r == if a <= b { a as int } else { b as int },
{
    if a <= b {
        a
    } else {
        b
    }
}

/// Clamp `v` into `[lo, hi]`.
pub open spec fn spec_clamp(v: int, lo: int, hi: int) -> int
    recommends
        lo <= hi,
{
    if v < lo {
        lo
    } else if v > hi {
        hi
    } else {
        v
    }
}

pub fn clamp_i64(v: i64, lo: i64, hi: i64) -> (r: i64)
    requires
        lo <= hi,
    ensures
        r == spec_clamp(v as int, lo as int, hi as int),
{
    if v < lo {
        lo
    } else if v > hi {
        hi
    } else {
        v
    }
}

} // verus!

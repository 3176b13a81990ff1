//! Points, discs and windows on the integer plane.
//!
//! Coordinates are whole units. A disc is a centre and a radius; every
//! comparison of a distance with a length is made between their squares, so
//! that no square root is ever taken and the tests are exact.

use vstd::prelude::*;
use crate::palette::Rgba;

verus! {

/// A position on the plane.
#[derive(Clone, Copy, Debug, PartialEq, Eq, Structural)]
pub struct Point {
    pub x: i32,
    pub y: i32,
}

/// The bounds of the drawing surface. On each axis the two bounds may come
/// in either order: `top` may be the larger or the smaller of the two
/// ordinates, and `left` of the two abscissas.
#[derive(Clone, Copy, Debug, PartialEq, Eq, Structural)]
pub struct Rect {
    pub left: i32,
    pub right: i32,
    pub top: i32,
    pub bottom: i32,
}

/// A filled disc to draw.
#[derive(Clone, Copy, Debug, PartialEq, Eq, Structural)]
pub struct Circle {
    pub center: Point,
    pub radius: u32,
    pub color: Rgba,
}

/// The square of the Euclidean distance between two points.
pub open spec fn dist_sq(a: Point, b: Point) -> int {
    (a.x - b.x) * (a.x - b.x) + (a.y - b.y) * (a.y - b.y)
}

/// Two discs overlap when the distance between their centres is strictly
/// less than the sum of their radii. Both sides are non-negative, so the
/// comparison of the squares says the same.
pub open spec fn discs_overlap(c1: Point, r1: int, c2: Point, r2: int) -> bool {
    dist_sq(c1, c2) < (r1 + r2) * (r1 + r2)
}

/// The disc `(inner, inner_r)` lies inside the disc `(outer, outer_r)`: the
/// distance between the centres is at most the difference of the radii.
pub open spec fn disc_within(inner: Point, inner_r: int, outer: Point, outer_r: int) -> bool {
    &&& 0 <= inner_r <= outer_r
    &&& dist_sq(inner, outer) <= (outer_r - inner_r) * (outer_r - inner_r)
}

/// The square that bounds the disc has all four corners at representable
/// coordinates.
pub open spec fn disc_fits(c: Point, r: int) -> bool {
    &&& 0 <= r
    &&& i32::MIN <= c.x - r
    &&& c.x + r <= i32::MAX
    &&& i32::MIN <= c.y - r
    &&& c.y + r <= i32::MAX
}

/// The distance between two points is the same in both directions.
pub proof fn lemma_dist_sq_symmetric(a: Point, b: Point)
    ensures
        dist_sq(a, b) == dist_sq(b, a),
{
    assert((a.x - b.x) * (a.x - b.x) == (b.x - a.x) * (b.x - a.x)) by (nonlinear_arith);
    assert((a.y - b.y) * (a.y - b.y) == (b.y - a.y) * (b.y - a.y)) by (nonlinear_arith);
}

/// Overlap does not depend on the order in which the two discs are given.
pub proof fn lemma_overlap_symmetric(c1: Point, r1: int, c2: Point, r2: int)
    ensures
        discs_overlap(c1, r1, c2, r2) == discs_overlap(c2, r2, c1, r1),
{
    lemma_dist_sq_symmetric(c1, c2);
}

/// A disc inside another fits wherever the other fits.
pub proof fn lemma_within_fits(inner: Point, inner_r: int, outer: Point, outer_r: int)
    requires
        disc_within(inner, inner_r, outer, outer_r),
        disc_fits(outer, outer_r),
    ensures
        disc_fits(inner, inner_r),
{
    let d = outer_r - inner_r;
    let dx = inner.x - outer.x;
    let dy = inner.y - outer.y;
    assert(-d <= dx <= d && -d <= dy <= d) by (nonlinear_arith)
        requires
            0 <= d,
            dx * dx + dy * dy <= d * d,
    ;
}

/// The squared distance between two points, computed without overflow.
pub fn distance_squared(a: Point, b: Point) -> (d: u128)
    ensures
        d == dist_sq(a, b),
{
    let dx: i128 = a.x as i128 - b.x as i128;
    let dy: i128 = a.y as i128 - b.y as i128;
    assert(0 <= dx * dx <= 0x1_0000_0000 * 0x1_0000_0000) by (nonlinear_arith)
        requires
            -0x1_0000_0000 <= dx <= 0x1_0000_0000,
    ;
    assert(0 <= dy * dy <= 0x1_0000_0000 * 0x1_0000_0000) by (nonlinear_arith)
        requires
            -0x1_0000_0000 <= dy <= 0x1_0000_0000,
    ;
    let sum: i128 = dx * dx + dy * dy;
    sum as u128
}

/// Whether two discs overlap.
pub fn overlap(c1: Point, r1: u32, c2: Point, r2: u32) -> (b: bool)
    ensures
        b == discs_overlap(c1, r1 as int, c2, r2 as int),
{
    let reach: u128 = r1 as u128 + r2 as u128;
    assert(0 <= reach * reach <= 0x2_0000_0000 * 0x2_0000_0000) by (nonlinear_arith)
        requires
            0 <= reach <= 0x2_0000_0000,
    ;
    distance_squared(c1, c2) < reach * reach
}

impl Rect {
    /// The smaller of the two abscissas.
    pub open spec fn min_x(self) -> int {
        if self.left <= self.right {
            self.left as int
        } else {
            self.right as int
        }
    }

    /// The larger of the two abscissas.
    pub open spec fn max_x(self) -> int {
        if self.left <= self.right {
            self.right as int
        } else {
            self.left as int
        }
    }

    /// The smaller of the two ordinates.
    pub open spec fn min_y(self) -> int {
        if self.top <= self.bottom {
            self.top as int
        } else {
            self.bottom as int
        }
    }

    /// The larger of the two ordinates.
    pub open spec fn max_y(self) -> int {
        if self.top <= self.bottom {
            self.bottom as int
        } else {
            self.top as int
        }
    }

    /// The vertical extent of the window.
    pub open spec fn spec_height(self) -> int {
        self.max_y() - self.min_y()
    }

    /// Whether a point lies in the window, borders included.
    pub open spec fn holds(self, p: Point) -> bool {
        &&& self.min_x() <= p.x <= self.max_x()
        &&& self.min_y() <= p.y <= self.max_y()
    }

    /// The largest radius of a pad that appears in this window: a third of
    /// its height, rounded down.
    pub open spec fn spec_max_radius(self) -> int {
        self.spec_height() / 3
    }

    /// Whether pads can appear in this window: a third of its height is at
    /// least `least_radius`, and a pad of the largest radius, centred anywhere
    /// in the window, lies at representable coordinates.
    pub open spec fn admits(self, least_radius: int) -> bool {
        &&& least_radius <= self.spec_max_radius()
        &&& i32::MIN <= self.min_x() - self.spec_max_radius()
        &&& self.max_x() + self.spec_max_radius() <= i32::MAX
        &&& i32::MIN <= self.min_y() - self.spec_max_radius()
        &&& self.max_y() + self.spec_max_radius() <= i32::MAX
    }

    /// The vertical extent of the window.
    pub fn height(&self) -> (h: u32)
        ensures
            h == self.spec_height(),
    {
        if self.top <= self.bottom {
            (self.bottom as i64 - self.top as i64) as u32
        } else {
            (self.top as i64 - self.bottom as i64) as u32
        }
    }

    /// The largest radius of a pad that appears in this window.
    pub fn max_radius(&self) -> (r: u32)
        ensures
            r == self.spec_max_radius(),
    {
        self.height() / 3
    }

    /// The smaller of the two abscissas.
    pub fn x_min(&self) -> (x: i32)
        ensures
            x == self.min_x(),
    {
        if self.left <= self.right {
            self.left
        } else {
            self.right
        }
    }

    /// The larger of the two abscissas.
    pub fn x_max(&self) -> (x: i32)
        ensures
            x == self.max_x(),
    {
        if self.left <= self.right {
            self.right
        } else {
            self.left
        }
    }

    /// The smaller of the two ordinates.
    pub fn y_min(&self) -> (y: i32)
        ensures
            y == self.min_y(),
    {
        if self.top <= self.bottom {
            self.top
        } else {
            self.bottom
        }
    }

    /// The larger of the two ordinates.
    pub fn y_max(&self) -> (y: i32)
        ensures
            y == self.max_y(),
    {
        if self.top <= self.bottom {
            self.bottom
        } else {
            self.top
        }
    }

    /// Whether pads of `least_radius` and more can appear in this window.
    pub fn can_admit(&self, least_radius: u32) -> (b: bool)
        ensures
            b == self.admits(least_radius as int),
    {
        let reach: i64 = self.max_radius() as i64;
        least_radius as i64 <= reach && i32::MIN as i64 <= self.x_min() as i64 - reach
            && self.x_max() as i64 + reach <= i32::MAX as i64 && i32::MIN as i64
            <= self.y_min() as i64 - reach && self.y_max() as i64 + reach <= i32::MAX as i64
    }
}

} // verus!

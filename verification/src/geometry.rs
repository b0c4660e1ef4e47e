//! Geometry primitives: 2D integer vectors, axis-aligned rectangles,
//! and the overlap test the collision engine is built on.

use vstd::prelude::*;

verus! {

use crate::MILLI_PER_PIXEL;
use crate::POSITION_LIMIT;
use crate::STEP_LIMIT;
use vstd::arithmetic::div_mod::lemma_div_multiples_vanish;
use vstd::arithmetic::div_mod::lemma_fundamental_div_mod;
use vstd::arithmetic::div_mod::lemma_mod_bound;

/// A two-component vector. The same shape serves continuous positions
/// (measured in milli-pixels) and speeds (pixels per second).
#[derive(Clone, Copy, Debug, PartialEq, Eq, Structural)]
pub struct Vector2 {
    pub x: i64,
    pub y: i64,
}

/// An axis-aligned rectangle: top-left corner plus a non-negative
/// extent on each axis, in pixels.
#[derive(Clone, Copy, Debug, PartialEq, Eq, Structural)]
pub struct Rect {
    pub x: i64,
    pub y: i64,
    pub width: u32,
    pub height: u32,
}

/// Coordinates small enough that edge arithmetic stays far from the
/// 64-bit limits; every rectangle the engine works with satisfies it.
pub open spec fn coords_bounded(r: Rect) -> bool {
    &&& -POSITION_LIMIT <= r.x <= POSITION_LIMIT
    &&& -POSITION_LIMIT <= r.y <= POSITION_LIMIT
}

/// Truncation of a milli-pixel coordinate to a whole pixel, rounding
/// toward zero (the behaviour of casting a fractional value to an
/// integer coordinate).
pub open spec fn pixel_of(p: int) -> int {
    if p >= 0 {
        p / (MILLI_PER_PIXEL as int)
    } else {
        -((-p) / (MILLI_PER_PIXEL as int))
    }
}

/// The derived screen rectangle tracks a continuous position: each
/// corner coordinate is the position truncated to whole pixels.
pub open spec fn rect_tracks(rect: Rect, position: Vector2) -> bool {
    &&& rect.x == pixel_of(position.x as int)
    &&& rect.y == pixel_of(position.y as int)
}

/// A whole-pixel coordinate survives the round trip through
/// milli-pixels unchanged.
pub proof fn lemma_pixel_of_whole(k: int)
    ensures
        pixel_of(k * MILLI_PER_PIXEL) == k,
{
    if k >= 0 {
        lemma_div_multiples_vanish(k, MILLI_PER_PIXEL as int);
        assert(k * MILLI_PER_PIXEL == (MILLI_PER_PIXEL as int) * k) by (nonlinear_arith);
    } else {
        lemma_div_multiples_vanish(-k, MILLI_PER_PIXEL as int);
        assert(-(k * MILLI_PER_PIXEL) == (MILLI_PER_PIXEL as int) * (-k)) by (nonlinear_arith);
    }
}

/// Where a milli-pixel value lies relative to its truncation: within
/// one pixel on the side of zero, so in particular the truncation is
/// non-negative exactly when the value is above minus one pixel.
pub proof fn lemma_pixel_of_range(p: int)
    ensures
        p >= 0 ==> MILLI_PER_PIXEL * pixel_of(p) <= p < MILLI_PER_PIXEL * (pixel_of(p) + 1),
        p < 0 ==> MILLI_PER_PIXEL * (pixel_of(p) - 1) < p <= MILLI_PER_PIXEL * pixel_of(p),
        pixel_of(p) >= 0 <==> p > -MILLI_PER_PIXEL,
{
    let m = MILLI_PER_PIXEL as int;
    if p >= 0 {
        lemma_fundamental_div_mod(p, m);
        lemma_mod_bound(p, m);
    } else {
        lemma_fundamental_div_mod(-p, m);
        lemma_mod_bound(-p, m);
    }
}

/// A coordinate within the engine's working range truncates to a
/// bounded pixel coordinate.
pub proof fn lemma_pixel_of_bounded(p: int)
    requires
        -(POSITION_LIMIT + STEP_LIMIT) <= p <= POSITION_LIMIT + STEP_LIMIT,
    ensures
        -POSITION_LIMIT <= pixel_of(p) <= POSITION_LIMIT,
{
    lemma_pixel_of_range(p);
}

/// Truncate a milli-pixel coordinate to whole pixels, toward zero.
pub fn to_pixel(p: i64) -> (r: i64)
    requires
        -(POSITION_LIMIT + STEP_LIMIT) <= p <= POSITION_LIMIT + STEP_LIMIT,
    ensures
        r == pixel_of(p as int),
{
    if p >= 0 {
        ((p as u64) / (MILLI_PER_PIXEL as u64)) as i64
    } else {
        let m: u64 = (-p) as u64;
        -((m / (MILLI_PER_PIXEL as u64)) as i64)
    }
}

impl Rect {
    /// The x coordinate of the right edge.
    pub open spec fn spec_right(self) -> int {
        self.x + self.width
    }

    /// The y coordinate of the bottom edge.
    pub open spec fn spec_bottom(self) -> int {
        self.y + self.height
    }

    /// Whether two rectangles' projections overlap on both axes;
    /// touching edges count as overlapping.
    pub open spec fn spec_intersects(self, other: Rect) -> bool {
        &&& self.spec_right() >= other.x
        &&& other.spec_right() >= self.x
        &&& self.spec_bottom() >= other.y
        &&& other.spec_bottom() >= self.y
    }

    /// Build a rectangle from its corner and extent.
    pub fn new(x: i64, y: i64, width: u32, height: u32) -> (r: Rect)
        ensures
            r == (Rect { x, y, width, height }),
    {
        Rect { x, y, width, height }
    }

    /// The x coordinate of the right edge.
    pub fn right(&self) -> (r: i64)
        requires
            coords_bounded(*self),
        ensures
            r == self.spec_right(),
    {
        self.x + self.width as i64
    }

    /// The y coordinate of the bottom edge.
    pub fn bottom(&self) -> (r: i64)
        requires
            coords_bounded(*self),
        ensures
            r == self.spec_bottom(),
    {
        self.y + self.height as i64
    }

    /// Standard axis-aligned overlap test; touching edges count as
    /// intersecting.
    pub fn has_intersection(&self, other: &Rect) -> (r: bool)
        requires
            coords_bounded(*self),
            coords_bounded(*other),
        ensures
            r == self.spec_intersects(*other),
    {
        self.right() >= other.x && other.right() >= self.x && self.bottom() >= other.y
            && other.bottom() >= self.y
    }
}

} // verus!

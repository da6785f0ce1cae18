//! Fixed-point planar geometry: points, displacements and the hit test.

use vstd::prelude::*;
use crate::animation::{
    half_way, lemma_scalar_arrival, lemma_scalar_ends, lemma_scalar_half_way, lerp_scalar, mix_scalar,
    Interpolate, Motion,
};

verus! {

/// One whole unit of any fixed-point quantity: values are counted in thousandths.
pub const UNIT: i32 = 1000;

/// The integer nearest to `value` that an `i32` can hold.
pub open spec fn clamped(value: int) -> int {
    if value < i32::MIN {
        i32::MIN as int
    } else if value > i32::MAX {
        i32::MAX as int
    } else {
        value
    }
}

/// Sum of two coordinates, held at the ends of the coordinate range.
pub fn saturating_sum(a: i32, b: i32) -> (sum: i32)
    ensures
        sum == clamped(a + b),
{
    let wide: i64 = a as i64 + b as i64;
    if wide < i32::MIN as i64 {
        i32::MIN
    } else if wide > i32::MAX as i64 {
        i32::MAX
    } else {
        wide as i32
    }
}

/// A position on the screen.
#[derive(Debug, Clone, Copy, PartialEq, Eq, Structural)]
pub struct Point {
    pub x: i32,
    pub y: i32,
}

/// A displacement or an extent: the difference of two positions.
#[derive(Debug, Clone, Copy, PartialEq, Eq, Structural)]
pub struct Vector {
    pub x: i32,
    pub y: i32,
}

impl Point {
    /// The point with the given coordinates.
    pub fn new(x: i32, y: i32) -> (p: Point)
        ensures
            p == (Point { x, y }),
    {
        Point { x, y }
    }

    /// The point reached by moving `self` by `offset`, each coordinate
    /// held at the ends of the coordinate range.
    pub open spec fn moved(self, offset: Vector) -> Point {
        Point { x: clamped(self.x + offset.x) as i32, y: clamped(self.y + offset.y) as i32 }
    }

    /// Moves the point by `offset`.
    pub fn offset_by(self, offset: Vector) -> (p: Point)
        ensures
            p == self.moved(offset),
    {
        Point { x: saturating_sum(self.x, offset.x), y: saturating_sum(self.y, offset.y) }
    }
}

impl Vector {
    /// The vector with the given components.
    pub fn new(x: i32, y: i32) -> (v: Vector)
        ensures
            v == (Vector { x, y }),
    {
        Vector { x, y }
    }

    /// The sum of two displacements, each component held at the ends of
    /// the coordinate range.
    pub open spec fn grown(self, offset: Vector) -> Vector {
        Vector { x: clamped(self.x + offset.x) as i32, y: clamped(self.y + offset.y) as i32 }
    }

    /// Adds `offset` to the vector.
    pub fn plus(self, offset: Vector) -> (v: Vector)
        ensures
            v == self.grown(offset),
    {
        Vector { x: saturating_sum(self.x, offset.x), y: saturating_sum(self.y, offset.y) }
    }
}

impl Interpolate for Point {
    open spec fn mix(self, target: Self, elapsed: int, duration: int) -> Self {
        Point {
            x: mix_scalar(self.x as int, target.x as int, elapsed, duration) as i32,
            y: mix_scalar(self.y as int, target.y as int, elapsed, duration) as i32,
        }
    }

    proof fn lemma_mix_ends(self, target: Self, elapsed: int, duration: int) {
        lemma_scalar_ends(self.x as int, target.x as int, elapsed, duration);
        lemma_scalar_ends(self.y as int, target.y as int, elapsed, duration);
        lemma_scalar_ends(self.x as int, self.x as int, elapsed, duration);
        lemma_scalar_ends(self.y as int, self.y as int, elapsed, duration);
    }

    proof fn lemma_mix_arrival(self, target: Self, elapsed: int, duration: int) {
        lemma_scalar_arrival(self.x as int, target.x as int, elapsed, duration);
        lemma_scalar_arrival(self.y as int, target.y as int, elapsed, duration);
    }

    fn lerp(self, target: Self, elapsed: i64, duration: i64) -> (value: Self) {
        Point {
            x: lerp_scalar(self.x, target.x, elapsed, duration),
            y: lerp_scalar(self.y, target.y, elapsed, duration),
        }
    }

    fn same(self, other: Self) -> (equal: bool) {
        self == other
    }
}

impl Interpolate for Vector {
    open spec fn mix(self, target: Self, elapsed: int, duration: int) -> Self {
        Vector {
            x: mix_scalar(self.x as int, target.x as int, elapsed, duration) as i32,
            y: mix_scalar(self.y as int, target.y as int, elapsed, duration) as i32,
        }
    }

    proof fn lemma_mix_ends(self, target: Self, elapsed: int, duration: int) {
        lemma_scalar_ends(self.x as int, target.x as int, elapsed, duration);
        lemma_scalar_ends(self.y as int, target.y as int, elapsed, duration);
        lemma_scalar_ends(self.x as int, self.x as int, elapsed, duration);
        lemma_scalar_ends(self.y as int, self.y as int, elapsed, duration);
    }

    proof fn lemma_mix_arrival(self, target: Self, elapsed: int, duration: int) {
        lemma_scalar_arrival(self.x as int, target.x as int, elapsed, duration);
        lemma_scalar_arrival(self.y as int, target.y as int, elapsed, duration);
    }

    fn lerp(self, target: Self, elapsed: i64, duration: i64) -> (value: Self) {
        Vector {
            x: lerp_scalar(self.x, target.x, elapsed, duration),
            y: lerp_scalar(self.y, target.y, elapsed, duration),
        }
    }

    fn same(self, other: Self) -> (equal: bool) {
        self == other
    }
}

/// After a target is assigned and half of an even duration passes, a
/// point stands half-way between where it stood and its target, in each
/// coordinate.
pub proof fn lemma_half_duration_point(motion: Motion<Point>, target: Point)
    requires
        motion.wf(),
        0 < motion.duration,
        motion.duration % 2 == 0,
    ensures
        motion.retarget(target).advance(motion.duration / 2).current == (Point {
            x: half_way(motion.current.x as int, target.x as int) as i32,
            y: half_way(motion.current.y as int, target.y as int) as i32,
        }),
{
    motion.lemma_half_duration(target);
    lemma_scalar_half_way(motion.current.x as int, target.x as int, motion.duration / 2);
    lemma_scalar_half_way(motion.current.y as int, target.y as int, motion.duration / 2);
}

/// After a target is assigned and half of an even duration passes, a
/// vector stands half-way between where it stood and its target, in each
/// component.
pub proof fn lemma_half_duration_vector(motion: Motion<Vector>, target: Vector)
    requires
        motion.wf(),
        0 < motion.duration,
        motion.duration % 2 == 0,
    ensures
        motion.retarget(target).advance(motion.duration / 2).current == (Vector {
            x: half_way(motion.current.x as int, target.x as int) as i32,
            y: half_way(motion.current.y as int, target.y as int) as i32,
        }),
{
    motion.lemma_half_duration(target);
    lemma_scalar_half_way(motion.current.x as int, target.x as int, motion.duration / 2);
    lemma_scalar_half_way(motion.current.y as int, target.y as int, motion.duration / 2);
}

/// Whether `cursor` lies in the rectangle that starts at `position` and
/// extends by `size`. All four edges belong to the rectangle.
pub open spec fn inside(position: Point, size: Vector, cursor: Point) -> bool {
    &&& position.x <= cursor.x <= position.x + size.x
    &&& position.y <= cursor.y <= position.y + size.y
}

/// Boundary-inclusive point-in-rectangle test.
pub fn hit_test(position: Point, size: Vector, cursor: Point) -> (hit: bool)
    ensures
        hit == inside(position, size, cursor),
{
    let right: i64 = position.x as i64 + size.x as i64;
    let down: i64 = position.y as i64 + size.y as i64;
    position.x <= cursor.x && cursor.x as i64 <= right && position.y <= cursor.y && cursor.y as i64
        <= down
}

/// Whether `cursor` lies on one of the four edges of the rectangle that
/// starts at `position` and extends by `size`, corners included.
pub open spec fn on_edge(position: Point, size: Vector, cursor: Point) -> bool {
    ||| {
        &&& cursor.x == position.x || cursor.x == position.x + size.x
        &&& position.y <= cursor.y <= position.y + size.y
    }
    ||| {
        &&& cursor.y == position.y || cursor.y == position.y + size.y
        &&& position.x <= cursor.x <= position.x + size.x
    }
}

/// A cursor on any edge of a rectangle counts as inside it.
pub proof fn lemma_edges_are_inside(position: Point, size: Vector, cursor: Point)
    requires
        size.x >= 0,
        size.y >= 0,
        on_edge(position, size, cursor),
    ensures
        inside(position, size, cursor),
{
}

} // verus!

//! The rectangle that agents are steered to stay in, and the force that does it.

use vstd::prelude::*;
use crate::components::{positions, velocities, CollisionVector, Pos, Vel};
use crate::parallel::par_map;
use crate::vector::{all_bounded, bounded, div_trunc, minus, plus, Vec2, COORD_MAX};

verus! {

/// Largest magnitude of a collision-avoidance component.
pub const COLLISION_MAX: i64 = 0x2_0000_0000;

/// An axis-aligned rectangle.
#[derive(Clone, Copy, Debug, PartialEq, Eq, Structural)]
pub struct CollisionBounds {
    pub x_min: i64,
    pub x_max: i64,
    pub y_min: i64,
    pub y_max: i64,
    pub threshold: i64,
}

impl Default for CollisionBounds {
    fn default() -> (r: CollisionBounds)
        ensures
            r.x_min == 0 && r.x_max == 0 && r.y_min == 0 && r.y_max == 0 && r.threshold == 0,
    {
        CollisionBounds { x_min: 0, x_max: 0, y_min: 0, y_max: 0, threshold: 0 }
    }
}

/// `c` moved onto the edge `lo` when at or below it, onto `hi` when at or above
/// it, and left as it is strictly between.
pub open spec fn clamp_outside(c: int, lo: int, hi: int) -> int {
    if c <= lo {
        lo
    } else if c >= hi {
        hi
    } else {
        c
    }
}

/// The point of the boundary nearest to `p`, axis by axis, for a point on or
/// outside an edge; `p` itself strictly inside.
pub open spec fn boxpoint_of(b: CollisionBounds, p: (int, int)) -> (int, int) {
    (clamp_outside(p.0, b.x_min as int, b.x_max as int), clamp_outside(p.1, b.y_min as int, b.y_max as int))
}

/// Collision-avoidance force of an agent at `p` moving by `v`: from the
/// predicted position `p + v` to the nearest point of the boundary when that
/// position is on or outside an edge; zero when it is strictly inside.
pub open spec fn collision_of(b: CollisionBounds, p: (int, int), v: (int, int)) -> (int, int) {
    let predicted = plus(p, v);
    minus(boxpoint_of(b, predicted), predicted)
}

impl CollisionBounds {
    /// Every edge lies within the coordinate range.
    pub open spec fn in_range(self) -> bool {
        &&& -COORD_MAX <= self.x_min <= COORD_MAX
        &&& -COORD_MAX <= self.x_max <= COORD_MAX
        &&& -COORD_MAX <= self.y_min <= COORD_MAX
        &&& -COORD_MAX <= self.y_max <= COORD_MAX
    }

    /// Whether every edge lies within the coordinate range.
    pub fn is_in_range(&self) -> (r: bool)
        ensures
            r == self.in_range(),
    {
        -COORD_MAX <= self.x_min && self.x_min <= COORD_MAX && -COORD_MAX <= self.x_max
            && self.x_max <= COORD_MAX && -COORD_MAX <= self.y_min && self.y_min <= COORD_MAX
            && -COORD_MAX <= self.y_max && self.y_max <= COORD_MAX
    }

    /// A `width` by `height` rectangle centred on `origin`.
    pub fn new_rect_origin(width: i64, height: i64, origin: (i64, i64), threshold: i64) -> (r:
        CollisionBounds)
        requires
            -2 * COORD_MAX <= width <= 2 * COORD_MAX,
            -2 * COORD_MAX <= height <= 2 * COORD_MAX,
            -COORD_MAX <= origin.0 <= COORD_MAX,
            -COORD_MAX <= origin.1 <= COORD_MAX,
        ensures
            r.x_min == origin.0 - div_trunc(width as int, 2),
            r.x_max == origin.0 + div_trunc(width as int, 2),
            r.y_min == origin.1 - div_trunc(height as int, 2),
            r.y_max == origin.1 + div_trunc(height as int, 2),
            r.threshold == threshold,
    {
        CollisionBounds {
            x_min: origin.0 - width / 2,
            x_max: origin.0 + width / 2,
            y_min: origin.1 - height / 2,
            y_max: origin.1 + height / 2,
            threshold,
        }
    }

    /// A `width` by `height` rectangle centred on the origin.
    pub fn new_rect(width: i64, height: i64, threshold: i64) -> (r: CollisionBounds)
        requires
            -2 * COORD_MAX <= width <= 2 * COORD_MAX,
            -2 * COORD_MAX <= height <= 2 * COORD_MAX,
        ensures
            r.x_min == -div_trunc(width as int, 2),
            r.x_max == div_trunc(width as int, 2),
            r.y_min == -div_trunc(height as int, 2),
            r.y_max == div_trunc(height as int, 2),
            r.threshold == threshold,
    {
        Self::new_rect_origin(width, height, (0, 0), threshold)
    }

    /// The nearest boundary point to `pos` when `pos` is on or outside an edge
    /// and that point differs from it; `None` otherwise.
    pub fn closest_boxpoint(&self, pos: &Vec2) -> (r: Option<Vec2>)
        ensures
            match r {
                Some(q) => q@ == boxpoint_of(*self, pos@) && q@ != pos@,
                None => boxpoint_of(*self, pos@) == pos@,
            },
    {
        let mut boxpoint = *pos;
        if pos.x <= self.x_min {
            boxpoint.x = self.x_min;
        } else if pos.x >= self.x_max {
            boxpoint.x = self.x_max;
        }
        if pos.y <= self.y_min {
            boxpoint.y = self.y_min;
        } else if pos.y >= self.y_max {
            boxpoint.y = self.y_max;
        }
        if boxpoint != *pos {
            Some(boxpoint)
        } else {
            None
        }
    }

    /// The collision-avoidance force of an agent at `pos` moving by `vel`.
    pub fn compute_collision_vector(&self, pos: &Pos, vel: &Vel) -> (r: Vec2)
        requires
            self.in_range(),
            bounded(pos.0@, COORD_MAX as int),
            bounded(vel.0@, COORD_MAX as int),
        ensures
            r@ == collision_of(*self, pos.0@, vel.0@),
            bounded(r@, COLLISION_MAX as int),
    {
        let predicted = Vec2::new(pos.0.x + vel.0.x, pos.0.y + vel.0.y);
        match self.closest_boxpoint(&predicted) {
            Some(boxpoint) => Vec2::new(boxpoint.x - predicted.x, boxpoint.y - predicted.y),
            None => Vec2::zeros(),
        }
    }
}

/// Steers agents back towards the inside of the collision bounds.
pub struct CollisionAvoidance;

impl CollisionAvoidance {
    /// Writes every agent's collision-avoidance force, agents spread over threads.
    pub fn run(
        &self,
        posdata: &Vec<Pos>,
        veldata: &Vec<Vel>,
        collisiondata: &mut Vec<CollisionVector>,
        bounds: &CollisionBounds,
    )
        requires
            posdata.len() == veldata.len(),
            bounds.in_range(),
            all_bounded(positions(posdata@)),
            all_bounded(velocities(veldata@)),
        ensures
            final(collisiondata).len() == posdata.len(),
            forall|i: int|
                0 <= i < posdata.len() ==> (#[trigger] final(collisiondata)[i]).0@ == collision_of(
                    *bounds,
                    posdata[i].0@,
                    veldata[i].0@,
                ),
            forall|i: int|
                0 <= i < posdata.len() ==> bounded(
                    (#[trigger] final(collisiondata)[i]).0@,
                    COLLISION_MAX as int,
                ),
    {
        let n = posdata.len();
        let avoid = |i: usize| -> (r: CollisionVector)
            requires
                i < n,
            ensures
                r.0@ == collision_of(*bounds, posdata[i as int].0@, veldata[i as int].0@),
                bounded(r.0@, COLLISION_MAX as int),
            {
                proof {
                    assert(positions(posdata@)[i as int] == posdata[i as int].0@);
                    assert(velocities(veldata@)[i as int] == veldata[i as int].0@);
                }
                CollisionVector(bounds.compute_collision_vector(&posdata[i], &veldata[i]))
            };
        *collisiondata = par_map(n, avoid);
    }
}

/// Strictly inside the rectangle the collision force is zero. Beyond an edge
/// it is non-zero and points back inside along that axis; on or between the
/// edges of an axis it has no component along it.
pub proof fn lemma_collision_points_inward(b: CollisionBounds, p: (int, int), v: (int, int))
    requires
        b.x_min <= b.x_max,
        b.y_min <= b.y_max,
    ensures
        ({
            let q = plus(p, v);
            let f = collision_of(b, p, v);
            &&& (b.x_min < q.0 < b.x_max && b.y_min < q.1 < b.y_max) ==> f == (0int, 0int)
            &&& q.0 < b.x_min ==> f.0 > 0
            &&& q.0 > b.x_max ==> f.0 < 0
            &&& b.x_min <= q.0 <= b.x_max ==> f.0 == 0
            &&& q.1 < b.y_min ==> f.1 > 0
            &&& q.1 > b.y_max ==> f.1 < 0
            &&& b.y_min <= q.1 <= b.y_max ==> f.1 == 0
            &&& (q.0 < b.x_min || q.0 > b.x_max || q.1 < b.y_min || q.1 > b.y_max) ==> f != (
                0int,
                0int,
            )
        }),
{
}

} // verus!

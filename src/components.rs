//! Per-agent attributes and the shared settings that the systems read.

use vstd::prelude::*;
use crate::vector::{Vec2, UNIT};

verus! {

/// Where an agent is.
#[derive(Clone, Copy, Debug, PartialEq, Eq, Structural)]
pub struct Pos(pub Vec2);

/// How an agent moves per unit of time; it also gives the agent's heading.
#[derive(Clone, Copy, Debug, PartialEq, Eq, Structural)]
pub struct Vel(pub Vec2);

/// Indices of an agent's neighbours, in the order they were found.
#[derive(Debug)]
pub struct Closest(pub Vec<usize>);

/// Push away from neighbours that are too close.
#[derive(Clone, Copy, Debug, PartialEq, Eq, Structural)]
pub struct SeparationVector(pub Vec2);

/// Pull towards the centre of the neighbours.
#[derive(Clone, Copy, Debug, PartialEq, Eq, Structural)]
pub struct CohesionVector(pub Vec2);

/// Turn towards the neighbours' mean heading.
#[derive(Clone, Copy, Debug, PartialEq, Eq, Structural)]
pub struct AlignmentVector(pub Vec2);

/// Steer back inside the collision bounds.
#[derive(Clone, Copy, Debug, PartialEq, Eq, Structural)]
pub struct CollisionVector(pub Vec2);

/// Radius within which another agent counts as a neighbour.
#[derive(Clone, Copy, Debug, PartialEq, Eq, Structural)]
pub struct ClosenessThreshold(pub i64);

impl Default for ClosenessThreshold {
    fn default() -> (r: ClosenessThreshold)
        ensures
            r.0 == 10 * UNIT,
    {
        ClosenessThreshold(10 * UNIT)
    }
}

/// Radius within which a neighbour pushes an agent away.
#[derive(Clone, Copy, Debug, PartialEq, Eq, Structural)]
pub struct SeparationDistance(pub i64);

impl Default for SeparationDistance {
    fn default() -> (r: SeparationDistance)
        ensures
            r.0 == 0,
    {
        SeparationDistance(0)
    }
}

/// Mean position of the whole flock.
#[derive(Clone, Copy, Debug, PartialEq, Eq, Structural)]
pub struct CentreOfFlockValue(pub Vec2);

/// Largest magnitude of a force weight.
pub const WEIGHT_MAX: i64 = 0x10_0000;

/// Weights of the four steering forces, in `1 / UNIT` steps.
#[derive(Clone, Copy, Debug, PartialEq, Eq, Structural)]
pub struct ForceWeights {
    pub separation: i64,
    pub cohesion: i64,
    pub alignment: i64,
    pub collision: i64,
}

impl ForceWeights {
    pub open spec fn in_range(self) -> bool {
        &&& -WEIGHT_MAX <= self.separation <= WEIGHT_MAX
        &&& -WEIGHT_MAX <= self.cohesion <= WEIGHT_MAX
        &&& -WEIGHT_MAX <= self.alignment <= WEIGHT_MAX
        &&& -WEIGHT_MAX <= self.collision <= WEIGHT_MAX
    }

    /// Whether every weight lies within `[-WEIGHT_MAX, WEIGHT_MAX]`.
    pub fn is_in_range(&self) -> (r: bool)
        ensures
            r == self.in_range(),
    {
        -WEIGHT_MAX <= self.separation && self.separation <= WEIGHT_MAX && -WEIGHT_MAX
            <= self.cohesion && self.cohesion <= WEIGHT_MAX && -WEIGHT_MAX <= self.alignment
            && self.alignment <= WEIGHT_MAX && -WEIGHT_MAX <= self.collision && self.collision
            <= WEIGHT_MAX
    }

    /// All four weights zero: no force acts.
    pub fn zero() -> (r: ForceWeights)
        ensures
            r.separation == 0 && r.cohesion == 0 && r.alignment == 0 && r.collision == 0,
    {
        ForceWeights { separation: 0, cohesion: 0, alignment: 0, collision: 0 }
    }
}

impl Default for ForceWeights {
    /// Separation 1, cohesion 0.025, alignment 0.5, collision 1.
    fn default() -> (r: ForceWeights)
        ensures
            r.separation == UNIT,
            r.cohesion == 1638,
            r.alignment == UNIT / 2,
            r.collision == UNIT,
    {
        ForceWeights { separation: UNIT, cohesion: 1638, alignment: UNIT / 2, collision: UNIT }
    }
}

/// Number of ticks in one unit of time: a tick lasts `1 / rate`.
#[derive(Clone, Copy, Debug, PartialEq, Eq, Structural)]
pub struct TickRate(pub i64);

impl Default for TickRate {
    fn default() -> (r: TickRate)
        ensures
            r.0 == 60,
    {
        TickRate(60)
    }
}

/// The points held by a sequence of positions.
pub open spec fn positions(s: Seq<Pos>) -> Seq<(int, int)> {
    s.map_values(|p: Pos| p.0@)
}

/// The vectors held by a sequence of velocities.
pub open spec fn velocities(s: Seq<Vel>) -> Seq<(int, int)> {
    s.map_values(|v: Vel| v.0@)
}

} // verus!

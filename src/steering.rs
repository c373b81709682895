//! The three steering forces that an agent takes from its neighbours.

use vstd::prelude::*;
use crate::components::{
    positions, velocities, AlignmentVector, Closest, CohesionVector, Pos, SeparationDistance,
    SeparationVector, Vel,
};
use crate::neighbors::{is_within, valid_neighbors};
use crate::vector::{
    all_bounded, bounded, mean, mean_point, minus, normalize, plus, unit_of, views, within, Vec2,
    COORD_MAX, UNIT,
};

verus! {

/// Largest magnitude of a separation component: one push of at most
/// `2 · COORD_MAX` from each of `MAX_NEIGHBORS` neighbours.
pub const SEPARATION_MAX: i64 = 0x8_0000_0000;

/// The points of `ps` at the indices `ns`, in order.
pub open spec fn pick(ps: Seq<(int, int)>, ns: Seq<usize>) -> Seq<(int, int)> {
    ns.map_values(|j: usize| ps[j as int])
}

/// Sum, over the neighbours `ns` at most `distance` away from `me`, of the
/// vector from the neighbour to `me`.
pub open spec fn separation_sum(
    ps: Seq<(int, int)>,
    ns: Seq<usize>,
    me: (int, int),
    distance: int,
) -> (int, int)
    decreases ns.len(),
{
    if ns.len() == 0 {
        (0, 0)
    } else {
        let rest = separation_sum(ps, ns.drop_last(), me, distance);
        let p = ps[ns.last() as int];
        if within(p, me, distance) {
            plus(rest, minus(me, p))
        } else {
            rest
        }
    }
}

/// Separation force of agent `i` with neighbours `ns`: pushes away from each
/// neighbour within `distance`, summed, not averaged.
pub open spec fn separation_of(ps: Seq<(int, int)>, ns: Seq<usize>, i: int, distance: int) -> (
    int,
    int,
) {
    separation_sum(ps, ns, ps[i], distance)
}

/// Cohesion force of agent `i` with neighbours `ns`: the unit vector from the
/// agent towards the centroid of its neighbours; zero without neighbours.
pub open spec fn cohesion_of(ps: Seq<(int, int)>, ns: Seq<usize>, i: int) -> (int, int) {
    if ns.len() == 0 {
        (0, 0)
    } else {
        unit_of(minus(mean_point(pick(ps, ns)), ps[i]))
    }
}

/// Alignment force of agent `i` with neighbours `ns`: the neighbours' mean
/// velocity less the agent's own; zero without neighbours.
pub open spec fn alignment_of(vs: Seq<(int, int)>, ns: Seq<usize>, i: int) -> (int, int) {
    if ns.len() == 0 {
        (0, 0)
    } else {
        minus(mean_point(pick(vs, ns)), vs[i])
    }
}

/// The neighbour lists of a store of `n` agents are valid.
pub open spec fn valid_lists(closedata: Seq<Closest>, n: int) -> bool {
    &&& closedata.len() == n
    &&& forall|i: int| 0 <= i < n ==> valid_neighbors(#[trigger] closedata[i].0@, i, n)
}

/// The positions of the agents at the indices `ns`, in order.
fn picked_positions(posdata: &Vec<Pos>, ns: &Vec<usize>) -> (r: Vec<Vec2>)
    requires
        forall|k: int| 0 <= k < ns.len() ==> #[trigger] ns[k] < posdata.len(),
        all_bounded(positions(posdata@)),
    ensures
        views(r@) == pick(positions(posdata@), ns@),
        all_bounded(views(r@)),
{
    let mut r: Vec<Vec2> = Vec::new();
    for k in 0..ns.len()
        invariant
            forall|j: int| 0 <= j < ns.len() ==> #[trigger] ns[j] < posdata.len(),
            r.len() == k,
            views(r@) =~= pick(positions(posdata@), ns@).take(k as int),
    {
        r.push(posdata[ns[k]].0);
        assert(views(r@) =~= pick(positions(posdata@), ns@).take(k + 1));
    }
    assert(views(r@) =~= pick(positions(posdata@), ns@));
    assert forall|k: int| 0 <= k < r.len() implies bounded(#[trigger] views(r@)[k], COORD_MAX as int) by {
        assert(views(r@)[k] == positions(posdata@)[ns[k] as int]);
    }
    r
}

/// The velocities of the agents at the indices `ns`, in order.
fn picked_velocities(veldata: &Vec<Vel>, ns: &Vec<usize>) -> (r: Vec<Vec2>)
    requires
        forall|k: int| 0 <= k < ns.len() ==> #[trigger] ns[k] < veldata.len(),
        all_bounded(velocities(veldata@)),
    ensures
        views(r@) == pick(velocities(veldata@), ns@),
        all_bounded(views(r@)),
{
    let mut r: Vec<Vec2> = Vec::new();
    for k in 0..ns.len()
        invariant
            forall|j: int| 0 <= j < ns.len() ==> #[trigger] ns[j] < veldata.len(),
            r.len() == k,
            views(r@) =~= pick(velocities(veldata@), ns@).take(k as int),
    {
        r.push(veldata[ns[k]].0);
        assert(views(r@) =~= pick(velocities(veldata@), ns@).take(k + 1));
    }
    assert(views(r@) =~= pick(velocities(veldata@), ns@));
    assert forall|k: int| 0 <= k < r.len() implies bounded(#[trigger] views(r@)[k], COORD_MAX as int) by {
        assert(views(r@)[k] == velocities(veldata@)[ns[k] as int]);
    }
    r
}

/// Pushes agents apart from the neighbours that come within the separation distance.
pub struct Separation;

impl Separation {
    /// The separation force of agent `i`.
    pub fn separation_for(posdata: &Vec<Pos>, ns: &Vec<usize>, i: usize, distance: i64) -> (r: Vec2)
        requires
            i < posdata.len(),
            valid_neighbors(ns@, i as int, posdata.len() as int),
            all_bounded(positions(posdata@)),
        ensures
            r@ == separation_of(positions(posdata@), ns@, i as int, distance as int),
            bounded(r@, SEPARATION_MAX as int),
    {
        let ghost ps = positions(posdata@);
        let me = posdata[i];
        let mut sx: i64 = 0;
        let mut sy: i64 = 0;
        let mut k: usize = 0;
        while k < ns.len()
            invariant
                i < posdata.len(),
                k <= ns.len(),
                me == posdata[i as int],
                ps == positions(posdata@),
                valid_neighbors(ns@, i as int, posdata.len() as int),
                all_bounded(ps),
                (sx as int, sy as int) == separation_sum(ps, ns@.take(k as int), me.0@, distance as int),
                bounded((sx as int, sy as int), k * 2 * COORD_MAX),
            decreases ns.len() - k,
        {
            let j = ns[k];
            proof {
                assert(ns@.take(k + 1).drop_last() =~= ns@.take(k as int));
                assert(ps[j as int] == posdata[j as int].0@);
                assert(ps[i as int] == posdata[i as int].0@);
                assert((k + 1) * 2 * COORD_MAX == k * 2 * COORD_MAX + 2 * COORD_MAX) by (nonlinear_arith);
            }
            if is_within(&posdata[j], &me, distance) {
                sx = sx + (me.0.x - posdata[j].0.x);
                sy = sy + (me.0.y - posdata[j].0.y);
            }
            k = k + 1;
        }
        proof {
            assert(ns@.take(ns.len() as int) =~= ns@);
        }
        Vec2::new(sx, sy)
    }

    /// Writes every agent's separation force.
    pub fn run(
        &self,
        septhresh: &SeparationDistance,
        closedata: &Vec<Closest>,
        posdata: &Vec<Pos>,
        sepdata: &mut Vec<SeparationVector>,
    )
        requires
            valid_lists(closedata@, posdata.len() as int),
            all_bounded(positions(posdata@)),
        ensures
            final(sepdata).len() == posdata.len(),
            forall|i: int|
                0 <= i < posdata.len() ==> (#[trigger] final(sepdata)[i]).0@ == separation_of(
                    positions(posdata@),
                    closedata[i].0@,
                    i,
                    septhresh.0 as int,
                ),
            forall|i: int|
                0 <= i < posdata.len() ==> bounded(
                    (#[trigger] final(sepdata)[i]).0@,
                    SEPARATION_MAX as int,
                ),
    {
        let n = posdata.len();
        let mut out: Vec<SeparationVector> = Vec::new();
        for i in 0..n
            invariant
                n == posdata.len(),
                out.len() == i,
                valid_lists(closedata@, posdata.len() as int),
                all_bounded(positions(posdata@)),
                forall|k: int|
                    0 <= k < i ==> (#[trigger] out[k]).0@ == separation_of(
                        positions(posdata@),
                        closedata[k].0@,
                        k,
                        septhresh.0 as int,
                    ) && bounded(out[k].0@, SEPARATION_MAX as int),
        {
            proof {
                assert(valid_neighbors(closedata[i as int].0@, i as int, n as int));
            }
            out.push(SeparationVector(Self::separation_for(posdata, &closedata[i].0, i, septhresh.0)));
        }
        *sepdata = out;
    }
}

} // verus!

verus! {

/// Pulls agents towards the centre of their neighbours.
pub struct Cohesion;

impl Cohesion {
    /// The cohesion force of agent `i`.
    pub fn cohesion_for(posdata: &Vec<Pos>, ns: &Vec<usize>, i: usize) -> (r: Vec2)
        requires
            i < posdata.len(),
            valid_neighbors(ns@, i as int, posdata.len() as int),
            all_bounded(positions(posdata@)),
        ensures
            r@ == cohesion_of(positions(posdata@), ns@, i as int),
            bounded(r@, UNIT as int),
    {
        if ns.len() == 0 {
            return Vec2::zeros();
        }
        let centre = mean(&picked_positions(posdata, ns));
        let me = posdata[i].0;
        proof {
            assert(positions(posdata@)[i as int] == me@);
        }
        normalize(Vec2::new(centre.x - me.x, centre.y - me.y))
    }

    /// Writes every agent's cohesion force.
    pub fn run(&self, closedata: &Vec<Closest>, posdata: &Vec<Pos>, cohdata: &mut Vec<CohesionVector>)
        requires
            valid_lists(closedata@, posdata.len() as int),
            all_bounded(positions(posdata@)),
        ensures
            final(cohdata).len() == posdata.len(),
            forall|i: int|
                0 <= i < posdata.len() ==> (#[trigger] final(cohdata)[i]).0@ == cohesion_of(
                    positions(posdata@),
                    closedata[i].0@,
                    i,
                ),
            forall|i: int|
                0 <= i < posdata.len() ==> bounded((#[trigger] final(cohdata)[i]).0@, UNIT as int),
    {
        let n = posdata.len();
        let mut out: Vec<CohesionVector> = Vec::new();
        for i in 0..n
            invariant
                n == posdata.len(),
                out.len() == i,
                valid_lists(closedata@, posdata.len() as int),
                all_bounded(positions(posdata@)),
                forall|k: int|
                    0 <= k < i ==> (#[trigger] out[k]).0@ == cohesion_of(
                        positions(posdata@),
                        closedata[k].0@,
                        k,
                    ) && bounded(out[k].0@, UNIT as int),
        {
            proof {
                assert(valid_neighbors(closedata[i as int].0@, i as int, n as int));
            }
            out.push(CohesionVector(Self::cohesion_for(posdata, &closedata[i].0, i)));
        }
        *cohdata = out;
    }
}

/// Turns agents towards the mean heading of their neighbours.
pub struct Alignment;

impl Alignment {
    /// The alignment force of agent `i`.
    pub fn alignment_for(veldata: &Vec<Vel>, ns: &Vec<usize>, i: usize) -> (r: Vec2)
        requires
            i < veldata.len(),
            valid_neighbors(ns@, i as int, veldata.len() as int),
            all_bounded(velocities(veldata@)),
        ensures
            r@ == alignment_of(velocities(veldata@), ns@, i as int),
            bounded(r@, 2 * COORD_MAX),
    {
        if ns.len() == 0 {
            return Vec2::zeros();
        }
        let heading = mean(&picked_velocities(veldata, ns));
        let me = veldata[i].0;
        proof {
            assert(velocities(veldata@)[i as int] == me@);
        }
        Vec2::new(heading.x - me.x, heading.y - me.y)
    }

    /// Writes every agent's alignment force.
    pub fn run(&self, closedata: &Vec<Closest>, veldata: &Vec<Vel>, alidata: &mut Vec<AlignmentVector>)
        requires
            valid_lists(closedata@, veldata.len() as int),
            all_bounded(velocities(veldata@)),
        ensures
            final(alidata).len() == veldata.len(),
            forall|i: int|
                0 <= i < veldata.len() ==> (#[trigger] final(alidata)[i]).0@ == alignment_of(
                    velocities(veldata@),
                    closedata[i].0@,
                    i,
                ),
            forall|i: int|
                0 <= i < veldata.len() ==> bounded(
                    (#[trigger] final(alidata)[i]).0@,
                    2 * COORD_MAX,
                ),
    {
        let n = veldata.len();
        let mut out: Vec<AlignmentVector> = Vec::new();
        for i in 0..n
            invariant
                n == veldata.len(),
                out.len() == i,
                valid_lists(closedata@, veldata.len() as int),
                all_bounded(velocities(veldata@)),
                forall|k: int|
                    0 <= k < i ==> (#[trigger] out[k]).0@ == alignment_of(
                        velocities(veldata@),
                        closedata[k].0@,
                        k,
                    ) && bounded(out[k].0@, 2 * COORD_MAX),
        {
            proof {
                assert(valid_neighbors(closedata[i as int].0@, i as int, n as int));
            }
            out.push(AlignmentVector(Self::alignment_for(veldata, &closedata[i].0, i)));
        }
        *alidata = out;
    }
}

} // verus!

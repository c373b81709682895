//! Turning agents by the sum of their forces, and moving them one tick ahead.

use vstd::prelude::*;
use crate::bounds::COLLISION_MAX;
use crate::components::{
    positions, velocities, AlignmentVector, CohesionVector, CollisionVector, ForceWeights, Pos,
    SeparationVector, TickRate, Vel,
};
use crate::parallel::par_map;
use crate::steering::SEPARATION_MAX;
use crate::vector::{
    all_bounded, bounded, div_trunc, normalize, plus, unit_of, Vec2, COORD_MAX, UNIT,
};

verus! {

/// `f · w / UNIT`, each component rounded towards zero: force `f` under weight
/// `w` given in `1 / UNIT` steps.
pub open spec fn weighted(f: (int, int), w: int) -> (int, int) {
    (div_trunc(f.0 * w, UNIT as int), div_trunc(f.1 * w, UNIT as int))
}

/// The velocity with the four weighted forces added, before it is normalised.
pub open spec fn composed(
    v: (int, int),
    sep: (int, int),
    coh: (int, int),
    ali: (int, int),
    col: (int, int),
    w: ForceWeights,
) -> (int, int) {
    plus(
        plus(
            plus(plus(v, weighted(sep, w.separation as int)), weighted(coh, w.cohesion as int)),
            weighted(ali, w.alignment as int),
        ),
        weighted(col, w.collision as int),
    )
}

/// The new velocity: the composed vector turned to length `UNIT`, or the old
/// velocity unchanged when the composed vector is zero.
pub open spec fn adjusted(
    v: (int, int),
    sep: (int, int),
    coh: (int, int),
    ali: (int, int),
    col: (int, int),
    w: ForceWeights,
) -> (int, int) {
    let c = composed(v, sep, coh, ali, col, w);
    if c == (0int, 0int) {
        v
    } else {
        unit_of(c)
    }
}

/// Position `p` after a tick of `1 / rate` at velocity `v`.
pub open spec fn moved(p: (int, int), v: (int, int), rate: int) -> (int, int) {
    (p.0 + div_trunc(v.0, rate), p.1 + div_trunc(v.1, rate))
}

/// Force `f` under weight `w`.
fn weigh(f: Vec2, w: i64, bound: i64) -> (r: Vec2)
    requires
        0 <= bound <= SEPARATION_MAX,
        bounded(f@, bound as int),
        -0x10_0000 <= w <= 0x10_0000,
    ensures
        r@ == weighted(f@, w as int),
        bounded(r@, bound * 16),
{
    assert(-(bound * 0x10_0000) <= f.x * w <= bound * 0x10_0000 && -(bound * 0x10_0000) <= f.y * w
        <= bound * 0x10_0000) by (nonlinear_arith)
        requires
            -bound <= f.x <= bound,
            -bound <= f.y <= bound,
            -0x10_0000 <= w <= 0x10_0000,
    ;
    assert(bound * 0x10_0000 <= 0x8_0000_0000 * 0x10_0000) by (nonlinear_arith)
        requires
            bound <= 0x8_0000_0000,
    ;
    let x = f.x * w;
    let y = f.y * w;
    proof {
        crate::vector::lemma_div_trunc_bounded(x as int, UNIT as int, bound * 16);
        crate::vector::lemma_div_trunc_bounded(y as int, UNIT as int, bound * 16);
    }
    Vec2::new(x / UNIT, y / UNIT)
}

/// Combines the four steering forces into each agent's velocity.
pub struct ApplyAdjustments;

impl ApplyAdjustments {
    /// The new velocity of an agent with velocity `v` and the given forces.
    pub fn adjust(
        v: Vec2,
        sep: Vec2,
        coh: Vec2,
        ali: Vec2,
        col: Vec2,
        weights: &ForceWeights,
    ) -> (r: Vec2)
        requires
            bounded(v@, COORD_MAX as int),
            bounded(sep@, SEPARATION_MAX as int),
            bounded(coh@, UNIT as int),
            bounded(ali@, 2 * COORD_MAX),
            bounded(col@, COLLISION_MAX as int),
            weights.in_range(),
        ensures
            r@ == adjusted(v@, sep@, coh@, ali@, col@, *weights),
            bounded(r@, COORD_MAX as int),
    {
        let s = weigh(sep, weights.separation, SEPARATION_MAX);
        let c = weigh(coh, weights.cohesion, UNIT);
        let a = weigh(ali, weights.alignment, 2 * COORD_MAX);
        let k = weigh(col, weights.collision, COLLISION_MAX);
        let sum = Vec2::new(v.x + s.x + c.x + a.x + k.x, v.y + s.y + c.y + a.y + k.y);
        assert(sum@ == composed(v@, sep@, coh@, ali@, col@, *weights));
        if sum.x == 0 && sum.y == 0 {
            v
        } else {
            normalize(sum)
        }
    }

    /// Turns every agent towards the weighted sum of its forces, agents spread
    /// over threads.
    pub fn run(
        &self,
        veldata: &mut Vec<Vel>,
        sepdata: &Vec<SeparationVector>,
        cohdata: &Vec<CohesionVector>,
        alidata: &Vec<AlignmentVector>,
        collidedata: &Vec<CollisionVector>,
        weights: &ForceWeights,
    )
        requires
            sepdata.len() == old(veldata).len(),
            cohdata.len() == old(veldata).len(),
            alidata.len() == old(veldata).len(),
            collidedata.len() == old(veldata).len(),
            all_bounded(velocities(old(veldata)@)),
            forall|i: int| 0 <= i < sepdata.len() ==> bounded(#[trigger] sepdata[i].0@, SEPARATION_MAX as int),
            forall|i: int| 0 <= i < cohdata.len() ==> bounded(#[trigger] cohdata[i].0@, UNIT as int),
            forall|i: int| 0 <= i < alidata.len() ==> bounded(#[trigger] alidata[i].0@, 2 * COORD_MAX),
            forall|i: int|
                0 <= i < collidedata.len() ==> bounded(#[trigger] collidedata[i].0@, COLLISION_MAX as int),
            weights.in_range(),
        ensures
            final(veldata).len() == old(veldata).len(),
            forall|i: int|
                0 <= i < old(veldata).len() ==> (#[trigger] final(veldata)[i]).0@ == adjusted(
                    old(veldata)[i].0@,
                    sepdata[i].0@,
                    cohdata[i].0@,
                    alidata[i].0@,
                    collidedata[i].0@,
                    *weights,
                ),
            all_bounded(velocities(final(veldata)@)),
    {
        let n = veldata.len();
        let current: &Vec<Vel> = veldata;
        let turn = |i: usize| -> (r: Vel)
            requires
                i < n,
            ensures
                r.0@ == adjusted(
                    current[i as int].0@,
                    sepdata[i as int].0@,
                    cohdata[i as int].0@,
                    alidata[i as int].0@,
                    collidedata[i as int].0@,
                    *weights,
                ),
                bounded(r.0@, COORD_MAX as int),
            {
                proof {
                    assert(velocities(current@)[i as int] == current[i as int].0@);
                }
                Vel(
                    Self::adjust(
                        current[i].0,
                        sepdata[i].0,
                        cohdata[i].0,
                        alidata[i].0,
                        collidedata[i].0,
                        weights,
                    ),
                )
            };
        let next = par_map(n, turn);
        proof {
            assert forall|k: int| 0 <= k < velocities(next@).len() implies bounded(
                #[trigger] velocities(next@)[k],
                COORD_MAX as int,
            ) by {
                assert(velocities(next@)[k] == next[k].0@);
            }
        }
        *veldata = next;
    }
}

/// Advances every agent's position by its velocity over one tick.
pub struct Movement;

impl Movement {
    /// Moves every agent by `velocity / rate`, agents spread over threads.
    pub fn run(&self, veldata: &Vec<Vel>, posdata: &mut Vec<Pos>, rate: &TickRate)
        requires
            veldata.len() == old(posdata).len(),
            rate.0 >= 1,
            all_bounded(positions(old(posdata)@)),
            all_bounded(velocities(veldata@)),
        ensures
            final(posdata).len() == old(posdata).len(),
            forall|i: int|
                0 <= i < old(posdata).len() ==> (#[trigger] final(posdata)[i]).0@ == moved(
                    old(posdata)[i].0@,
                    veldata[i].0@,
                    rate.0 as int,
                ),
    {
        let n = posdata.len();
        let current: &Vec<Pos> = posdata;
        let step = |i: usize| -> (r: Pos)
            requires
                i < n,
            ensures
                r.0@ == moved(current[i as int].0@, veldata[i as int].0@, rate.0 as int),
            {
                proof {
                    assert(positions(current@)[i as int] == current[i as int].0@);
                    assert(velocities(veldata@)[i as int] == veldata[i as int].0@);
                    crate::vector::lemma_div_trunc_bounded(veldata[i as int].0.x as int, rate.0 as int, COORD_MAX as int);
                    crate::vector::lemma_div_trunc_bounded(veldata[i as int].0.y as int, rate.0 as int, COORD_MAX as int);
                    assert(COORD_MAX <= rate.0 * COORD_MAX) by (nonlinear_arith)
                        requires
                            rate.0 >= 1,
                    ;
                }
                let p = current[i].0;
                let v = veldata[i].0;
                Pos(Vec2::new(p.x + v.x / rate.0, p.y + v.y / rate.0))
            };
        *posdata = par_map(n, step);
    }
}

} // verus!

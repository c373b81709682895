//! Properties of a tick that hold for every flock.

use vstd::prelude::*;
use crate::components::ForceWeights;
use crate::flock::{tick_composed, tick_position, tick_velocity, AgentStore, FlockConfig};
use crate::neighbors::MAX_NEIGHBORS;
use crate::integrate::{moved, weighted};
use crate::steering::{alignment_of, cohesion_of, pick};
use crate::vector::{
    lemma_div_trunc_rounds_to_zero, lemma_unit_length, lemma_unit_of_unit, mean_point, minus,
    norm_sq, sum_points, unit_of, UNIT,
};

verus! {

/// In a well-formed store, which every operation of the flock keeps, no agent
/// has more than `MAX_NEIGHBORS` neighbours, and none is its own neighbour.
pub proof fn law_neighbor_lists_bounded(store: AgentStore)
    requires
        store.wf(),
    ensures
        forall|i: int|
            0 <= i < store.count() ==> (#[trigger] store.closest[i]).0@.len() <= MAX_NEIGHBORS
                && !store.closest[i].0@.contains(i as usize),
{
    assert forall|i: int| 0 <= i < store.count() implies (#[trigger] store.closest[i]).0@.len()
        <= MAX_NEIGHBORS && !store.closest[i].0@.contains(i as usize) by {
        let ns = store.closest[i].0@;
        assert(crate::neighbors::valid_neighbors(ns, i, store.count() as int));
        if ns.contains(i as usize) {
            let k = choose|k: int| 0 <= k < ns.len() && ns[k] == i as usize;
            assert(ns[k] != i);
        }
    }
}

/// Whenever the forces and the old velocity add up to a non-zero vector, the
/// new velocity has unit length: its squared length is `UNIT²`, short of it by
/// less than `4 · UNIT + 2` for rounding.
pub proof fn law_heading_has_unit_length(
    ps: Seq<(int, int)>,
    vs: Seq<(int, int)>,
    i: int,
    config: FlockConfig,
)
    requires
        0 <= i < ps.len(),
        vs.len() == ps.len(),
        tick_composed(ps, vs, i, config) != (0int, 0int),
    ensures
        UNIT * UNIT - 4 * UNIT - 2 < norm_sq(tick_velocity(ps, vs, i, config)) <= UNIT * UNIT,
{
    lemma_unit_length(tick_composed(ps, vs, i, config));
}

/// An agent without neighbours feels neither cohesion nor alignment.
pub proof fn law_no_neighbors_no_flocking(
    ps: Seq<(int, int)>,
    vs: Seq<(int, int)>,
    ns: Seq<usize>,
    i: int,
)
    requires
        ns.len() == 0,
    ensures
        cohesion_of(ps, ns, i) == (0int, 0int),
        alignment_of(vs, ns, i) == (0int, 0int),
{
}

/// The centre is the arithmetic mean of the positions, rounded towards zero:
/// `n` times it falls short of the sum of the `n` positions by less than `n`
/// on each axis, on the side of zero. The centre of no agents is the origin.
pub proof fn law_centre_is_mean(ps: Seq<(int, int)>)
    ensures
        ps.len() == 0 ==> mean_point(ps) == (0int, 0int),
        ps.len() > 0 ==> {
            let n = ps.len() as int;
            let t = sum_points(ps);
            let m = mean_point(ps);
            &&& t.0 >= 0 ==> 0 <= t.0 - n * m.0 < n
            &&& t.0 < 0 ==> -n < t.0 - n * m.0 <= 0
            &&& t.1 >= 0 ==> 0 <= t.1 - n * m.1 < n
            &&& t.1 < 0 ==> -n < t.1 - n * m.1 <= 0
        },
{
    if ps.len() > 0 {
        let t = sum_points(ps);
        lemma_div_trunc_rounds_to_zero(t.0, ps.len() as int);
        lemma_div_trunc_rounds_to_zero(t.1, ps.len() as int);
    }
}

/// In a flock of three agents that are each other's neighbours, the cohesion
/// of agent `i` is the unit vector along `d`, the vector from the agent to the
/// centroid of the other two. Twice `d` is, up to one step of rounding on each
/// axis, `s - 3 · p` for the sum `s` of the three positions and the agent's
/// position `p`: three times the vector from the agent to the flock's centroid.
pub proof fn law_cohesion_of_three_aims_at_centroid(ps: Seq<(int, int)>, i: int, j: int, k: int)
    requires
        ps.len() == 3,
        0 <= i < 3 && 0 <= j < 3 && 0 <= k < 3,
        i != j && j != k && i != k,
    ensures
        ({
            let d = minus(mean_point(pick(ps, seq![j as usize, k as usize])), ps[i]);
            let s = sum_points(ps);
            &&& cohesion_of(ps, seq![j as usize, k as usize], i) == unit_of(d)
            &&& -1 <= 2 * d.0 - (s.0 - 3 * ps[i].0) <= 1
            &&& -1 <= 2 * d.1 - (s.1 - 3 * ps[i].1) <= 1
        }),
{
    let ns = seq![j as usize, k as usize];
    let two = pick(ps, ns);
    reveal_with_fuel(sum_points, 4);
    assert(two =~= seq![ps[j], ps[k]]);
    assert(two.drop_last() =~= seq![ps[j]]);
    assert(two.drop_last().drop_last() =~= Seq::<(int, int)>::empty());
    assert(ps.drop_last().drop_last().drop_last() =~= Seq::<(int, int)>::empty());
    let t = sum_points(two);
    let s = sum_points(ps);
    assert(t == (ps[j].0 + ps[k].0, ps[j].1 + ps[k].1));
    assert(s == (ps[0].0 + ps[1].0 + ps[2].0, ps[0].1 + ps[1].1 + ps[2].1));
    lemma_div_trunc_rounds_to_zero(t.0, 2);
    lemma_div_trunc_rounds_to_zero(t.1, 2);
}

/// All weights zero: no force acts.
pub open spec fn weightless(w: ForceWeights) -> bool {
    w.separation == 0 && w.cohesion == 0 && w.alignment == 0 && w.collision == 0
}

/// With every force weight zero the heading does not change: the new velocity
/// is the old one normalised (a zero velocity stays zero), a velocity of unit
/// length is kept exactly, and the agent then moves by that velocity over one
/// tick and by nothing else.
pub proof fn law_weightless_tick_keeps_heading(
    ps: Seq<(int, int)>,
    vs: Seq<(int, int)>,
    i: int,
    config: FlockConfig,
)
    requires
        0 <= i < ps.len(),
        vs.len() == ps.len(),
        weightless(config.weights),
    ensures
        tick_composed(ps, vs, i, config) == vs[i],
        tick_velocity(ps, vs, i, config) == unit_of(vs[i]),
        norm_sq(vs[i]) == UNIT * UNIT ==> tick_velocity(ps, vs, i, config) == vs[i]
            && tick_position(ps, vs, i, config) == moved(ps[i], vs[i], config.tick_rate.0 as int),
{
    assert forall|f: (int, int)| #[trigger] weighted(f, 0) == (0int, 0int) by {
        assert(f.0 * 0 == 0 && f.1 * 0 == 0);
    }
    if norm_sq(vs[i]) == UNIT * UNIT {
        lemma_unit_of_unit(vs[i]);
    }
}

} // verus!

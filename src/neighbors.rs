//! Neighbour discovery: for each agent, the first few others within reach.

use vstd::prelude::*;
use crate::components::{positions, ClosenessThreshold, Closest, Pos};
use crate::vector::{all_bounded, bounded, within, COORD_MAX};

verus! {

/// Most neighbours an agent keeps.
pub const MAX_NEIGHBORS: usize = 8;

/// The other agents at most `radius` away from agent `i`, among the first `m`,
/// in store order.
pub open spec fn others_within(ps: Seq<(int, int)>, i: int, radius: int, m: int) -> Seq<usize> {
    Seq::new(m as nat, |j: int| j as usize).filter(near(ps, i, radius))
}

/// Holds of each agent other than `i` at most `radius` away from it.
pub open spec fn near(ps: Seq<(int, int)>, i: int, radius: int) -> spec_fn(usize) -> bool {
    |j: usize| j as int != i && within(ps[i], ps[j as int], radius)
}

/// The first `k` items of `s`, or all of them when there are fewer.
pub open spec fn first_at_most(s: Seq<usize>, k: int) -> Seq<usize> {
    if s.len() <= k {
        s
    } else {
        s.take(k)
    }
}

/// Neighbours of agent `i` among the agents before index `m`, as a scan finds
/// them: each other agent within `radius`, in store order, until
/// `MAX_NEIGHBORS` have been found.
pub open spec fn close_among(ps: Seq<(int, int)>, i: int, radius: int, m: int) -> Seq<usize>
    decreases m,
{
    if m <= 0 {
        Seq::empty()
    } else {
        let found = close_among(ps, i, radius, m - 1);
        if found.len() < MAX_NEIGHBORS && m - 1 != i && within(ps[i], ps[m - 1], radius) {
            found.push((m - 1) as usize)
        } else {
            found
        }
    }
}

/// The neighbours of agent `i`: the first `MAX_NEIGHBORS` other agents, in
/// store order, at most `radius` away from it.
pub open spec fn neighbors_of(ps: Seq<(int, int)>, i: int, radius: int) -> Seq<usize> {
    first_at_most(others_within(ps, i, radius, ps.len() as int), MAX_NEIGHBORS as int)
}

/// Every neighbour list has at most `MAX_NEIGHBORS` entries, each the index of
/// another agent of the store.
pub open spec fn valid_neighbors(ns: Seq<usize>, i: int, n: int) -> bool {
    &&& ns.len() <= MAX_NEIGHBORS
    &&& forall|k: int| 0 <= k < ns.len() ==> #[trigger] ns[k] < n && ns[k] != i
}

proof fn lemma_close_among_props(ps: Seq<(int, int)>, i: int, radius: int, m: int)
    requires
        0 <= i < ps.len() <= usize::MAX,
        m <= ps.len(),
    ensures
        close_among(ps, i, radius, m).len() <= MAX_NEIGHBORS,
        forall|k: int|
            0 <= k < close_among(ps, i, radius, m).len() ==> {
                let j = #[trigger] close_among(ps, i, radius, m)[k];
                &&& j < m
                &&& j != i
                &&& within(ps[i], ps[j as int], radius)
            },
        forall|k1: int, k2: int|
            0 <= k1 < k2 < close_among(ps, i, radius, m).len() ==> close_among(ps, i, radius, m)[k1]
                < close_among(ps, i, radius, m)[k2],
    decreases m,
{
    if m > 0 {
        lemma_close_among_props(ps, i, radius, m - 1);
        let found = close_among(ps, i, radius, m - 1);
        let all = close_among(ps, i, radius, m);
        if all != found {
            assert(all == found.push((m - 1) as usize));
            assert forall|k: int| 0 <= k < all.len() implies ({
                let j = #[trigger] all[k];
                &&& j < m
                &&& j != i
                &&& within(ps[i], ps[j as int], radius)
            }) by {
                if k < found.len() {
                    assert(all[k] == found[k]);
                }
            }
            assert forall|k1: int, k2: int| 0 <= k1 < k2 < all.len() implies all[k1] < all[k2] by {
                assert(all[k1] == found[k1]);
                if k2 < found.len() {
                    assert(all[k2] == found[k2]);
                }
            }
        }
    }
}

/// The scan finds exactly the first `MAX_NEIGHBORS` of the other agents within
/// the radius.
pub proof fn lemma_close_among_is_first_within(ps: Seq<(int, int)>, i: int, radius: int, m: int)
    requires
        0 <= i < ps.len() <= usize::MAX,
        0 <= m <= ps.len(),
    ensures
        close_among(ps, i, radius, m) == first_at_most(
            others_within(ps, i, radius, m),
            MAX_NEIGHBORS as int,
        ),
    decreases m,
{
    reveal(Seq::filter);
    let k = MAX_NEIGHBORS as int;
    let pred = near(ps, i, radius);
    let all = Seq::new(m as nat, |j: int| j as usize);
    if m == 0 {
        assert(all.len() == 0);
    } else {
        lemma_close_among_is_first_within(ps, i, radius, m - 1);
        let prev = Seq::new((m - 1) as nat, |j: int| j as usize);
        assert(all.drop_last() =~= prev);
        assert(all.last() == (m - 1) as usize);
        let fp = prev.filter(pred);
        let f = all.filter(pred);
        assert(others_within(ps, i, radius, m - 1) == fp);
        assert(others_within(ps, i, radius, m) == f);
        let found = close_among(ps, i, radius, m - 1);
        if fp.len() >= k {
            assert(found =~= fp.take(k));
            if pred((m - 1) as usize) {
                assert(f == fp.push((m - 1) as usize));
                assert(f.take(k) =~= fp.take(k));
            }
        } else {
            assert(found == fp);
        }
    }
}

/// Once `MAX_NEIGHBORS` are found, looking further adds none.
proof fn lemma_close_among_full(ps: Seq<(int, int)>, i: int, radius: int, j: int, m: int)
    requires
        0 <= j <= m,
        close_among(ps, i, radius, j).len() >= MAX_NEIGHBORS,
    ensures
        close_among(ps, i, radius, m) == close_among(ps, i, radius, j),
    decreases m - j,
{
    if m > j {
        lemma_close_among_full(ps, i, radius, j, m - 1);
    }
}

/// No agent is its own neighbour, no list is longer than `MAX_NEIGHBORS`, and
/// each neighbour lies within the radius; neighbours come in store order.
pub proof fn lemma_neighbors_valid(ps: Seq<(int, int)>, i: int, radius: int)
    requires
        0 <= i < ps.len() <= usize::MAX,
    ensures
        valid_neighbors(neighbors_of(ps, i, radius), i, ps.len() as int),
        forall|k: int|
            0 <= k < neighbors_of(ps, i, radius).len() ==> within(
                ps[i],
                ps[#[trigger] neighbors_of(ps, i, radius)[k] as int],
                radius,
            ),
        forall|k1: int, k2: int|
            0 <= k1 < k2 < neighbors_of(ps, i, radius).len() ==> neighbors_of(ps, i, radius)[k1]
                < neighbors_of(ps, i, radius)[k2],
{
    lemma_close_among_props(ps, i, radius, ps.len() as int);
    lemma_close_among_is_first_within(ps, i, radius, ps.len() as int);
}

/// `a` and `b` are at most `radius` apart.
pub fn is_within(a: &Pos, b: &Pos, radius: i64) -> (r: bool)
    requires
        bounded(a.0@, COORD_MAX as int),
        bounded(b.0@, COORD_MAX as int),
    ensures
        r == within(a.0@, b.0@, radius as int),
{
    if radius < 0 {
        return false;
    }
    let dx: i128 = a.0.x as i128 - b.0.x as i128;
    let dy: i128 = a.0.y as i128 - b.0.y as i128;
    let r: i128 = radius as i128;
    assert(-0x1_0000_0000 <= dx <= 0x1_0000_0000 && -0x1_0000_0000 <= dy <= 0x1_0000_0000);
    assert(0 <= dx * dx <= 0x4_0000_0000_0000_0000 && 0 <= dy * dy <= 0x4_0000_0000_0000_0000)
        by (nonlinear_arith)
        requires
            -0x1_0000_0000 <= dx <= 0x1_0000_0000,
            -0x1_0000_0000 <= dy <= 0x1_0000_0000,
    ;
    assert(0 <= r * r <= 0x4000_0000_0000_0000_0000_0000_0000_0000) by (nonlinear_arith)
        requires
            0 <= r <= 0x7fff_ffff_ffff_ffff,
    ;
    dx * dx + dy * dy <= r * r
}

/// Computes, for each agent, the other agents within the closeness threshold.
pub struct ComputeClose;

impl ComputeClose {
    /// The neighbours of agent `i`.
    pub fn close_to(posdata: &Vec<Pos>, i: usize, radius: i64) -> (found: Vec<usize>)
        requires
            i < posdata.len(),
            all_bounded(positions(posdata@)),
        ensures
            found@ == neighbors_of(positions(posdata@), i as int, radius as int),
    {
        let ghost ps = positions(posdata@);
        let n = posdata.len();
        let mut found: Vec<usize> = Vec::new();
        let mut j: usize = 0;
        while j < n && found.len() < MAX_NEIGHBORS
            invariant
                i < n == posdata.len() == ps.len(),
                ps == positions(posdata@),
                j <= n,
                all_bounded(positions(posdata@)),
                found@ == close_among(ps, i as int, radius as int, j as int),
            decreases n - j,
        {
            proof {
                assert(ps[i as int] == posdata[i as int].0@);
                assert(ps[j as int] == posdata[j as int].0@);
            }
            if j != i && is_within(&posdata[i], &posdata[j], radius) {
                found.push(j);
            }
            j = j + 1;
        }
        proof {
            if j < n {
                lemma_close_among_full(ps, i as int, radius as int, j as int, n as int);
            }
            lemma_close_among_is_first_within(ps, i as int, radius as int, n as int);
        }
        found
    }

    /// Fills `closedata` with each agent's neighbours within `threshold`.
    pub fn run(&self, posdata: &Vec<Pos>, closedata: &mut Vec<Closest>, threshold: &ClosenessThreshold)
        requires
            all_bounded(positions(posdata@)),
        ensures
            final(closedata).len() == posdata.len(),
            forall|i: int|
                0 <= i < posdata.len() ==> (#[trigger] final(closedata)[i]).0@ == neighbors_of(
                    positions(posdata@),
                    i,
                    threshold.0 as int,
                ),
    {
        let n = posdata.len();
        let mut lists: Vec<Closest> = Vec::new();
        for i in 0..n
            invariant
                n == posdata.len(),
                lists.len() == i,
                all_bounded(positions(posdata@)),
                forall|k: int|
                    0 <= k < i ==> (#[trigger] lists[k]).0@ == neighbors_of(
                        positions(posdata@),
                        k,
                        threshold.0 as int,
                    ),
        {
            lists.push(Closest(Self::close_to(posdata, i, threshold.0)));
        }
        *closedata = lists;
    }
}

} // verus!

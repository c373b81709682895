//! The flock aggregate: the mean position of every agent.

use vstd::prelude::*;
use crate::components::{positions, CentreOfFlockValue, Pos};
use crate::vector::{all_bounded, bounded, mean, mean_point, views, Vec2, COORD_MAX};

verus! {

/// `c` holds the aggregate `p`.
pub open spec fn centre_is(c: Option<CentreOfFlockValue>, p: (int, int)) -> bool {
    c matches Some(v) && v.0@ == p
}

/// Computes the centre of the flock, where the flock is every agent of the store.
pub struct CentreOfFlock;

impl CentreOfFlock {
    /// Mean of the positions, rounded towards zero; the origin when there are none.
    pub fn mean_of(posdata: &Vec<Pos>) -> (r: Vec2)
        requires
            all_bounded(positions(posdata@)),
        ensures
            r@ == mean_point(positions(posdata@)),
            bounded(r@, COORD_MAX as int),
    {
        let n = posdata.len();
        let mut pts: Vec<Vec2> = Vec::new();
        for k in 0..n
            invariant
                n == posdata.len(),
                pts.len() == k,
                views(pts@) =~= positions(posdata@).take(k as int),
        {
            pts.push(posdata[k].0);
            assert(views(pts@) =~= positions(posdata@).take(k + 1));
        }
        assert(views(pts@) =~= positions(posdata@));
        mean(&pts)
    }

    /// Stores the centre of the flock.
    pub fn run(&self, posdata: &Vec<Pos>, centre_of_mass: &mut Option<CentreOfFlockValue>)
        requires
            all_bounded(positions(posdata@)),
        ensures
            centre_is(*final(centre_of_mass), mean_point(positions(posdata@))),
    {
        *centre_of_mass = Some(CentreOfFlockValue(Self::mean_of(posdata)));
    }
}

} // verus!

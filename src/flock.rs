//! The agent store and the scheduler that runs one tick of the pipeline.

use vstd::prelude::*;
use crate::bounds::{collision_of, CollisionAvoidance, CollisionBounds, COLLISION_MAX};
use crate::centre::{centre_is, CentreOfFlock};
use crate::components::{
    positions, velocities, AlignmentVector, CentreOfFlockValue, ClosenessThreshold, Closest,
    CohesionVector, CollisionVector, ForceWeights, Pos, SeparationDistance, SeparationVector,
    TickRate, Vel,
};
use crate::integrate::{adjusted, composed, moved, ApplyAdjustments, Movement};
use crate::neighbors::{lemma_neighbors_valid, neighbors_of, valid_neighbors, ComputeClose};
use crate::steering::{
    alignment_of, cohesion_of, separation_of, valid_lists, Alignment, Cohesion,
    Separation, SEPARATION_MAX,
};
use crate::vector::{all_bounded, bounded, mean_point, Vec2, COORD_MAX, UNIT};

verus! {

/// Per-agent attributes, one vector per attribute, indexed by agent.
pub struct AgentStore {
    pub pos: Vec<Pos>,
    pub vel: Vec<Vel>,
    pub closest: Vec<Closest>,
    pub separation: Vec<SeparationVector>,
    pub cohesion: Vec<CohesionVector>,
    pub alignment: Vec<AlignmentVector>,
    pub collision: Vec<CollisionVector>,
}

impl AgentStore {
    /// Number of agents.
    pub open spec fn count(&self) -> nat {
        self.pos@.len()
    }

    /// Every attribute vector has one entry per agent, and every neighbour
    /// list is valid.
    pub open spec fn wf(&self) -> bool {
        &&& self.vel.len() == self.count()
        &&& self.separation.len() == self.count()
        &&& self.cohesion.len() == self.count()
        &&& self.alignment.len() == self.count()
        &&& self.collision.len() == self.count()
        &&& valid_lists(self.closest@, self.count() as int)
    }

    /// The agents' positions.
    pub open spec fn points(&self) -> Seq<(int, int)> {
        positions(self.pos@)
    }

    /// The agents' velocities.
    pub open spec fn headings(&self) -> Seq<(int, int)> {
        velocities(self.vel@)
    }

    /// A store without agents.
    pub fn new() -> (r: AgentStore)
        ensures
            r.wf(),
            r.count() == 0,
    {
        AgentStore {
            pos: Vec::new(),
            vel: Vec::new(),
            closest: Vec::new(),
            separation: Vec::new(),
            cohesion: Vec::new(),
            alignment: Vec::new(),
            collision: Vec::new(),
        }
    }
}

/// Adds an agent at `position` moving with `velocity`, without neighbours and
/// with zero forces, and returns its index.
pub fn make_a_boid(store: &mut AgentStore, position: Pos, velocity: Vel) -> (id: usize)
    requires
        old(store).wf(),
        old(store).count() < usize::MAX,
    ensures
        final(store).wf(),
        id == old(store).count(),
        final(store).pos@ == old(store).pos@.push(position),
        final(store).vel@ == old(store).vel@.push(velocity),
        final(store).closest[id as int].0@ == Seq::<usize>::empty(),
        forall|i: int| 0 <= i < id ==> (#[trigger] final(store).closest[i]).0@ == old(store).closest[i].0@,
        final(store).separation@ == old(store).separation@.push(SeparationVector((Vec2 { x: 0, y: 0 }))),
        final(store).cohesion@ == old(store).cohesion@.push(CohesionVector((Vec2 { x: 0, y: 0 }))),
        final(store).alignment@ == old(store).alignment@.push(AlignmentVector((Vec2 { x: 0, y: 0 }))),
        final(store).collision@ == old(store).collision@.push(CollisionVector((Vec2 { x: 0, y: 0 }))),
{
    let id = store.pos.len();
    store.pos.push(position);
    store.vel.push(velocity);
    store.closest.push(Closest(Vec::new()));
    store.separation.push(SeparationVector(Vec2::zeros()));
    store.cohesion.push(CohesionVector(Vec2::zeros()));
    store.alignment.push(AlignmentVector(Vec2::zeros()));
    store.collision.push(CollisionVector(Vec2::zeros()));
    proof {
        let n = store.count() as int;
        assert forall|i: int| 0 <= i < n implies valid_neighbors(#[trigger] store.closest[i].0@, i, n) by {
            if i < id {
                assert(store.closest[i] == old(store).closest[i]);
                assert(valid_neighbors(old(store).closest[i].0@, i, id as int));
            }
        }
    }
    id
}

/// The settings that a tick reads and never writes.
#[derive(Clone, Copy, Debug, PartialEq, Eq, Structural)]
pub struct FlockConfig {
    pub closeness: ClosenessThreshold,
    pub separation: SeparationDistance,
    pub bounds: CollisionBounds,
    pub weights: ForceWeights,
    pub tick_rate: TickRate,
}

impl FlockConfig {
    /// The bounds and weights lie in the ranges that the pipeline accepts, and
    /// a tick lasts a positive time.
    pub open spec fn in_range(&self) -> bool {
        &&& self.bounds.in_range()
        &&& self.weights.in_range()
        &&& self.tick_rate.0 >= 1
    }
}

impl Default for FlockConfig {
    /// Closeness 10, separation 0, zero bounds, the reference weights and 60
    /// ticks per unit of time.
    fn default() -> (r: FlockConfig)
        ensures
            r.closeness.0 == 10 * UNIT,
            r.separation.0 == 0,
            r.bounds.x_min == 0 && r.bounds.x_max == 0 && r.bounds.y_min == 0 && r.bounds.y_max == 0,
            r.bounds.threshold == 0,
            r.weights.separation == UNIT && r.weights.cohesion == 1638,
            r.weights.alignment == UNIT / 2 && r.weights.collision == UNIT,
            r.tick_rate.0 == 60,
            r.in_range(),
    {
        FlockConfig {
            closeness: ClosenessThreshold::default(),
            separation: SeparationDistance::default(),
            bounds: CollisionBounds::default(),
            weights: ForceWeights::default(),
            tick_rate: TickRate::default(),
        }
    }
}

/// The neighbours of agent `i` at the start of a tick.
pub open spec fn tick_neighbors(ps: Seq<(int, int)>, i: int, config: FlockConfig) -> Seq<usize> {
    neighbors_of(ps, i, config.closeness.0 as int)
}

/// The velocity of agent `i` with the weighted forces of a tick added, before
/// it is normalised.
pub open spec fn tick_composed(
    ps: Seq<(int, int)>,
    vs: Seq<(int, int)>,
    i: int,
    config: FlockConfig,
) -> (int, int) {
    let ns = tick_neighbors(ps, i, config);
    composed(
        vs[i],
        separation_of(ps, ns, i, config.separation.0 as int),
        cohesion_of(ps, ns, i),
        alignment_of(vs, ns, i),
        collision_of(config.bounds, ps[i], vs[i]),
        config.weights,
    )
}

/// The velocity of agent `i` after a tick that starts from positions `ps` and
/// velocities `vs`.
pub open spec fn tick_velocity(
    ps: Seq<(int, int)>,
    vs: Seq<(int, int)>,
    i: int,
    config: FlockConfig,
) -> (int, int) {
    let ns = tick_neighbors(ps, i, config);
    adjusted(
        vs[i],
        separation_of(ps, ns, i, config.separation.0 as int),
        cohesion_of(ps, ns, i),
        alignment_of(vs, ns, i),
        collision_of(config.bounds, ps[i], vs[i]),
        config.weights,
    )
}

/// The position of agent `i` after a tick that starts from positions `ps` and
/// velocities `vs`.
pub open spec fn tick_position(
    ps: Seq<(int, int)>,
    vs: Seq<(int, int)>,
    i: int,
    config: FlockConfig,
) -> (int, int) {
    moved(ps[i], tick_velocity(ps, vs, i, config), config.tick_rate.0 as int)
}

/// Where a tick stands. Each stage reads only what earlier stages finished,
/// and the next starts only when the current one is done for every agent.
#[derive(Clone, Copy, Debug, PartialEq, Eq, Structural)]
pub enum Stage {
    /// Neighbour discovery, together with the flock's centre.
    NeighborDiscovery,
    /// The four steering forces.
    ComputeForces,
    /// Velocities from the forces.
    ComposeVelocity,
    /// Positions from the velocities.
    IntegratePosition,
    /// The tick is over: poses and centre are consistent.
    Settled,
}

impl Stage {
    /// The stage that follows; `Settled` stays.
    pub open spec fn following(self) -> Stage {
        match self {
            Stage::NeighborDiscovery => Stage::ComputeForces,
            Stage::ComputeForces => Stage::ComposeVelocity,
            Stage::ComposeVelocity => Stage::IntegratePosition,
            Stage::IntegratePosition => Stage::Settled,
            Stage::Settled => Stage::Settled,
        }
    }

    /// The stage that follows this one.
    pub fn next(self) -> (r: Stage)
        ensures
            r == self.following(),
    {
        match self {
            Stage::NeighborDiscovery => Stage::ComputeForces,
            Stage::ComputeForces => Stage::ComposeVelocity,
            Stage::ComposeVelocity => Stage::IntegratePosition,
            Stage::IntegratePosition => Stage::Settled,
            Stage::Settled => Stage::Settled,
        }
    }
}

impl AgentStore {
    /// Every force lies in the range that its computer guarantees.
    pub open spec fn forces_bounded(&self) -> bool {
        &&& forall|i: int|
            0 <= i < self.count() ==> bounded(#[trigger] self.separation[i].0@, SEPARATION_MAX as int)
        &&& forall|i: int| 0 <= i < self.count() ==> bounded(#[trigger] self.cohesion[i].0@, UNIT as int)
        &&& forall|i: int| 0 <= i < self.count() ==> bounded(#[trigger] self.alignment[i].0@, 2 * COORD_MAX)
        &&& forall|i: int|
            0 <= i < self.count() ==> bounded(#[trigger] self.collision[i].0@, COLLISION_MAX as int)
    }
}

/// The flock: its agents, its settings and the last computed centre, advanced
/// one tick at a time through barrier-separated stages.
pub struct BoidsBundle {
    pub store: AgentStore,
    pub config: FlockConfig,
    pub centre: Option<CentreOfFlockValue>,
    pub stage: Stage,
}

impl BoidsBundle {
    /// The store is well formed, the settings and every position and velocity
    /// are in range: a tick can run.
    pub open spec fn ready(&self) -> bool {
        &&& self.store.wf()
        &&& self.config.in_range()
        &&& all_bounded(self.store.points())
        &&& all_bounded(self.store.headings())
    }

    /// A flock without agents, and no centre yet.
    pub fn new(config: FlockConfig) -> (r: BoidsBundle)
        ensures
            r.store.wf(),
            r.store.count() == 0,
            r.config == config,
            r.centre is None,
            r.stage == Stage::Settled,
    {
        BoidsBundle { store: AgentStore::new(), config, centre: None, stage: Stage::Settled }
    }

    /// Adds an agent and returns its index.
    pub fn spawn(&mut self, position: Vec2, velocity: Vec2) -> (id: usize)
        requires
            old(self).store.wf(),
            old(self).store.count() < usize::MAX,
        ensures
            final(self).store.wf(),
            id == old(self).store.count(),
            final(self).store.count() == old(self).store.count() + 1,
            final(self).store.points() == old(self).store.points().push(position@),
            final(self).store.headings() == old(self).store.headings().push(velocity@),
            final(self).store.pos@ == old(self).store.pos@.push(Pos(position)),
            final(self).store.vel@ == old(self).store.vel@.push(Vel(velocity)),
            final(self).store.closest[id as int].0@ == Seq::<usize>::empty(),
            forall|i: int|
                0 <= i < id ==> (#[trigger] final(self).store.closest[i]).0@ == old(self).store.closest[i].0@,
            final(self).store.separation@ == old(self).store.separation@.push(
                SeparationVector((Vec2 { x: 0, y: 0 })),
            ),
            final(self).store.cohesion@ == old(self).store.cohesion@.push(
                CohesionVector((Vec2 { x: 0, y: 0 })),
            ),
            final(self).store.alignment@ == old(self).store.alignment@.push(
                AlignmentVector((Vec2 { x: 0, y: 0 })),
            ),
            final(self).store.collision@ == old(self).store.collision@.push(
                CollisionVector((Vec2 { x: 0, y: 0 })),
            ),
            final(self).config == old(self).config,
            final(self).centre == old(self).centre,
            final(self).stage == old(self).stage,
    {
        let id = make_a_boid(&mut self.store, Pos(position), Vel(velocity));
        proof {
            assert(self.store.points() =~= old(self).store.points().push(position@));
            assert(self.store.headings() =~= old(self).store.headings().push(velocity@));
        }
        id
    }

    /// Position and velocity of agent `id`, if there is such an agent.
    pub fn read_pose(&self, id: usize) -> (r: Option<(Vec2, Vec2)>)
        requires
            self.store.wf(),
        ensures
            id < self.store.count() ==> (r matches Some(pose) && pose.0@ == self.store.points()[id as int]
                && pose.1@ == self.store.headings()[id as int]),
            id >= self.store.count() ==> r is None,
    {
        if id < self.store.pos.len() {
            Some((self.store.pos[id].0, self.store.vel[id].0))
        } else {
            None
        }
    }

    /// Index, position and velocity of every agent, in store order.
    pub fn read_all_poses(&self) -> (r: Vec<(usize, Vec2, Vec2)>)
        requires
            self.store.wf(),
        ensures
            r.len() == self.store.count(),
            forall|i: int|
                0 <= i < r.len() ==> (#[trigger] r[i]).0 == i && r[i].1@ == self.store.points()[i]
                    && r[i].2@ == self.store.headings()[i],
    {
        let n = self.store.pos.len();
        let mut poses: Vec<(usize, Vec2, Vec2)> = Vec::new();
        for i in 0..n
            invariant
                n == self.store.count(),
                self.store.wf(),
                poses.len() == i,
                forall|k: int|
                    0 <= k < i ==> (#[trigger] poses[k]).0 == k && poses[k].1@
                        == self.store.points()[k] && poses[k].2@ == self.store.headings()[k],
        {
            poses.push((i, self.store.pos[i].0, self.store.vel[i].0));
        }
        poses
    }

    /// The centre computed by the last tick; `None` before the first.
    pub fn read_flock_centre(&self) -> (r: Option<Vec2>)
        ensures
            match self.centre {
                Some(c) => r == Some(c.0),
                None => r is None,
            },
    {
        match self.centre {
            Some(c) => Some(c.0),
            None => None,
        }
    }

    /// Whether the settings and every position and velocity are in range.
    pub fn is_ready(&self) -> (r: bool)
        requires
            self.store.wf(),
        ensures
            r == self.ready(),
    {
        if !self.config.bounds.is_in_range() || !self.config.weights.is_in_range()
            || self.config.tick_rate.0 < 1 {
            return false;
        }
        let n = self.store.pos.len();
        for i in 0..n
            invariant
                n == self.store.count(),
                self.store.wf(),
                forall|k: int| 0 <= k < i ==> bounded(#[trigger] self.store.points()[k], COORD_MAX as int),
                forall|k: int| 0 <= k < i ==> bounded(#[trigger] self.store.headings()[k], COORD_MAX as int),
        {
            if !self.store.pos[i].0.is_bounded(COORD_MAX) {
                assert(!bounded(self.store.points()[i as int], COORD_MAX as int));
                return false;
            }
            if !self.store.vel[i].0.is_bounded(COORD_MAX) {
                assert(!bounded(self.store.headings()[i as int], COORD_MAX as int));
                return false;
            }
        }
        true
    }

    /// What the current stage needs to run.
    pub open spec fn stage_ready(&self) -> bool {
        match self.stage {
            Stage::NeighborDiscovery => self.ready(),
            Stage::ComputeForces => self.ready(),
            Stage::ComposeVelocity => self.ready() && self.store.forces_bounded(),
            Stage::IntegratePosition => self.ready(),
            Stage::Settled => self.store.wf(),
        }
    }

    /// `self` is `before` after neighbour discovery: neighbours and centre
    /// computed from the positions, nothing else changed.
    pub open spec fn discovered(&self, before: BoidsBundle) -> bool {
        &&& self.store.pos == before.store.pos
        &&& self.store.vel == before.store.vel
        &&& self.store.separation == before.store.separation
        &&& self.store.cohesion == before.store.cohesion
        &&& self.store.alignment == before.store.alignment
        &&& self.store.collision == before.store.collision
        &&& centre_is(self.centre, mean_point(before.store.points()))
        &&& forall|i: int|
            0 <= i < before.store.count() ==> (#[trigger] self.store.closest[i]).0@
                == tick_neighbors(before.store.points(), i, before.config)
    }

    /// `self` is `before` after the forces were computed from the neighbour
    /// lists, positions and velocities, nothing else changed.
    pub open spec fn forced(&self, before: BoidsBundle) -> bool {
        &&& self.store.pos == before.store.pos
        &&& self.store.vel == before.store.vel
        &&& self.store.closest == before.store.closest
        &&& self.centre == before.centre
        &&& self.store.forces_bounded()
        &&& forall|i: int|
            0 <= i < before.store.count() ==> {
                let ps = before.store.points();
                let vs = before.store.headings();
                let ns = before.store.closest[i].0@;
                let cfg = before.config;
                &&& (#[trigger] self.store.separation[i]).0@ == separation_of(
                    ps,
                    ns,
                    i,
                    cfg.separation.0 as int,
                )
                &&& self.store.cohesion[i].0@ == cohesion_of(ps, ns, i)
                &&& self.store.alignment[i].0@ == alignment_of(vs, ns, i)
                &&& self.store.collision[i].0@ == collision_of(cfg.bounds, ps[i], vs[i])
            }
    }

    /// `self` is `before` after each velocity was turned by its forces,
    /// nothing else changed.
    pub open spec fn composed_from(&self, before: BoidsBundle) -> bool {
        &&& self.store.pos == before.store.pos
        &&& self.store.closest == before.store.closest
        &&& self.store.separation == before.store.separation
        &&& self.store.cohesion == before.store.cohesion
        &&& self.store.alignment == before.store.alignment
        &&& self.store.collision == before.store.collision
        &&& self.centre == before.centre
        &&& forall|i: int|
            0 <= i < before.store.count() ==> (#[trigger] self.store.vel[i]).0@ == adjusted(
                before.store.vel[i].0@,
                before.store.separation[i].0@,
                before.store.cohesion[i].0@,
                before.store.alignment[i].0@,
                before.store.collision[i].0@,
                before.config.weights,
            )
    }

    /// `self` is `before` after each agent moved by its velocity over one
    /// tick, nothing else changed.
    pub open spec fn moved_from(&self, before: BoidsBundle) -> bool {
        &&& self.store.vel == before.store.vel
        &&& self.store.closest == before.store.closest
        &&& self.store.separation == before.store.separation
        &&& self.store.cohesion == before.store.cohesion
        &&& self.store.alignment == before.store.alignment
        &&& self.store.collision == before.store.collision
        &&& self.centre == before.centre
        &&& forall|i: int|
            0 <= i < before.store.count() ==> (#[trigger] self.store.pos[i]).0@ == moved(
                before.store.pos[i].0@,
                before.store.vel[i].0@,
                before.config.tick_rate.0 as int,
            )
    }

    /// Stage one: each agent's neighbours, and the flock's centre.
    fn discover(&mut self)
        requires
            old(self).ready(),
        ensures
            final(self).ready(),
            final(self).config == old(self).config,
            final(self).stage == old(self).stage,
            final(self).discovered(*old(self)),
    {
        ComputeClose.run(&self.store.pos, &mut self.store.closest, &self.config.closeness);
        CentreOfFlock.run(&self.store.pos, &mut self.centre);
        proof {
            let ps = self.store.points();
            let n = self.store.count() as int;
            assert forall|i: int| 0 <= i < n implies valid_neighbors(
                #[trigger] self.store.closest[i].0@,
                i,
                n,
            ) by {
                lemma_neighbors_valid(ps, i, self.config.closeness.0 as int);
            }
        }
    }

    /// Stage two: the four steering forces of every agent.
    fn compute_forces(&mut self)
        requires
            old(self).ready(),
        ensures
            final(self).ready(),
            final(self).config == old(self).config,
            final(self).stage == old(self).stage,
            final(self).forced(*old(self)),
    {
        Separation.run(
            &self.config.separation,
            &self.store.closest,
            &self.store.pos,
            &mut self.store.separation,
        );
        Cohesion.run(&self.store.closest, &self.store.pos, &mut self.store.cohesion);
        Alignment.run(&self.store.closest, &self.store.vel, &mut self.store.alignment);
        CollisionAvoidance.run(
            &self.store.pos,
            &self.store.vel,
            &mut self.store.collision,
            &self.config.bounds,
        );
    }

    /// Stage three: every velocity turned by its forces.
    fn compose(&mut self)
        requires
            old(self).ready(),
            old(self).store.forces_bounded(),
        ensures
            final(self).ready(),
            final(self).config == old(self).config,
            final(self).stage == old(self).stage,
            final(self).composed_from(*old(self)),
    {
        ApplyAdjustments.run(
            &mut self.store.vel,
            &self.store.separation,
            &self.store.cohesion,
            &self.store.alignment,
            &self.store.collision,
            &self.config.weights,
        );
    }

    /// Stage four: every agent moved one tick ahead.
    fn integrate(&mut self)
        requires
            old(self).ready(),
        ensures
            final(self).store.wf(),
            final(self).config == old(self).config,
            final(self).stage == old(self).stage,
            final(self).moved_from(*old(self)),
    {
        Movement.run(&self.store.vel, &mut self.store.pos, &self.config.tick_rate);
    }

    /// Runs the current stage for every agent and moves to the next one; a
    /// settled tick stays as it is.
    pub fn run_stage(&mut self)
        requires
            old(self).stage_ready(),
        ensures
            final(self).stage == old(self).stage.following(),
            final(self).stage_ready(),
            final(self).config == old(self).config,
            final(self).store.count() == old(self).store.count(),
            old(self).stage == Stage::NeighborDiscovery ==> final(self).discovered(*old(self)),
            old(self).stage == Stage::ComputeForces ==> final(self).forced(*old(self)),
            old(self).stage == Stage::ComposeVelocity ==> final(self).composed_from(*old(self)),
            old(self).stage == Stage::IntegratePosition ==> final(self).moved_from(*old(self)),
            old(self).stage == Stage::Settled ==> *final(self) == *old(self),
    {
        match self.stage {
            Stage::NeighborDiscovery => self.discover(),
            Stage::ComputeForces => self.compute_forces(),
            Stage::ComposeVelocity => self.compose(),
            Stage::IntegratePosition => self.integrate(),
            Stage::Settled => {},
        }
        self.stage = self.stage.next();
    }

    /// Runs one whole tick: neighbours and centre, forces, velocities, then
    /// positions, each stage finished for every agent before the next begins.
    pub fn advance(&mut self)
        requires
            old(self).ready(),
        ensures
            final(self).store.wf(),
            final(self).stage == Stage::Settled,
            final(self).config == old(self).config,
            final(self).store.count() == old(self).store.count(),
            all_bounded(final(self).store.headings()),
            centre_is(final(self).centre, mean_point(old(self).store.points())),
            forall|i: int|
                0 <= i < old(self).store.count() ==> {
                    let ps = old(self).store.points();
                    let vs = old(self).store.headings();
                    let cfg = old(self).config;
                    let ns = tick_neighbors(ps, i, cfg);
                    &&& (#[trigger] final(self).store.closest[i]).0@ == ns
                    &&& final(self).store.separation[i].0@ == separation_of(
                        ps,
                        ns,
                        i,
                        cfg.separation.0 as int,
                    )
                    &&& final(self).store.cohesion[i].0@ == cohesion_of(ps, ns, i)
                    &&& final(self).store.alignment[i].0@ == alignment_of(vs, ns, i)
                    &&& final(self).store.collision[i].0@ == collision_of(cfg.bounds, ps[i], vs[i])
                    &&& final(self).store.vel[i].0@ == tick_velocity(ps, vs, i, cfg)
                    &&& final(self).store.pos[i].0@ == tick_position(ps, vs, i, cfg)
                },
    {
        let ghost start = *self;
        self.stage = Stage::NeighborDiscovery;
        self.run_stage();
        let ghost s1 = *self;
        self.run_stage();
        self.run_stage();
        self.run_stage();
        proof {
            let ps = start.store.points();
            let vs = start.store.headings();
            assert forall|i: int| 0 <= i < start.store.count() implies ps[i] == start.store.pos[i].0@
                && vs[i] == start.store.vel[i].0@ && #[trigger] self.store.closest[i]
                == s1.store.closest[i] by {}
        }
    }
}

} // verus!

//! The opening scene: settings and a randomly scattered flock.

use vstd::prelude::*;
use rand::Rng;
use crate::flock::BoidsBundle;
use crate::vector::{Vec2, UNIT};

verus! {

/// Half the width of the area where agents start: 3.75 units.
pub const SPAWN_HALF_WIDTH: i64 = 245760;

/// Half the height of the area where agents start, and the largest starting
/// speed along each axis: 5.75 units.
pub const SPAWN_HALF_HEIGHT: i64 = 376832;

/// A value drawn from `[low, high)`.
///
/// Relies on rand's `thread_rng().gen_range(low..high)`, which returns a value
/// of the half-open range and panics only when the range is empty.
#[verifier::external_body]
fn random_in(low: i64, high: i64) -> (r: i64)
    requires
        low < high,
    ensures
        low <= r < high,
{
    rand::thread_rng().gen_range(low..high)
}

/// The scene that sets the flock up: its settings and its agents.
pub struct MainScene {
    /// How many agents the scene spawns.
    pub boids: usize,
}

impl MainScene {
    /// A scene of twenty agents.
    pub fn new() -> (r: MainScene)
        ensures
            r.boids == 20,
    {
        MainScene { boids: 20 }
    }

    /// Sets a closeness threshold of 50 and a separation distance of 2, then
    /// spawns the scene's agents at random positions in `[-3.75, 3.75) ×
    /// [-5.75, 5.75)` with random velocities in `[-5.75, 5.75)²`.
    pub fn on_start(&self, bundle: &mut BoidsBundle)
        requires
            old(bundle).store.wf(),
            old(bundle).store.count() + self.boids < usize::MAX,
        ensures
            final(bundle).store.wf(),
            final(bundle).config.closeness.0 == 50 * UNIT,
            final(bundle).config.separation.0 == 2 * UNIT,
            final(bundle).config.bounds == old(bundle).config.bounds,
            final(bundle).config.weights == old(bundle).config.weights,
            final(bundle).config.tick_rate == old(bundle).config.tick_rate,
            final(bundle).centre == old(bundle).centre,
            final(bundle).store.count() == old(bundle).store.count() + self.boids,
            forall|i: int|
                0 <= i < old(bundle).store.count() ==> #[trigger] final(bundle).store.points()[i]
                    == old(bundle).store.points()[i] && final(bundle).store.headings()[i]
                    == old(bundle).store.headings()[i],
            forall|i: int|
                old(bundle).store.count() <= i < final(bundle).store.count() ==> {
                    let p = #[trigger] final(bundle).store.points()[i];
                    let v = final(bundle).store.headings()[i];
                    &&& -SPAWN_HALF_WIDTH <= p.0 < SPAWN_HALF_WIDTH
                    &&& -SPAWN_HALF_HEIGHT <= p.1 < SPAWN_HALF_HEIGHT
                    &&& -SPAWN_HALF_HEIGHT <= v.0 < SPAWN_HALF_HEIGHT
                    &&& -SPAWN_HALF_HEIGHT <= v.1 < SPAWN_HALF_HEIGHT
                },
    {
        bundle.config.closeness.0 = 50 * UNIT;
        bundle.config.separation.0 = 2 * UNIT;
        let ghost before = *bundle;
        for k in 0..self.boids
            invariant
                bundle.store.wf(),
                before.store.wf(),
                bundle.store.count() == before.store.count() + k,
                before.store.count() + self.boids < usize::MAX,
                bundle.config == before.config,
                bundle.centre == before.centre,
                forall|i: int|
                    0 <= i < before.store.count() ==> #[trigger] bundle.store.points()[i]
                        == before.store.points()[i] && bundle.store.headings()[i]
                        == before.store.headings()[i],
                forall|i: int|
                    before.store.count() <= i < bundle.store.count() ==> {
                        let p = #[trigger] bundle.store.points()[i];
                        let v = bundle.store.headings()[i];
                        &&& -SPAWN_HALF_WIDTH <= p.0 < SPAWN_HALF_WIDTH
                        &&& -SPAWN_HALF_HEIGHT <= p.1 < SPAWN_HALF_HEIGHT
                        &&& -SPAWN_HALF_HEIGHT <= v.0 < SPAWN_HALF_HEIGHT
                        &&& -SPAWN_HALF_HEIGHT <= v.1 < SPAWN_HALF_HEIGHT
                    },
        {
            let position = Vec2::new(
                random_in(-SPAWN_HALF_WIDTH, SPAWN_HALF_WIDTH),
                random_in(-SPAWN_HALF_HEIGHT, SPAWN_HALF_HEIGHT),
            );
            let velocity = Vec2::new(
                random_in(-SPAWN_HALF_HEIGHT, SPAWN_HALF_HEIGHT),
                random_in(-SPAWN_HALF_HEIGHT, SPAWN_HALF_HEIGHT),
            );
            let ghost prev = *bundle;
            assert(forall|i: int|
                0 <= i < before.store.count() ==> prev.store.points()[i] == before.store.points()[i]
                    && prev.store.headings()[i] == before.store.headings()[i]);
            bundle.spawn(position, velocity);
            proof {
                assert forall|i: int| 0 <= i < prev.store.count() implies #[trigger] bundle.store.points()[i]
                    == prev.store.points()[i] && bundle.store.headings()[i] == prev.store.headings()[i] by {}
                assert(bundle.store.points()[prev.store.count() as int] == position@);
                assert(bundle.store.headings()[prev.store.count() as int] == velocity@);
            }
        }
    }
}

} // verus!

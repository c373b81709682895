use boids::bounds::CollisionBounds;
use boids::components::{ClosenessThreshold, ForceWeights, SeparationDistance};
use boids::flock::{make_a_boid, AgentStore, BoidsBundle, FlockConfig, Stage};
use boids::neighbors::MAX_NEIGHBORS;
use boids::scene::{MainScene, SPAWN_HALF_HEIGHT, SPAWN_HALF_WIDTH};
use boids::vector::{Vec2, UNIT};

fn config() -> FlockConfig {
    let mut cfg = FlockConfig::default();
    cfg.bounds = CollisionBounds::new_rect(1000 * UNIT, 1000 * UNIT, 0);
    cfg
}

fn flock(cfg: FlockConfig, agents: &[((i64, i64), (i64, i64))]) -> BoidsBundle {
    let mut b = BoidsBundle::new(cfg);
    for &((px, py), (vx, vy)) in agents {
        b.spawn(Vec2::new(px, py), Vec2::new(vx, vy));
    }
    b
}

fn dist_sq(a: Vec2, b: Vec2) -> i128 {
    let dx = (a.x - b.x) as i128;
    let dy = (a.y - b.y) as i128;
    dx * dx + dy * dy
}

#[test]
fn two_close_agents_push_each_other_apart() {
    let mut cfg = config();
    cfg.closeness = ClosenessThreshold(10 * UNIT);
    cfg.separation = SeparationDistance(2 * UNIT);
    let mut b = flock(cfg, &[((0, 0), (0, UNIT)), ((UNIT, 0), (0, UNIT))]);
    b.advance();
    assert_eq!(b.store.closest[0].0, vec![1]);
    assert_eq!(b.store.closest[1].0, vec![0]);
    let s0 = b.store.separation[0].0;
    let s1 = b.store.separation[1].0;
    assert_eq!(s0, Vec2::new(-UNIT, 0));
    assert_eq!(s1, Vec2::new(UNIT, 0));
    assert!(s0.x < 0 && s1.x > 0 && s0.y == 0 && s1.y == 0);
}

#[test]
fn agent_heading_out_of_bounds_is_pulled_back() {
    let mut cfg = FlockConfig::default();
    cfg.bounds = CollisionBounds::new_rect(10 * UNIT, 10 * UNIT, 0);
    let mut b = flock(cfg, &[((4 * UNIT, 0), (10 * UNIT, 0))]);
    b.advance();
    let f = b.store.collision[0].0;
    assert_eq!(f, Vec2::new(-9 * UNIT, 0));
    assert!(f.x < 0);
}

#[test]
fn cohesion_alone_draws_three_agents_together() {
    let mut cfg = config();
    let mut w = ForceWeights::zero();
    w.cohesion = ForceWeights::default().cohesion;
    cfg.weights = w;
    let mut b = flock(cfg, &[((0, 0), (0, 0)), ((6 * UNIT, 0), (0, 0)), ((3 * UNIT, 5 * UNIT), (0, 0))]);
    let centroid = Vec2::new(196608, 109226);
    let mut last: Vec<i128> = (0..3).map(|i| dist_sq(b.store.pos[i].0, centroid)).collect();
    let start = last.clone();
    for _ in 0..60 {
        b.advance();
        for i in 0..3 {
            let d = dist_sq(b.store.pos[i].0, centroid);
            assert!(d <= last[i]);
            last[i] = d;
        }
    }
    for i in 0..3 {
        assert!(last[i] < start[i]);
    }
    assert_eq!(b.store.pos[0].0, Vec2::new(57275, 31766));
    assert_eq!(b.store.pos[2].0, Vec2::new(196608, 262160));
}

#[test]
fn first_tick_of_cohesion_matches_hand_computation() {
    let mut cfg = config();
    let mut w = ForceWeights::zero();
    w.cohesion = 1638;
    cfg.weights = w;
    let mut b = flock(cfg, &[((0, 0), (0, 0)), ((6 * UNIT, 0), (0, 0)), ((3 * UNIT, 5 * UNIT), (0, 0))]);
    b.advance();
    assert_eq!(b.store.vel[0].0, Vec2::new(57288, 31827));
    assert_eq!(b.store.vel[1].0, Vec2::new(-57288, 31827));
    assert_eq!(b.store.vel[2].0, Vec2::new(0, -UNIT));
    assert_eq!(b.store.pos[0].0, Vec2::new(954, 530));
    assert_eq!(b.store.pos[1].0, Vec2::new(392262, 530));
    assert_eq!(b.store.pos[2].0, Vec2::new(196608, 326588));
}

#[test]
fn neighbour_lists_stay_bounded_over_ticks() {
    let agents: Vec<((i64, i64), (i64, i64))> =
        (0..12).map(|k| ((k * UNIT / 4, (k % 3) * UNIT / 5), (UNIT, k * 100))).collect();
    let mut b = flock(config(), &agents);
    for _ in 0..5 {
        b.advance();
        for i in 0..12 {
            let ns = &b.store.closest[i].0;
            assert!(ns.len() <= MAX_NEIGHBORS);
            assert!(!ns.contains(&i));
        }
    }
    assert_eq!(b.store.closest[0].0.len(), 8);
}

#[test]
fn headings_have_unit_length_after_a_tick() {
    let agents = [((0, 0), (UNIT + 12345, -777)), ((UNIT, UNIT), (3, -7)), ((-UNIT, 2 * UNIT), (5 * UNIT, 4 * UNIT))];
    let mut b = flock(config(), &agents);
    b.advance();
    let u = UNIT as i128;
    for i in 0..3 {
        let v = b.store.vel[i].0;
        let n = (v.x as i128) * (v.x as i128) + (v.y as i128) * (v.y as i128);
        assert!(n <= u * u);
        assert!(n > u * u - 4 * u - 2);
    }
}

#[test]
fn lonely_agents_feel_no_cohesion_or_alignment() {
    let mut b = flock(config(), &[((0, 0), (UNIT, 0)), ((50 * UNIT, 0), (0, UNIT))]);
    b.advance();
    for i in 0..2 {
        assert!(b.store.closest[i].0.is_empty());
        assert_eq!(b.store.cohesion[i].0, Vec2::zeros());
        assert_eq!(b.store.alignment[i].0, Vec2::zeros());
    }
}

#[test]
fn collision_force_zero_inside_and_on_the_edge() {
    let mut cfg = FlockConfig::default();
    cfg.bounds = CollisionBounds::new_rect(10 * UNIT, 10 * UNIT, 0);
    let mut b = flock(cfg, &[((0, 0), (UNIT, UNIT)), ((4 * UNIT, 30 * UNIT), (UNIT, -25 * UNIT)), ((-4 * UNIT, -30 * UNIT), (-2 * UNIT, 0))]);
    b.advance();
    assert_eq!(b.store.collision[0].0, Vec2::zeros());
    assert_eq!(b.store.collision[1].0, Vec2::zeros());
    let f = b.store.collision[2].0;
    assert_eq!(f, Vec2::new(UNIT, 25 * UNIT));
    assert!(f.x > 0 && f.y > 0);
}

#[test]
fn centre_is_mean_after_every_tick() {
    let mut b = flock(config(), &[((UNIT, 2 * UNIT), (UNIT, 0)), ((4 * UNIT, 5 * UNIT), (0, UNIT)), ((7 * UNIT, -UNIT), (-UNIT, 0))]);
    assert_eq!(b.read_flock_centre(), None);
    b.advance();
    assert_eq!(b.read_flock_centre(), Some(Vec2::new(4 * UNIT, 2 * UNIT)));
    let poses = b.read_all_poses();
    let sx: i64 = poses.iter().map(|p| p.1.x).sum();
    let sy: i64 = poses.iter().map(|p| p.1.y).sum();
    b.advance();
    assert_eq!(b.read_flock_centre(), Some(Vec2::new(sx / 3, sy / 3)));
}

#[test]
fn centre_of_empty_flock_is_origin() {
    let mut b = BoidsBundle::new(FlockConfig::default());
    assert_eq!(b.read_flock_centre(), None);
    b.advance();
    assert_eq!(b.read_flock_centre(), Some(Vec2::zeros()));
}

#[test]
fn weightless_tick_keeps_heading_and_moves_by_velocity() {
    let mut cfg = FlockConfig::default();
    cfg.weights = ForceWeights::zero();
    let mut b = flock(cfg, &[((0, 0), (UNIT, 0)), ((UNIT, 0), (0, -UNIT)), ((UNIT, UNIT), (3 * UNIT, 4 * UNIT))]);
    b.advance();
    assert_eq!(b.read_pose(0), Some((Vec2::new(1092, 0), Vec2::new(UNIT, 0))));
    assert_eq!(b.read_pose(1), Some((Vec2::new(UNIT, -1092), Vec2::new(0, -UNIT))));
    assert_eq!(b.read_pose(2), Some((Vec2::new(UNIT + 655, UNIT + 873), Vec2::new(39321, 52428))));
    assert_eq!(b.read_pose(3), None);
}

#[test]
fn stages_run_in_order() {
    let mut b = flock(config(), &[((0, 0), (UNIT, 0)), ((UNIT, 0), (0, UNIT))]);
    assert_eq!(b.stage, Stage::Settled);
    b.stage = Stage::NeighborDiscovery;
    b.run_stage();
    assert_eq!(b.stage, Stage::ComputeForces);
    assert_eq!(b.store.closest[0].0, vec![1]);
    assert_eq!(b.store.vel[0].0, Vec2::new(UNIT, 0));
    b.run_stage();
    assert_eq!(b.stage, Stage::ComposeVelocity);
    assert_eq!(b.store.pos[0].0, Vec2::zeros());
    b.run_stage();
    assert_eq!(b.stage, Stage::IntegratePosition);
    assert_eq!(b.store.pos[0].0, Vec2::zeros());
    b.run_stage();
    assert_eq!(b.stage, Stage::Settled);
    b.run_stage();
    assert_eq!(b.stage, Stage::Settled);
    assert_eq!(Stage::ComposeVelocity.next(), Stage::IntegratePosition);
}

#[test]
fn readiness_checks_ranges() {
    let mut b = flock(config(), &[((0, 0), (UNIT, 0))]);
    assert!(b.is_ready());
    b.spawn(Vec2::new(i64::MAX, 0), Vec2::zeros());
    assert!(!b.is_ready());
    let mut c = BoidsBundle::new(config());
    c.config.tick_rate.0 = 0;
    assert!(!c.is_ready());
}

#[test]
fn spawned_agents_start_without_neighbours_or_forces() {
    let mut store = AgentStore::new();
    let id = make_a_boid(&mut store, boids::components::Pos(Vec2::new(1, 2)), boids::components::Vel(Vec2::new(3, 4)));
    assert_eq!(id, 0);
    assert!(store.closest[0].0.is_empty());
    assert_eq!(store.separation[0].0, Vec2::zeros());
    assert_eq!(store.collision[0].0, Vec2::zeros());
    let mut b = BoidsBundle::new(FlockConfig::default());
    assert_eq!(b.spawn(Vec2::new(5, 6), Vec2::new(7, 8)), 0);
    assert_eq!(b.spawn(Vec2::new(9, 10), Vec2::new(11, 12)), 1);
    assert_eq!(b.read_all_poses(), vec![(0, Vec2::new(5, 6), Vec2::new(7, 8)), (1, Vec2::new(9, 10), Vec2::new(11, 12))]);
}

#[test]
fn scene_scatters_twenty_agents() {
    let scene = MainScene::new();
    let mut b = BoidsBundle::new(FlockConfig::default());
    scene.on_start(&mut b);
    assert_eq!(b.config.closeness.0, 50 * UNIT);
    assert_eq!(b.config.separation.0, 2 * UNIT);
    let poses = b.read_all_poses();
    assert_eq!(poses.len(), 20);
    for (_, p, v) in &poses {
        assert!(-SPAWN_HALF_WIDTH <= p.x && p.x < SPAWN_HALF_WIDTH);
        assert!(-SPAWN_HALF_HEIGHT <= p.y && p.y < SPAWN_HALF_HEIGHT);
        assert!(-SPAWN_HALF_HEIGHT <= v.x && v.x < SPAWN_HALF_HEIGHT);
        assert!(-SPAWN_HALF_HEIGHT <= v.y && v.y < SPAWN_HALF_HEIGHT);
    }
    assert!(poses.iter().any(|(_, p, _)| p.x != poses[0].1.x));
    assert!(b.is_ready());
    b.advance();
}

#[test]
fn spawning_keeps_existing_agents_state() {
    let mut cfg = config();
    cfg.separation = SeparationDistance(2 * UNIT);
    let mut b = flock(cfg, &[((0, 0), (0, UNIT)), ((UNIT, 0), (0, UNIT))]);
    b.advance();
    let sep: Vec<Vec2> = b.store.separation.iter().map(|s| s.0).collect();
    let coh: Vec<Vec2> = b.store.cohesion.iter().map(|s| s.0).collect();
    let ali: Vec<Vec2> = b.store.alignment.iter().map(|s| s.0).collect();
    let col: Vec<Vec2> = b.store.collision.iter().map(|s| s.0).collect();
    let id = b.spawn(Vec2::new(3, 3), Vec2::new(1, 0));
    assert_eq!(id, 2);
    for i in 0..2 {
        assert_eq!(b.store.separation[i].0, sep[i]);
        assert_eq!(b.store.cohesion[i].0, coh[i]);
        assert_eq!(b.store.alignment[i].0, ali[i]);
        assert_eq!(b.store.collision[i].0, col[i]);
    }
    assert_eq!(b.store.closest[0].0, vec![1]);
    assert!(b.store.closest[2].0.is_empty());
    assert_eq!(b.store.separation[2].0, Vec2::zeros());
    assert_eq!(b.store.collision[2].0, Vec2::zeros());
}

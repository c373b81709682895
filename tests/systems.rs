use boids::bounds::{CollisionAvoidance, CollisionBounds};
use boids::centre::CentreOfFlock;
use boids::components::{
    AlignmentVector, ClosenessThreshold, Closest, CohesionVector, CollisionVector, ForceWeights,
    Pos, SeparationDistance, SeparationVector, TickRate, Vel,
};
use boids::integrate::{ApplyAdjustments, Movement};
use boids::neighbors::{ComputeClose, MAX_NEIGHBORS};
use boids::steering::{Alignment, Cohesion, Separation};
use boids::vector::{normalize, Vec2, UNIT};

fn pos(x: i64, y: i64) -> Pos {
    Pos(Vec2::new(x, y))
}

fn vel(x: i64, y: i64) -> Vel {
    Vel(Vec2::new(x, y))
}

fn lists(posdata: &Vec<Pos>, radius: i64) -> Vec<Closest> {
    let mut closedata = Vec::new();
    ComputeClose.run(posdata, &mut closedata, &ClosenessThreshold(radius));
    closedata
}

#[test]
fn normalize_three_four_five() {
    assert_eq!(normalize(Vec2::new(3 * UNIT, 4 * UNIT)), Vec2::new(39321, 52428));
    assert_eq!(normalize(Vec2::new(-5, 12)), Vec2::new(-25206, 60494));
    assert_eq!(normalize(Vec2::new(1, 1)), Vec2::new(46340, 46340));
    assert_eq!(normalize(Vec2::new(0, -7)), Vec2::new(0, -UNIT));
    assert_eq!(normalize(Vec2::zeros()), Vec2::zeros());
}

#[test]
fn neighbours_keep_store_order_and_stop_at_eight() {
    let posdata: Vec<Pos> = (0..12).map(|k| pos(k * UNIT, 0)).collect();
    let closedata = lists(&posdata, 100 * UNIT);
    assert_eq!(closedata.len(), 12);
    assert_eq!(closedata[0].0, vec![1, 2, 3, 4, 5, 6, 7, 8]);
    assert_eq!(closedata[3].0, vec![0, 1, 2, 4, 5, 6, 7, 8]);
    assert_eq!(closedata[11].0, vec![0, 1, 2, 3, 4, 5, 6, 7]);
    for (i, c) in closedata.iter().enumerate() {
        assert!(c.0.len() <= MAX_NEIGHBORS);
        assert!(!c.0.contains(&i));
    }
}

#[test]
fn neighbours_within_radius_inclusive() {
    let posdata = vec![pos(0, 0), pos(3 * UNIT, 4 * UNIT), pos(0, 6 * UNIT)];
    let closedata = lists(&posdata, 5 * UNIT);
    assert_eq!(closedata[0].0, vec![1]);
    assert_eq!(closedata[1].0, vec![0, 2]);
    assert_eq!(closedata[2].0, vec![1]);
    let none = lists(&posdata, -1);
    assert!(none.iter().all(|c| c.0.is_empty()));
}

#[test]
fn neighbours_of_empty_and_single_flock() {
    assert!(lists(&Vec::new(), UNIT).is_empty());
    let single = lists(&vec![pos(1, 1)], 10 * UNIT);
    assert!(single[0].0.is_empty());
}

#[test]
fn centre_is_mean_rounded_towards_zero() {
    let posdata = vec![pos(UNIT, 2 * UNIT), pos(4 * UNIT, 5 * UNIT), pos(7 * UNIT, -UNIT)];
    assert_eq!(CentreOfFlock::mean_of(&posdata), Vec2::new(4 * UNIT, 2 * UNIT));
    let odd = vec![pos(-1, 1), pos(-2, 2)];
    assert_eq!(CentreOfFlock::mean_of(&odd), Vec2::new(-1, 1));
    let mut centre = None;
    CentreOfFlock.run(&Vec::new(), &mut centre);
    assert_eq!(centre.map(|c| c.0), Some(Vec2::zeros()));
}

#[test]
fn separation_sums_pushes_within_distance() {
    let posdata = vec![pos(0, 0), pos(UNIT, 0), pos(0, UNIT), pos(0, 5 * UNIT)];
    let closedata = lists(&posdata, 10 * UNIT);
    let mut sepdata = Vec::new();
    Separation.run(&SeparationDistance(2 * UNIT), &closedata, &posdata, &mut sepdata);
    assert_eq!(sepdata[0].0, Vec2::new(-UNIT, -UNIT));
    assert_eq!(sepdata[1].0, Vec2::new(2 * UNIT, -UNIT));
    assert_eq!(sepdata[3].0, Vec2::zeros());
}

#[test]
fn cohesion_is_unit_vector_towards_centroid() {
    let posdata = vec![pos(0, 0), pos(3 * UNIT, 4 * UNIT), pos(100 * UNIT, 0)];
    let closedata = lists(&posdata, 10 * UNIT);
    let mut cohdata = vec![CohesionVector(Vec2::new(5, 5)); 3];
    Cohesion.run(&closedata, &posdata, &mut cohdata);
    assert_eq!(cohdata[0].0, Vec2::new(39321, 52428));
    assert_eq!(cohdata[1].0, Vec2::new(-39321, -52428));
    assert_eq!(cohdata[2].0, Vec2::zeros());
}

#[test]
fn alignment_is_mean_heading_less_own() {
    let posdata = vec![pos(0, 0), pos(UNIT, 0), pos(2 * UNIT, 0), pos(90 * UNIT, 0)];
    let veldata = vec![vel(UNIT, 0), vel(0, UNIT), vel(0, 3 * UNIT), vel(7, 7)];
    let closedata = lists(&posdata, 10 * UNIT);
    let mut alidata = vec![AlignmentVector(Vec2::new(1, 1)); 4];
    Alignment.run(&closedata, &veldata, &mut alidata);
    assert_eq!(alidata[0].0, Vec2::new(-UNIT, 2 * UNIT));
    assert_eq!(alidata[1].0, Vec2::new(UNIT / 2, UNIT / 2));
    assert_eq!(alidata[3].0, Vec2::zeros());
}

#[test]
fn rectangle_constructors() {
    let b = CollisionBounds::new_rect(10 * UNIT, 6 * UNIT, 3);
    assert_eq!((b.x_min, b.x_max, b.y_min, b.y_max, b.threshold), (-5 * UNIT, 5 * UNIT, -3 * UNIT, 3 * UNIT, 3));
    let c = CollisionBounds::new_rect_origin(4, 2, (10, -10), 0);
    assert_eq!((c.x_min, c.x_max, c.y_min, c.y_max), (8, 12, -11, -9));
}

#[test]
fn closest_boxpoint_clamps_each_axis() {
    let b = CollisionBounds::new_rect(10, 10, 0);
    assert_eq!(b.closest_boxpoint(&Vec2::new(0, 0)), None);
    assert_eq!(b.closest_boxpoint(&Vec2::new(5, 0)), None);
    assert_eq!(b.closest_boxpoint(&Vec2::new(9, -8)), Some(Vec2::new(5, -5)));
    assert_eq!(b.closest_boxpoint(&Vec2::new(-6, 2)), Some(Vec2::new(-5, 2)));
}

#[test]
fn collision_avoidance_runs_per_agent_in_order() {
    let b = CollisionBounds::new_rect(10 * UNIT, 10 * UNIT, 0);
    let posdata = vec![pos(0, 0), pos(4 * UNIT, 0), pos(0, -4 * UNIT), pos(4 * UNIT, 4 * UNIT)];
    let veldata = vec![vel(UNIT, 0), vel(10 * UNIT, 0), vel(0, -3 * UNIT), vel(2 * UNIT, 3 * UNIT)];
    let mut collisiondata: Vec<CollisionVector> = Vec::new();
    CollisionAvoidance.run(&posdata, &veldata, &mut collisiondata, &b);
    let got: Vec<Vec2> = collisiondata.iter().map(|c| c.0).collect();
    assert_eq!(
        got,
        vec![Vec2::zeros(), Vec2::new(-9 * UNIT, 0), Vec2::new(0, 2 * UNIT), Vec2::new(-UNIT, -2 * UNIT)]
    );
}

#[test]
fn apply_adjustments_weights_and_normalises() {
    let mut veldata = vec![vel(UNIT, 0), vel(0, 0), vel(3, 4)];
    let z = Vec2::zeros();
    let sepdata = vec![SeparationVector(z), SeparationVector(z), SeparationVector(z)];
    let cohdata = vec![CohesionVector(Vec2::new(0, UNIT)), CohesionVector(z), CohesionVector(z)];
    let alidata = vec![AlignmentVector(z), AlignmentVector(z), AlignmentVector(Vec2::new(-6, -8))];
    let collidedata = vec![CollisionVector(z), CollisionVector(z), CollisionVector(z)];
    ApplyAdjustments.run(&mut veldata, &sepdata, &cohdata, &alidata, &collidedata, &ForceWeights::default());
    assert_eq!(veldata[0].0, Vec2::new(65515, 1637));
    assert_eq!(veldata[1].0, Vec2::zeros());
    // 3 + (-6 / 2) and 4 + (-8 / 2) cancel: the velocity stays as it was.
    assert_eq!(veldata[2].0, Vec2::new(3, 4));
}

#[test]
fn movement_adds_velocity_over_one_tick() {
    let veldata = vec![vel(UNIT, 0), vel(-120, 59)];
    let mut posdata = vec![pos(0, 0), pos(10, 10)];
    Movement.run(&veldata, &mut posdata, &TickRate(60));
    assert_eq!(posdata[0].0, Vec2::new(1092, 0));
    assert_eq!(posdata[1].0, Vec2::new(8, 10));
}

#[test]
fn default_settings() {
    assert_eq!(ClosenessThreshold::default().0, 10 * UNIT);
    assert_eq!(SeparationDistance::default().0, 0);
    assert_eq!(TickRate::default().0, 60);
    let w = ForceWeights::default();
    assert_eq!((w.separation, w.cohesion, w.alignment, w.collision), (UNIT, 1638, UNIT / 2, UNIT));
    let b = CollisionBounds::default();
    assert_eq!((b.x_min, b.x_max, b.y_min, b.y_max, b.threshold), (0, 0, 0, 0, 0));
}

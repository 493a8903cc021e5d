use arcade_core::boids::{
    alignment, atan2_tdeg, cohesion, flock_center, flock_step, is_bird_nearby, nearby_birds,
    separation, Bird,
};
use arcade_core::geom::Vec2;

#[test]
fn bearings_at_the_axes() {
    assert_eq!(atan2_tdeg(0, 100), 0);
    assert_eq!(atan2_tdeg(100, 0), 900);
    assert_eq!(atan2_tdeg(0, -100), 1800);
    assert_eq!(atan2_tdeg(-100, 0), 2700);
    assert_eq!(atan2_tdeg(100, 100), 450);
    assert_eq!(atan2_tdeg(0, 0), 0);
}

#[test]
fn bearings_stay_normalised() {
    let probes: [(i32, i32); 8] = [
        (1, 1000),
        (1000, 1),
        (-1, 1000),
        (1000, -1),
        (-1000, -1),
        (-1, -1000),
        (7, -3),
        (-500000, 250000),
    ];
    for (y, x) in probes {
        let a = atan2_tdeg(y, x);
        assert!((0..3600).contains(&a));
    }
}

#[test]
fn a_new_bird_aims_straight_up() {
    let b = Bird::new(Vec2 { x: 1000, y: -2000 });
    assert_eq!(b.angle(), 900);
    assert_eq!(b.position(), Vec2 { x: 1000, y: -2000 });
    assert_eq!(b.radius(), 90000);
    assert_eq!(b.separation_radius(), 45000);
}

#[test]
fn setters_store_each_heading() {
    let mut b = Bird::new(Vec2 { x: 0, y: 0 });
    b.set_rotation(100);
    assert_eq!(b.angle(), 100);
    b.set_separation(200);
    b.set_alignment(300);
    b.set_cohesion(400);
    // the steering setters leave the drawn heading alone
    assert_eq!(b.angle(), 100);
}

#[test]
fn a_default_bird_drifts_left_and_turns_around() {
    // all three steering headings point up, so each step is
    // (-20, 0): the bird lands at (-60, 0), and its bearing from
    // the origin flips from 0 to a half turn
    let mut b = Bird::new(Vec2 { x: 0, y: 0 });
    b.update();
    assert_eq!(b.position(), Vec2 { x: -60, y: 0 });
    assert_eq!(b.angle(), 1800);
}

#[test]
fn birds_wrap_at_the_window() {
    let mut b = Bird::new(Vec2 { x: -319960, y: 0 });
    b.update();
    assert_eq!(b.position(), Vec2 { x: 319980, y: 0 });
}

#[test]
fn the_watch_radius_is_inclusive() {
    let a = Bird::new(Vec2 { x: 0, y: 0 });
    let near = Bird::new(Vec2 { x: 0, y: 90000 });
    let far = Bird::new(Vec2 { x: 0, y: 90001 });
    assert!(is_bird_nearby(&a, &near));
    assert!(!is_bird_nearby(&a, &far));
}

#[test]
fn neighbours_exclude_the_bird_itself() {
    let birds = vec![
        Bird::new(Vec2 { x: 0, y: 0 }),
        Bird::new(Vec2 { x: 0, y: 50000 }),
        Bird::new(Vec2 { x: 0, y: 200000 }),
    ];
    let nearby = nearby_birds(&birds, 0);
    assert_eq!(nearby.len(), 1);
    assert_eq!(nearby[0].position(), Vec2 { x: 0, y: 50000 });
}

#[test]
fn the_flock_centre_is_the_coordinate_mean() {
    let birds = vec![
        Bird::new(Vec2 { x: 0, y: 0 }),
        Bird::new(Vec2 { x: 100, y: 50 }),
    ];
    assert_eq!(flock_center(&birds), Vec2 { x: 50, y: 25 });
}

#[test]
fn cohesion_aims_at_the_flock_and_separation_away() {
    let birds = vec![
        Bird::new(Vec2 { x: 100, y: 0 }),
        Bird::new(Vec2 { x: 300, y: 0 }),
    ];
    assert_eq!(cohesion(&birds), 0);
    assert_eq!(separation(&birds), 1800);
}

#[test]
fn alignment_averages_the_headings() {
    let mut one = Bird::new(Vec2 { x: 0, y: 0 });
    let mut two = Bird::new(Vec2 { x: 0, y: 0 });
    one.set_rotation(800);
    two.set_rotation(1000);
    assert_eq!(alignment(&vec![one, two]), 900);
}

#[test]
fn the_whole_flock_steps_together() {
    let mut birds = vec![
        Bird::new(Vec2 { x: 0, y: 0 }),
        Bird::new(Vec2 { x: 0, y: 50000 }),
    ];
    flock_step(&mut birds);
    assert_eq!(birds[0].position(), Vec2 { x: -60, y: 0 });
    assert_eq!(birds[1].position(), Vec2 { x: -60, y: 50000 });
}

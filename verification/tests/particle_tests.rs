use rocket_planets::geom::Vec2i;
use rocket_planets::particle::{step_all, Particle};

#[test]
fn smoke_fields_and_ranges() {
    let pos = Vec2i::new(1_000, 2_000);
    let vel = Vec2i::new(-300, 400);
    let p = Particle::random_smoke(pos, vel);
    assert_eq!(p.pos, pos);
    assert_eq!(p.vel, vel);
    assert!(0 <= p.rotation && p.rotation < 360_000);
    assert!(300 <= p.time_left && p.time_left < 400);
    assert_eq!(p.size, 5_000);
    assert_eq!(p.thickness, 2_000);
}

#[test]
fn star_fields_and_ranges() {
    let pos = Vec2i::new(-5_000, 7_000);
    let p = Particle::star(pos, 1_500);
    assert_eq!(p.pos, pos);
    assert_eq!(p.vel, Vec2i { x: 0, y: 0 });
    assert!(0 <= p.rotation && p.rotation < 360_000);
    assert!(1_000 <= p.time_left && p.time_left < 3_000);
    assert_eq!(p.thickness, 1_500);
    assert_eq!(p.size, 3_000);
}

#[test]
fn random_draws_vary() {
    macroquad::rand::srand(42);
    let pos = Vec2i::new(0, 0);
    let vel = Vec2i::new(0, 0);
    let mut rotations = Vec::new();
    for _ in 0..100 {
        rotations.push(Particle::random_smoke(pos, vel).rotation);
    }
    let first = rotations[0];
    assert!(rotations.iter().any(|r| *r != first));
}

fn plain_particle(pos: Vec2i, vel: Vec2i, time_left: i64) -> Particle {
    Particle { pos, vel, rotation: 0, time_left, size: 5_000, thickness: 2_000 }
}

#[test]
fn step_drifts_and_ages() {
    let mut ps = vec![plain_particle(Vec2i::new(0, 1_000), Vec2i::new(500, -2_000), 400)];
    step_all(&mut ps, 100);
    assert_eq!(ps.len(), 1);
    let p = ps[0];
    assert_eq!(p.pos, Vec2i { x: 50, y: 800 });
    assert_eq!(p.vel, Vec2i { x: 500, y: -2_000 });
    assert_eq!(p.rotation, 10_000);
    assert_eq!(p.time_left, 300);
}

#[test]
fn step_bounces_off_the_ground() {
    let mut ps = vec![plain_particle(Vec2i::new(0, 100), Vec2i::new(0, -5_000), 400)];
    step_all(&mut ps, 30);
    // The particle crossed y = 0: its vertical velocity flips and its
    // lifetime is cut to the bounce window, already partly spent.
    assert_eq!(ps.len(), 1);
    let p = ps[0];
    assert_eq!(p.pos, Vec2i { x: 0, y: -50 });
    assert_eq!(p.vel, Vec2i { x: 0, y: 5_000 });
    assert_eq!(p.rotation, 3_000);
    assert_eq!(p.time_left, 20);
}

#[test]
fn expired_particles_are_removed() {
    let mut ps = vec![
        plain_particle(Vec2i::new(0, 10_000), Vec2i::new(0, 0), 400),
        plain_particle(Vec2i::new(1, 10_000), Vec2i::new(0, 0), 90),
        plain_particle(Vec2i::new(2, 10_000), Vec2i::new(0, 0), 5_000),
    ];
    step_all(&mut ps, 100);
    assert_eq!(ps.len(), 2);
    assert_eq!(ps[0].pos.x, 0);
    assert_eq!(ps[0].time_left, 300);
    assert_eq!(ps[1].pos.x, 2);
    assert_eq!(ps[1].time_left, 4_900);
    assert!(ps.iter().all(|p| p.time_left > 0));
}

#[test]
fn bounced_particle_expires_quickly() {
    // A grounded particle's lifetime is capped at the bounce window, so
    // one more long step removes it.
    let mut ps = vec![plain_particle(Vec2i::new(0, 0), Vec2i::new(0, 0), 4_000)];
    step_all(&mut ps, 100);
    assert_eq!(ps.len(), 0);
}

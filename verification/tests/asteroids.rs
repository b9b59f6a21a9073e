use asteroids_sim::asteroids::{
    asteroids_scale_with_health, collision_damage_from_health, confine_once_in_play_area,
    random_2d_unit_vector, random_spawn_point, scale_from_health, spawn_asteroid,
    spawn_asteroid_from, spawn_point_along, AsteroidBundle, AsteroidDraw, SpawnTimer,
};
use asteroids_sim::collision::{try_damage, Collider, CollisionDamage};
use asteroids_sim::health::Health;
use asteroids_sim::movement::{Acceleration, AngularVelocity, Transform, Velocity};
use asteroids_sim::timer::{Mode, Timer};
use asteroids_sim::vec3::Vec3;
use asteroids_sim::world::{Components, World};

fn rock(at: Vec3, health: i32) -> AsteroidBundle {
    AsteroidBundle::new(
        at,
        Velocity::new(Vec3::zero()),
        Acceleration::new(Vec3::zero()),
        AngularVelocity::new(Vec3::zero()),
        health,
    )
}

fn draw() -> AsteroidDraw {
    AsteroidDraw {
        position: Vec3::new(100_000, 0, 0),
        target: Vec3::new(0, 0, 1_000),
        drift: Vec3::new(1_000, 0, 0),
        spin: Vec3::new(600, 0, 800),
        health: 15_000,
    }
}

#[test]
fn scale_is_a_fifteenth_of_health_and_one() {
    assert_eq!(scale_from_health(15_000), 2_000);
    assert_eq!(scale_from_health(5_000), 1_333);
    assert_eq!(scale_from_health(0), 1_000);
    assert_eq!(scale_from_health(-15_000), 0);
    assert_eq!(scale_from_health(-7), 1_000);
}

#[test]
fn damage_is_health() {
    assert_eq!(collision_damage_from_health(12_345), 12_345);
    assert_eq!(collision_damage_from_health(-1), -1);
}

#[test]
fn new_asteroid_has_scale_and_damage_of_its_health() {
    let b = rock(Vec3::new(100_000, 0, 0), 15_000);
    assert_eq!(b.health, Health { value: 15_000 });
    assert_eq!(b.collision_damage, CollisionDamage { amount: 15_000 });
    assert_eq!(b.moving_object_bundle.transform.scale, Vec3::splat(2_000));
    assert_eq!(b.moving_object_bundle.transform.translation, Vec3::new(100_000, 0, 0));
    assert_eq!(b.moving_object_bundle.collider, Collider::Ball { radius: 2_500 });
    let c = b.into_components();
    assert!(c.asteroid.is_some());
    assert!(c.despawn_on_die.is_some());
    assert!(c.active_events.is_some());
    assert!(c.confined.is_none());
    assert!(c.health_changed);
    assert_eq!(c.health, Some(Health { value: 15_000 }));
    assert_eq!(c.collision_damage, Some(CollisionDamage { amount: 15_000 }));
}

#[test]
fn scale_and_damage_follow_a_change_of_health() {
    let mut world = World::new();
    let a = world.spawn(rock(Vec3::zero(), 15_000).into_components());
    let mut c = Components::new(Transform::from_translation(Vec3::zero()));
    c.collision_damage = Some(CollisionDamage::new(6_000));
    let missile = world.spawn(c);
    try_damage(missile, a, &mut world);
    asteroids_scale_with_health(&mut world);
    let after = world.get(a).unwrap();
    assert_eq!(after.health, Some(Health { value: 9_000 }));
    assert_eq!(after.collision_damage, Some(CollisionDamage { amount: 9_000 }));
    assert_eq!(after.transform.scale, Vec3::splat(1_600));
    assert_eq!(world.get(missile), Some(c));
}

#[test]
fn rescaling_leaves_the_unchanged_alone() {
    let mut world = World::new();
    let mut c = rock(Vec3::zero(), 15_000).into_components();
    c.health_changed = false;
    c.collision_damage = Some(CollisionDamage::new(1));
    let a = world.spawn(c);
    asteroids_scale_with_health(&mut world);
    assert_eq!(world.get(a), Some(c));
}

#[test]
fn asteroid_is_confined_once_it_is_inside() {
    let mut world = World::new();
    let out = world.spawn(rock(Vec3::new(50_001, 0, 0), 5_000).into_components());
    let edge = world.spawn(rock(Vec3::new(30_000, 0, 40_000), 5_000).into_components());
    let other = world.spawn(Components::new(Transform::from_translation(Vec3::zero())));
    confine_once_in_play_area(&mut world);
    assert!(world.get(out).unwrap().confined.is_none());
    assert!(world.get(edge).unwrap().confined.is_some());
    assert!(world.get(other).unwrap().confined.is_none());
    confine_once_in_play_area(&mut world);
    assert!(world.get(edge).unwrap().confined.is_some());
}

#[test]
fn spawn_timer_repeats_every_two_and_a_half_seconds() {
    assert_eq!(
        SpawnTimer::new().timer,
        Timer { elapsed: 0, period: 2_500_000_000, mode: Mode::Repeating, finished: false, completions: 0 }
    );
}

#[test]
fn drawn_direction_has_length_one_or_none() {
    let mut rng = rand::thread_rng();
    for _ in 0..200 {
        let u = random_2d_unit_vector(&mut rng);
        assert_eq!(u.y, 0);
        let n = u.length_squared();
        assert!(n == 0 || (996 * 996 < n && n <= 1_000_031), "{:?}", u);
    }
}

#[test]
fn direction_gives_a_place_only_if_far_enough() {
    assert_eq!(spawn_point_along(Vec3::new(600, 0, -800)), Some(Vec3::new(60_000, 0, -80_000)));
    assert_eq!(spawn_point_along(Vec3::zero()), None);
    assert_eq!(spawn_point_along(Vec3::new(750, 0, 0)), None);
    assert_eq!(spawn_point_along(Vec3::new(751, 0, 0)), Some(Vec3::new(75_100, 0, 0)));
}

#[test]
fn drawn_place_is_outside_the_margin() {
    let mut rng = rand::thread_rng();
    for _ in 0..200 {
        let p = random_spawn_point(&mut rng);
        assert_eq!(p.y, 0);
        assert!(p.length_squared() > 75_000 * 75_000);
        assert!(p.length_squared() <= 100_002 * 100_002);
    }
}

#[test]
fn drawn_asteroid_has_health_in_range() {
    let mut rng = rand::thread_rng();
    for _ in 0..200 {
        let d = AsteroidDraw::random(&mut rng);
        assert!((5_000..20_000).contains(&d.health));
        assert!(d.position.length_squared() > 75_000 * 75_000);
    }
}

#[test]
fn asteroid_flies_toward_its_target() {
    let b = draw().into_asteroid();
    let m = b.moving_object_bundle;
    assert_eq!(m.transform.translation, Vec3::new(100_000, 0, 0));
    assert_eq!(m.velocity, Velocity { value: Vec3::new(-4_680, 0, 1_755) });
    assert_eq!(m.acceleration, Acceleration { value: Vec3::zero() });
    assert_eq!(m.angular_velocity, AngularVelocity { value: Vec3::new(600, 0, 800) });
    assert_eq!(b.health, Health { value: 15_000 });
    assert_eq!(m.transform.scale, Vec3::splat(2_000));
}

#[test]
fn asteroid_comes_when_the_timer_completes() {
    let mut world = World::new();
    let mut timer = SpawnTimer::new();
    assert_eq!(spawn_asteroid_from(&mut world, &mut timer, 2_499_999_999, &vec![draw()]), 0);
    assert_eq!(world.len(), 0);
    assert_eq!(spawn_asteroid_from(&mut world, &mut timer, 1, &vec![draw()]), 1);
    assert_eq!(world.get(0), Some(draw().into_asteroid().into_components()));
    assert_eq!(world.len(), 1);
    assert_eq!(timer.timer.elapsed, 0);
}

#[test]
fn one_asteroid_comes_for_each_completed_period() {
    let mut other = draw();
    other.position = Vec3::new(-100_000, 0, 0);
    other.health = 7_000;
    let mut world = World::new();
    let mut timer = SpawnTimer::new();
    assert_eq!(spawn_asteroid_from(&mut world, &mut timer, 5_000_000_000, &vec![draw(), other]), 2);
    assert_eq!(world.len(), 2);
    assert_eq!(world.get(0), Some(draw().into_asteroid().into_components()));
    assert_eq!(world.get(1), Some(other.into_asteroid().into_components()));
    let draws = vec![other, draw(), other, draw()];
    assert_eq!(spawn_asteroid_from(&mut world, &mut timer, 7_500_000_000, &draws), 3);
    assert_eq!(world.len(), 5);
    assert_eq!(world.get(2), Some(other.into_asteroid().into_components()));
    assert_eq!(world.get(3), Some(draw().into_asteroid().into_components()));
    assert_eq!(world.get(4), Some(other.into_asteroid().into_components()));
    assert_eq!(timer.timer.elapsed, 0);
}

#[test]
fn asteroids_stop_where_the_draws_run_out() {
    let mut world = World::new();
    let mut timer = SpawnTimer::new();
    assert_eq!(spawn_asteroid_from(&mut world, &mut timer, 7_500_000_000, &vec![draw()]), 1);
    assert_eq!(world.len(), 1);
    assert_eq!(spawn_asteroid_from(&mut world, &mut timer, 2_500_000_000, &vec![]), 0);
    assert_eq!(world.len(), 1);
}

#[test]
fn random_asteroid_is_outside_and_in_step() {
    let mut world = World::new();
    let mut timer = SpawnTimer::new();
    assert_eq!(spawn_asteroid(&mut world, &mut timer, 1_000_000_000), 0);
    assert_eq!(spawn_asteroid(&mut world, &mut timer, 1_500_000_000), 1);
    let c = world.get(0).unwrap();
    let h = c.health.unwrap().value;
    assert!((5_000..20_000).contains(&h));
    assert!(c.transform.translation.length_squared() > 75_000 * 75_000);
    assert_eq!(c.collision_damage, Some(CollisionDamage { amount: h }));
    assert_eq!(c.transform.scale, Vec3::splat(h / 15 + 1_000));
    let v = c.velocity.unwrap().value;
    assert!(v.length_squared() <= 5_001 * 5_001);
    assert!(c.asteroid.is_some());
}

#[test]
fn random_asteroids_come_one_for_each_completed_period() {
    let mut world = World::new();
    let mut timer = SpawnTimer::new();
    assert_eq!(spawn_asteroid(&mut world, &mut timer, 5_000_000_000), 2);
    assert_eq!(world.len(), 2);
    assert_eq!(spawn_asteroid(&mut world, &mut timer, 12_499_999_999), 4);
    assert_eq!(world.len(), 6);
    for e in 0..6 {
        let c = world.get(e).unwrap();
        assert!(c.asteroid.is_some() && c.active_collision_types.is_some());
        assert!(c.transform.translation.length_squared() > 75_000 * 75_000);
    }
}

#[test]
fn draws_are_not_all_the_same() {
    let mut rng = rand::thread_rng();
    let first = AsteroidDraw::random(&mut rng);
    let mut differs = false;
    for _ in 0..200 {
        let d = AsteroidDraw::random(&mut rng);
        differs = differs || d.health != first.health || d.position != first.position;
    }
    assert!(differs);
}

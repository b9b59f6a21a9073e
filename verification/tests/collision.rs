use asteroids_sim::collision::{
    apply_collision_damage, try_damage, Collider, CollisionDamage, CollisionEvent,
};
use asteroids_sim::health::Health;
use asteroids_sim::movement::Transform;
use asteroids_sim::vec3::Vec3;
use asteroids_sim::world::{Components, World};

fn bare() -> Components {
    Components::new(Transform::from_translation(Vec3::zero()))
}

fn with(damage: Option<i32>, health: Option<i32>) -> Components {
    let mut c = bare();
    c.collision_damage = damage.map(CollisionDamage::new);
    c.health = health.map(Health::new);
    c
}

#[test]
fn colliders_are_balls_and_boxes() {
    assert_eq!(Collider::ball(2_500), Collider::Ball { radius: 2_500 });
    assert_eq!(Collider::cuboid(4_000, 1_000, 5_000), Collider::Cuboid { hx: 4_000, hy: 1_000, hz: 5_000 });
}

#[test]
fn contact_takes_damage_from_health() {
    let mut world = World::new();
    let x = world.spawn(with(Some(5_000), None));
    let y = world.spawn(with(None, Some(20_000)));
    apply_collision_damage(&mut world, &vec![CollisionEvent::Started(x, y)]);
    let after = world.get(y).unwrap();
    assert_eq!(after.health, Some(Health { value: 15_000 }));
    assert!(after.health_changed);
    assert_eq!(world.get(x), Some(with(Some(5_000), None)));
}

#[test]
fn contact_works_in_either_order() {
    let mut world = World::new();
    let x = world.spawn(with(Some(5_000), None));
    let y = world.spawn(with(None, Some(20_000)));
    apply_collision_damage(&mut world, &vec![CollisionEvent::Started(y, x)]);
    assert_eq!(world.get(y).unwrap().health, Some(Health { value: 15_000 }));
    assert_eq!(world.get(x), Some(with(Some(5_000), None)));
}

#[test]
fn both_sides_are_damaged() {
    let mut world = World::new();
    let a = world.spawn(with(Some(20_000), Some(150_000)));
    let b = world.spawn(with(Some(12_000), Some(12_000)));
    apply_collision_damage(&mut world, &vec![CollisionEvent::Started(a, b)]);
    assert_eq!(world.get(a).unwrap().health, Some(Health { value: 138_000 }));
    assert_eq!(world.get(b).unwrap().health, Some(Health { value: -8_000 }));
}

#[test]
fn repeated_report_is_applied_again() {
    let mut world = World::new();
    let x = world.spawn(with(Some(5_000), None));
    let y = world.spawn(with(None, Some(20_000)));
    let events = vec![CollisionEvent::Started(x, y), CollisionEvent::Started(x, y)];
    apply_collision_damage(&mut world, &events);
    assert_eq!(world.get(y).unwrap().health, Some(Health { value: 10_000 }));
}

#[test]
fn end_of_contact_is_ignored() {
    let mut world = World::new();
    let x = world.spawn(with(Some(5_000), None));
    let y = world.spawn(with(None, Some(20_000)));
    apply_collision_damage(&mut world, &vec![CollisionEvent::Stopped(x, y)]);
    assert_eq!(world.get(y), Some(with(None, Some(20_000))));
}

#[test]
fn contact_with_what_is_gone_does_nothing() {
    let mut world = World::new();
    let x = world.spawn(with(Some(5_000), None));
    let y = world.spawn(with(None, Some(20_000)));
    world.despawn_recursive(x);
    apply_collision_damage(&mut world, &vec![CollisionEvent::Started(x, y), CollisionEvent::Started(y, 99)]);
    assert_eq!(world.get(y), Some(with(None, Some(20_000))));
}

#[test]
fn damage_needs_both_parts() {
    let mut world = World::new();
    let a = world.spawn(with(None, Some(1_000)));
    let b = world.spawn(with(Some(1_000), None));
    try_damage(a, b, &mut world);
    assert_eq!(world.get(a), Some(with(None, Some(1_000))));
    assert_eq!(world.get(b), Some(with(Some(1_000), None)));
}

#[test]
fn health_stops_at_the_least_number() {
    let mut world = World::new();
    let x = world.spawn(with(Some(i32::MAX), None));
    let y = world.spawn(with(None, Some(i32::MIN + 5)));
    try_damage(x, y, &mut world);
    assert_eq!(world.get(y).unwrap().health, Some(Health { value: i32::MIN }));
}

use asteroids_sim::health::{send_die_event, DieEvent, Health};
use asteroids_sim::movement::Transform;
use asteroids_sim::vec3::Vec3;
use asteroids_sim::world::{Components, World};

fn living(health: i32, changed: bool) -> Components {
    let mut c = Components::new(Transform::from_translation(Vec3::zero()));
    c.health = Some(Health::new(health));
    c.health_changed = changed;
    c
}

#[test]
fn death_is_reported_once() {
    let mut world = World::new();
    let fine = world.spawn(living(1, true));
    let dead = world.spawn(living(0, true));
    let below = world.spawn(living(-3_000, true));
    let mut events = Vec::new();
    send_die_event(&mut world, &mut events);
    assert_eq!(events, vec![DieEvent { entity: dead }, DieEvent { entity: below }]);
    assert!(world.contains(fine));
    send_die_event(&mut world, &mut events);
    assert_eq!(events.len(), 2);
}

#[test]
fn unchanged_health_is_not_looked_at() {
    let mut world = World::new();
    world.spawn(living(-1, false));
    let mut events = Vec::new();
    send_die_event(&mut world, &mut events);
    assert!(events.is_empty());
}

#[test]
fn looking_clears_the_change() {
    let mut world = World::new();
    let e = world.spawn(living(7, true));
    let mut events = vec![DieEvent { entity: 42 }];
    send_die_event(&mut world, &mut events);
    assert_eq!(world.get(e), Some(living(7, false)));
    assert_eq!(events, vec![DieEvent { entity: 42 }]);
}

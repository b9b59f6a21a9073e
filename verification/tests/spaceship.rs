use asteroids_sim::collision::{Collider, CollisionDamage};
use asteroids_sim::health::{DieEvent, Health};
use asteroids_sim::movement::Transform;
use asteroids_sim::spaceship::{
    drive, game_over_when_spaceship_byebye, spaceship_movement_controls,
    spaceship_shield_controls, spaceship_weapon_controls, spawn_spaceship, steering,
    ControlOutcome, Controls, SpaceshipWeaponTimer, Steering,
};
use asteroids_sim::state::GameState;
use asteroids_sim::timer::{Mode, Timer};
use asteroids_sim::vec3::Vec3;
use asteroids_sim::world::{Components, World};

fn idle() -> Controls {
    Controls {
        left: false,
        right: false,
        thrust: false,
        roll_clockwise: false,
        roll_counter: false,
        fire: false,
        shield: false,
    }
}

fn ahead() -> Vec3 {
    Vec3::new(0, 0, 1_000)
}

#[test]
fn spaceship_starts_at_rest_with_its_light() {
    let mut world = World::new();
    let ship = spawn_spaceship(&mut world);
    assert_eq!(ship, 0);
    assert_eq!(world.len(), 2);
    let c = world.get(ship).unwrap();
    assert_eq!(c.transform.translation, Vec3::new(0, 0, -20_000));
    assert_eq!(c.velocity.unwrap().value, Vec3::zero());
    assert_eq!(c.health, Some(Health { value: 150_000 }));
    assert_eq!(c.collision_damage, Some(CollisionDamage { amount: 20_000 }));
    assert_eq!(c.collider, Some(Collider::Cuboid { hx: 4_000, hy: 1_000, hz: 5_000 }));
    assert!(c.spaceship.is_some() && c.despawn_on_die.is_some() && c.confined.is_some());
    assert!(c.active_events.is_some());
    let light = world.get(1).unwrap();
    assert_eq!(light.parent, Some(ship));
    assert_eq!(light.transform.translation, Vec3::new(0, 2_000, 2_000));
    assert_eq!(light.transform.scale, Vec3::splat(5_000));
}

#[test]
fn turning_right_goes_before_turning_left() {
    let mut c = idle();
    assert_eq!(steering(&c, 100_000_000), Steering { yaw: 0, roll: 0 });
    c.left = true;
    assert_eq!(steering(&c, 100_000_000), Steering { yaw: 250, roll: 0 });
    c.right = true;
    assert_eq!(steering(&c, 100_000_000), Steering { yaw: -250, roll: 0 });
}

#[test]
fn roll_is_the_same_in_every_frame() {
    let mut c = idle();
    c.roll_counter = true;
    assert_eq!(steering(&c, 1), Steering { yaw: 0, roll: 100 });
    c.roll_clockwise = true;
    assert_eq!(steering(&c, 1_000_000_000), Steering { yaw: 0, roll: -100 });
}

#[test]
fn drag_takes_half_the_velocity_per_second() {
    let v = Vec3::new(10_000, 0, -20_000);
    assert_eq!(drive(v, &idle(), ahead(), 100_000_000), Vec3::new(9_500, 0, -19_000));
    assert_eq!(drive(v, &idle(), ahead(), 0), v);
}

#[test]
fn thrust_adds_to_the_velocity_below_the_limit() {
    let mut c = idle();
    c.thrust = true;
    assert_eq!(drive(Vec3::zero(), &c, ahead(), 16_000_000), Vec3::new(0, 0, 1_000));
    assert_eq!(drive(Vec3::new(0, 0, 29_999), &c, ahead(), 0), Vec3::new(0, 0, 30_999));
    assert_eq!(drive(Vec3::new(0, 0, 30_000), &c, ahead(), 0), Vec3::new(0, 0, 30_000));
    assert_eq!(drive(Vec3::new(0, 0, 30_001), &c, ahead(), 0), Vec3::new(0, 0, 30_001));
    assert_eq!(drive(Vec3::new(40_000, 0, 0), &c, ahead(), 0), Vec3::new(40_000, 0, 1_000));
}

#[test]
fn no_thrust_at_the_limit_itself() {
    let mut world = World::new();
    let ship = spawn_spaceship(&mut world);
    let mut at_speed = world.get(ship).unwrap();
    at_speed.velocity = Some(asteroids_sim::movement::Velocity::new(Vec3::new(0, 0, 40_000)));
    world.set(ship, at_speed);
    let mut c = idle();
    c.thrust = true;
    spaceship_movement_controls(&mut world, &c, ahead(), 500_000_000);
    assert_eq!(world.get(ship).unwrap().velocity.unwrap().value, Vec3::new(0, 0, 30_000));
}

#[test]
fn controls_move_the_one_spaceship() {
    let mut world = World::new();
    let ship = spawn_spaceship(&mut world);
    let mut c = idle();
    c.thrust = true;
    c.left = true;
    let outcome = spaceship_movement_controls(&mut world, &c, ahead(), 100_000_000);
    assert_eq!(outcome, ControlOutcome::Steered(Steering { yaw: 250, roll: 0 }));
    assert_eq!(world.get(ship).unwrap().velocity.unwrap().value, Vec3::new(0, 0, 1_000));
}

#[test]
fn controls_do_nothing_without_one_spaceship() {
    let mut world = World::new();
    let mut c = idle();
    c.thrust = true;
    assert_eq!(spaceship_movement_controls(&mut world, &c, ahead(), 1), ControlOutcome::NoSpaceship);
    let a = spawn_spaceship(&mut world);
    let b = spawn_spaceship(&mut world);
    assert_eq!(spaceship_movement_controls(&mut world, &c, ahead(), 1), ControlOutcome::ManySpaceships);
    assert_eq!(world.get(a).unwrap().velocity.unwrap().value, Vec3::zero());
    assert_eq!(world.get(b).unwrap().velocity.unwrap().value, Vec3::zero());
}

#[test]
fn weapon_timer_allows_five_missiles_a_second() {
    assert_eq!(
        SpaceshipWeaponTimer::new().timer,
        Timer { elapsed: 0, period: 200_000_000, mode: Mode::Repeating, finished: false, completions: 0 }
    );
}

#[test]
fn missile_is_fired_when_the_timer_completes() {
    let mut world = World::new();
    let ship = spawn_spaceship(&mut world);
    let mut timer = SpaceshipWeaponTimer::new();
    let mut c = idle();
    c.fire = true;
    assert_eq!(spaceship_weapon_controls(&mut world, &c, ahead(), 150_000_000, &mut timer), None);
    let m = spaceship_weapon_controls(&mut world, &c, ahead(), 50_000_000, &mut timer).unwrap();
    assert_eq!(m, 2);
    let missile = world.get(m).unwrap();
    assert_eq!(missile.transform.translation, Vec3::new(0, 0, -12_500));
    assert_eq!(missile.velocity.unwrap().value, Vec3::new(0, 0, 50_000));
    assert_eq!(missile.health, Some(Health { value: 2_500 }));
    assert_eq!(missile.collision_damage, Some(CollisionDamage { amount: 5_000 }));
    assert_eq!(missile.collider, Some(Collider::Ball { radius: 500 }));
    assert!(missile.missile.is_some() && missile.despawn_on_die.is_some() && missile.confined.is_some());
    assert!(missile.parent.is_none());
    assert!(world.contains(ship));
}

#[test]
fn weapon_timer_counts_only_while_firing() {
    let mut world = World::new();
    spawn_spaceship(&mut world);
    let mut timer = SpaceshipWeaponTimer::new();
    assert_eq!(spaceship_weapon_controls(&mut world, &idle(), ahead(), 500_000_000, &mut timer), None);
    assert_eq!(timer.timer.elapsed, 0);
    let mut empty = World::new();
    let mut c = idle();
    c.fire = true;
    assert_eq!(spaceship_weapon_controls(&mut empty, &c, ahead(), 500_000_000, &mut timer), None);
    assert_eq!(timer.timer.elapsed, 0);
    assert_eq!(empty.len(), 0);
}

#[test]
fn shield_goes_up_while_its_key_is_down() {
    let mut world = World::new();
    let ship = spawn_spaceship(&mut world);
    spaceship_shield_controls(&mut world, &idle());
    assert!(world.get(ship).unwrap().shield.is_none());
    let mut c = idle();
    c.shield = true;
    spaceship_shield_controls(&mut world, &c);
    assert!(world.get(ship).unwrap().shield.is_some());
    spaceship_shield_controls(&mut world, &idle());
    assert!(world.get(ship).unwrap().shield.is_some());
}

#[test]
fn death_of_the_spaceship_ends_the_game() {
    let mut world = World::new();
    let ship = spawn_spaceship(&mut world);
    let rock = world.spawn(Components::new(Transform::from_translation(Vec3::zero())));
    let mut next = Some(GameState::Paused);
    game_over_when_spaceship_byebye(&world, &vec![DieEvent { entity: rock }], &mut next);
    assert_eq!(next, Some(GameState::Paused));
    game_over_when_spaceship_byebye(&world, &vec![DieEvent { entity: rock }, DieEvent { entity: ship }], &mut next);
    assert_eq!(next, Some(GameState::GameOver));
}

use asteroids_sim::asteroids::Asteroid;
use asteroids_sim::health::DieEvent;
use asteroids_sim::movement::Transform;
use asteroids_sim::scoreboard::{destroy_asteroids_for_points, reset_scoreboard, Scoreboard};
use asteroids_sim::vec3::Vec3;
use asteroids_sim::world::{Components, World};

fn bare() -> Components {
    Components::new(Transform::from_translation(Vec3::zero()))
}

fn rock() -> Components {
    let mut c = bare();
    c.asteroid = Some(Asteroid);
    c
}

#[test]
fn score_starts_at_zero() {
    assert_eq!(Scoreboard::new().score, 0);
}

#[test]
fn two_asteroids_of_three_deaths_score_two() {
    let mut world = World::new();
    let a = world.spawn(rock());
    let ship = world.spawn(bare());
    let b = world.spawn(rock());
    let events = vec![DieEvent { entity: a }, DieEvent { entity: ship }, DieEvent { entity: b }];
    let mut scoreboard = Scoreboard { score: 5 };
    destroy_asteroids_for_points(&events, &mut scoreboard, &world);
    assert_eq!(scoreboard.score, 7);
}

#[test]
fn deaths_of_the_gone_score_nothing() {
    let mut world = World::new();
    let a = world.spawn(rock());
    world.despawn_recursive(a);
    let mut scoreboard = Scoreboard::new();
    destroy_asteroids_for_points(&vec![DieEvent { entity: a }, DieEvent { entity: 9 }], &mut scoreboard, &world);
    assert_eq!(scoreboard.score, 0);
}

#[test]
fn score_stops_at_the_largest_number() {
    let mut world = World::new();
    let a = world.spawn(rock());
    let mut scoreboard = Scoreboard { score: u64::MAX };
    destroy_asteroids_for_points(&vec![DieEvent { entity: a }], &mut scoreboard, &world);
    assert_eq!(scoreboard.score, u64::MAX);
}

#[test]
fn reset_sets_the_score_to_zero() {
    let mut scoreboard = Scoreboard { score: 12 };
    reset_scoreboard(&mut scoreboard);
    assert_eq!(scoreboard.score, 0);
}

use asteroids_sim::asteroids::AsteroidDraw;
use asteroids_sim::collision::{CollisionDamage, CollisionEvent};
use asteroids_sim::despawn::DespawnTimer;
use asteroids_sim::game::{FrameInput, Game};
use asteroids_sim::movement::angular_velocity::Rotation;
use asteroids_sim::movement::Transform;
use asteroids_sim::spaceship::{ControlOutcome, Controls, Steering};
use asteroids_sim::state::{GameState, StateKeys};
use asteroids_sim::vec3::Vec3;
use asteroids_sim::world::{Component, Components, Lookup};

fn input(pause: bool, proceed: bool, quit: bool) -> FrameInput {
    FrameInput {
        keys: StateKeys { pause, proceed, quit },
        controls: Controls {
            left: false,
            right: false,
            thrust: false,
            roll_clockwise: false,
            roll_counter: false,
            fire: false,
            shield: false,
        },
        heading: Vec3::new(0, 0, 1_000),
    }
}

fn idle() -> FrameInput {
    input(false, false, false)
}

fn draw() -> AsteroidDraw {
    AsteroidDraw {
        position: Vec3::new(100_000, 0, 0),
        target: Vec3::zero(),
        drift: Vec3::zero(),
        spin: Vec3::new(0, 0, 1_000),
        health: 15_000,
    }
}

fn in_game() -> Game {
    let mut game = Game::new();
    game.frame(&input(false, true, false), 0, &vec![]);
    game.frame(&idle(), 0, &vec![]);
    game
}

#[test]
fn game_starts_on_the_start_screen() {
    let game = Game::new();
    assert_eq!(game.state, GameState::Start);
    assert_eq!(game.next_state, None);
    assert_eq!(game.world.len(), 0);
    assert_eq!(game.scoreboard.score, 0);
}

#[test]
fn nothing_moves_on_the_start_screen() {
    let mut game = Game::new();
    let out = game.frame(&idle(), 3_000_000_000, &vec![]);
    assert!(!out.exit);
    assert_eq!(out.controls, None);
    assert!(out.turns.is_empty());
    assert_eq!(game.world.len(), 0);
    assert_eq!(game.spawn_timer.timer.elapsed, 0);
}

#[test]
fn quit_on_the_start_screen_asks_for_the_exit() {
    let mut game = Game::new();
    let out = game.frame(&input(false, false, true), 1, &vec![]);
    assert!(out.exit);
    assert_eq!(game.state, GameState::Start);
}

#[test]
fn proceed_enters_play_in_the_next_frame_and_makes_the_spaceship() {
    let mut game = Game::new();
    game.frame(&input(false, true, false), 16_000_000, &vec![]);
    assert_eq!(game.state, GameState::Start);
    assert_eq!(game.next_state, Some(GameState::InGame));
    assert_eq!(game.world.len(), 0);
    let out = game.frame(&idle(), 16_000_000, &vec![]);
    assert_eq!(game.state, GameState::InGame);
    assert_eq!(game.world.single(Component::Spaceship), Lookup::One(0));
    assert_eq!(out.controls, Some(ControlOutcome::Steered(Steering { yaw: 0, roll: 0 })));
}

#[test]
fn one_asteroid_after_two_and_a_half_seconds() {
    let mut game = in_game();
    for _ in 0..4 {
        game.frame(&idle(), 500_000_000, &vec![]);
        assert_eq!(game.world.single(Component::Asteroid), Lookup::Nothing);
    }
    game.frame(&idle(), 500_000_000, &vec![]);
    let Lookup::One(rock) = game.world.single(Component::Asteroid) else {
        panic!("no asteroid");
    };
    let c = game.world.get(rock).unwrap();
    let h = c.health.unwrap().value;
    assert!((5_000..20_000).contains(&h));
    assert!(c.transform.translation.length_squared() > 75_000 * 75_000);
    assert_eq!(c.collision_damage, Some(CollisionDamage { amount: h }));
    assert_eq!(c.transform.scale, Vec3::splat(h / 15 + 1_000));
    assert!(c.confined.is_none());
}

#[test]
fn new_asteroid_rests_in_the_frame_it_is_made() {
    let mut game = in_game();
    let out = game.frame_with(&idle(), 2_500_000_000, &vec![], &vec![draw()]);
    let c = game.world.get(2).unwrap();
    assert_eq!(c.velocity.unwrap().value, Vec3::new(-5_000, 0, 0));
    assert_eq!(c.transform.translation, Vec3::new(100_000, 0, 0));
    assert_eq!(out.turns, vec![Rotation { entity: 0, angles: Vec3::zero() }]);
    assert!(!c.health_changed);
    let out = game.frame_with(&idle(), 500_000_000, &vec![], &vec![draw()]);
    let c = game.world.get(2).unwrap();
    assert_eq!(c.transform.translation, Vec3::new(97_500, 0, 0));
    assert_eq!(
        out.turns,
        vec![
            Rotation { entity: 0, angles: Vec3::zero() },
            Rotation { entity: 2, angles: Vec3::new(0, 0, 500) },
        ]
    );
}

#[test]
fn asteroid_is_confined_when_it_has_come_in() {
    let mut game = in_game();
    game.frame_with(&idle(), 2_500_000_000, &vec![], &vec![draw()]);
    for _ in 0..4 {
        game.frame_with(&idle(), 2_000_000_000, &vec![], &vec![draw()]);
        assert!(game.world.get(2).unwrap().confined.is_none());
    }
    game.frame_with(&idle(), 2_000_000_000, &vec![], &vec![draw()]);
    let c = game.world.get(2).unwrap();
    assert_eq!(c.transform.translation, Vec3::new(50_000, 0, 0));
    assert!(c.confined.is_some());
    game.frame_with(&idle(), 2_000_000_000, &vec![], &vec![draw()]);
    let c = game.world.get(2).unwrap();
    assert_eq!(c.transform.translation, Vec3::new(40_000, 0, 0));
    assert!(c.confined.is_some());
}

#[test]
fn confined_asteroid_comes_back_in_when_it_leaves() {
    let mut game = in_game();
    let mut through = draw();
    through.position = Vec3::new(0, 0, 100_000);
    through.target = Vec3::new(0, 0, -1_000);
    game.frame_with(&idle(), 2_500_000_000, &vec![], &vec![through]);
    assert_eq!(game.world.get(2).unwrap().velocity.unwrap().value, Vec3::new(0, 0, -5_000));
    for _ in 0..15 {
        game.frame_with(&idle(), 2_000_000_000, &vec![], &vec![draw()]);
    }
    let c = game.world.get(2).unwrap();
    assert!(c.confined.is_some());
    assert_eq!(c.transform.translation, Vec3::new(0, 0, 50_010));
    game.frame_with(&idle(), 2_000_000_000, &vec![], &vec![draw()]);
    assert_eq!(game.world.get(2).unwrap().transform.translation, Vec3::new(0, 0, 40_010));
}

#[test]
fn one_asteroid_for_each_period_that_a_frame_completes() {
    let mut game = in_game();
    let mut second = draw();
    second.position = Vec3::new(0, 0, -100_000);
    second.health = 5_000;
    game.frame_with(&idle(), 5_000_000_000, &vec![], &vec![draw(), second, draw()]);
    assert_eq!(game.world.len(), 4);
    assert_eq!(game.world.get(2).unwrap().transform.translation, Vec3::new(100_000, 0, 0));
    assert_eq!(game.world.get(3).unwrap().transform.translation, Vec3::new(0, 0, -100_000));
    assert_eq!(game.world.get(3).unwrap().health.unwrap().value, 5_000);
    assert_eq!(game.spawn_timer.timer.elapsed, 0);
    game.frame_with(&idle(), 2_499_999_999, &vec![], &vec![draw()]);
    assert_eq!(game.world.len(), 4);
}

#[test]
fn asteroids_come_only_as_far_as_there_are_draws() {
    let mut game = in_game();
    game.frame_with(&idle(), 7_500_000_000, &vec![], &vec![draw()]);
    assert_eq!(game.world.len(), 3);
    game.frame_with(&idle(), 2_500_000_000, &vec![], &vec![]);
    assert_eq!(game.world.len(), 3);
}

#[test]
fn random_frame_makes_an_asteroid_for_each_period() {
    let mut game = in_game();
    game.frame(&idle(), 7_500_000_000, &vec![]);
    assert_eq!(game.world.len(), 5);
    for e in 2..5 {
        let c = game.world.get(e).unwrap();
        assert!(c.asteroid.is_some());
        assert!((5_000..20_000).contains(&c.health.unwrap().value));
        assert!(c.transform.translation.length_squared() > 75_000 * 75_000);
    }
}

#[test]
fn pause_stops_the_world_and_resume_resets_the_score() {
    let mut game = in_game();
    game.frame_with(&idle(), 2_500_000_000, &vec![], &vec![draw()]);
    game.scoreboard.score = 3;
    let before = game.world.get(2);
    game.frame(&input(true, false, false), 16_000_000, &vec![]);
    assert_eq!(game.next_state, Some(GameState::Paused));
    game.frame(&idle(), 1_000_000_000, &vec![]);
    assert_eq!(game.state, GameState::Paused);
    assert_eq!(game.world.len(), 3);
    game.frame(&input(true, false, false), 1_000_000_000, &vec![]);
    assert_eq!(game.state, GameState::Paused);
    assert_eq!(game.scoreboard.score, 3);
    let paused = game.world.get(2).unwrap();
    game.frame(&idle(), 0, &vec![]);
    assert_eq!(game.state, GameState::InGame);
    assert_eq!(game.scoreboard.score, 0);
    assert_eq!(game.world.single(Component::Spaceship), Lookup::One(0));
    assert_eq!(game.world.get(2), Some(paused));
    assert!(before.is_some());
}

#[test]
fn missile_kills_an_asteroid_and_scores() {
    let mut game = in_game();
    let mut low = draw();
    low.health = 5_000;
    game.frame_with(&idle(), 2_500_000_000, &vec![], &vec![low]);
    let mut fire = idle();
    fire.controls.fire = true;
    game.frame(&fire, 200_000_000, &vec![]);
    let Lookup::One(missile) = game.world.single(Component::SpaceshipMissile) else {
        panic!("no missile");
    };
    game.frame(&idle(), 1_000_000, &vec![CollisionEvent::Started(missile, 2)]);
    assert!(!game.world.contains(2));
    assert!(!game.world.contains(missile));
    assert_eq!(game.scoreboard.score, 1);
    assert_eq!(game.state, GameState::InGame);
    assert_eq!(game.next_state, None);
    assert!(game.world.contains(0));
}

#[test]
fn wounded_asteroid_shrinks_in_the_same_frame() {
    let mut game = in_game();
    game.frame_with(&idle(), 2_500_000_000, &vec![], &vec![draw()]);
    let mut fire = idle();
    fire.controls.fire = true;
    game.frame(&fire, 200_000_000, &vec![]);
    let Lookup::One(missile) = game.world.single(Component::SpaceshipMissile) else {
        panic!("no missile");
    };
    game.frame(&idle(), 1_000_000, &vec![CollisionEvent::Started(2, missile)]);
    let rock = game.world.get(2).unwrap();
    assert_eq!(rock.health.unwrap().value, 10_000);
    assert_eq!(rock.collision_damage, Some(CollisionDamage { amount: 10_000 }));
    assert_eq!(rock.transform.scale, Vec3::splat(1_666));
    assert!(!game.world.contains(missile));
    assert_eq!(game.scoreboard.score, 0);
}

#[test]
fn death_of_the_spaceship_ends_the_game_and_sweeps() {
    let mut game = in_game();
    let mut big = draw();
    big.health = 19_999;
    game.frame_with(&idle(), 2_500_000_000, &vec![], &vec![big]);
    let mut killer = Components::new(Transform::from_translation(Vec3::zero()));
    killer.collision_damage = Some(CollisionDamage::new(150_000));
    let k = game.world.spawn(killer);
    game.frame(&idle(), 1_000_000, &vec![CollisionEvent::Started(k, 0)]);
    assert_eq!(game.state, GameState::InGame);
    assert_eq!(game.next_state, Some(GameState::GameOver));
    assert!(!game.world.contains(0));
    assert!(!game.world.contains(1));
    assert!(game.world.contains(2));
    game.frame(&idle(), 1_000_000, &vec![]);
    assert_eq!(game.state, GameState::GameOver);
    assert!(!game.world.contains(2));
    assert!(game.world.contains(k));
    game.frame(&input(false, true, false), 1_000_000, &vec![]);
    game.frame(&idle(), 1_000_000, &vec![]);
    assert_eq!(game.state, GameState::Start);
}

#[test]
fn quit_while_paused_ends_the_game() {
    let mut game = in_game();
    game.frame(&input(true, false, false), 1, &vec![]);
    let out = game.frame(&input(false, false, true), 1, &vec![]);
    assert!(!out.exit);
    assert_eq!(game.state, GameState::Paused);
    game.frame(&idle(), 1, &vec![]);
    assert_eq!(game.state, GameState::GameOver);
    assert_eq!(game.world.single(Component::Spaceship), Lookup::Nothing);
    assert_eq!(game.world.single(Component::Health), Lookup::Nothing);
}

#[test]
fn timed_entity_dies_and_goes() {
    let mut game = in_game();
    let mut c = Components::new(Transform::from_translation(Vec3::zero()));
    c.despawn_timer = Some(DespawnTimer::new(1_000));
    c.despawn_on_die = Some(asteroids_sim::despawn::DespawnOnDie);
    let e = game.world.spawn(c);
    game.frame(&idle(), 999, &vec![]);
    assert!(game.world.contains(e));
    game.frame(&idle(), 1, &vec![]);
    assert!(!game.world.contains(e));
}

#[test]
fn request_for_the_same_state_changes_nothing() {
    let mut game = in_game();
    game.scoreboard.score = 4;
    game.next_state = Some(GameState::InGame);
    game.apply_state_transition();
    assert_eq!(game.state, GameState::InGame);
    assert_eq!(game.next_state, None);
    assert_eq!(game.scoreboard.score, 4);
    assert_eq!(game.world.len(), 2);
}

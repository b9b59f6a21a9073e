//! One frame of the game: every system, in its order.
//!
//! A frame begins by entering the state that the frame before has asked for.
//! Then the keys of the flow of the game are read, contacts do their damage
//! and the timers of the entities count. While the game is on, three phases
//! follow: the controls of the spaceship; the entities (they move,
//! asteroids may come, asteroids are confined and rescaled, the dead are
//! reported and scored); and the removal of the dead. The death of the
//! spaceship asks for the end of the game in whatever state.

use vstd::prelude::*;
use crate::asteroids::{
    all_latched, all_rescaled, asteroids_scale_with_health, confine_once_in_play_area,
    all_valid, asteroids_made, spawn_asteroid, spawn_asteroid_from, with_asteroids, AsteroidDraw,
    SpawnTimer,
};
use crate::collision::{apply_collision_damage, contacts, CollisionEvent};
use crate::despawn::{
    all_timed, despawn_on_die, despawned, remove_with_component, timeouts, update_despawn_timer,
};
use crate::health::{deaths, looked_into, send_die_event, DieEvent};
use crate::movement::acceleration::{update_velocity, velocities_updated};
use crate::movement::angular_velocity::{rotations, update_rotation, Rotation};
use crate::movement::velocity::{positions_updated, update_position};
use crate::movement::{all_confined, confine_to_play_area};
use crate::scoreboard::{
    asteroids_killed, destroy_asteroids_for_points, raised, reset_scoreboard, Scoreboard,
};
use crate::spaceship::{
    control_outcome, game_over_when_spaceship_byebye, movement_controlled, shield_controlled,
    spaceship_died, spaceship_movement_controls, spaceship_shield_controls,
    spaceship_weapon_controls, spawn_spaceship, weapon_controlled, weapon_timer_after,
    with_spaceship, ControlOutcome, Controls, SpaceshipWeaponTimer,
};
use crate::state::{game_state_input_events, requested_state, requests_exit, GameState, StateKeys};
use crate::timer::Timer;
use crate::vec3::Vec3;
use crate::world::{purged, Component, Selection, Slots, World};

verus! {

/// What comes from outside in one frame, besides the time and the contacts.
#[derive(Clone, Copy, Debug, PartialEq, Eq)]
pub struct FrameInput {
    /// The keys of the flow of the game that went down in this frame.
    pub keys: StateKeys,
    /// The keys of the spaceship that are down.
    pub controls: Controls,
    /// The direction in which the spaceship points once it has made the turn
    /// that [`crate::spaceship::steering`] gives for this frame, as a vector
    /// of length one.
    pub heading: Vec3,
}

/// What one frame asks of the outside.
#[derive(Debug)]
pub struct FrameOutput {
    /// Whether the program is to end.
    pub exit: bool,
    /// What became of the controls of the spaceship, if the game is on.
    pub controls: Option<ControlOutcome>,
    /// The turns that the entities make in this frame.
    pub turns: Vec<Rotation>,
}

/// The whole game.
pub struct Game {
    pub state: GameState,
    /// The state that the next frame begins with, if it is another.
    pub next_state: Option<GameState>,
    pub world: World,
    pub scoreboard: Scoreboard,
    pub spawn_timer: SpawnTimer,
    pub weapon_timer: SpaceshipWeaponTimer,
}

/// The game as contracts speak of it.
pub struct GameView {
    pub state: GameState,
    pub next_state: Option<GameState>,
    pub world: Slots,
    pub score: u64,
    pub spawn_timer: Timer,
    pub weapon_timer: Timer,
}

impl View for Game {
    type V = GameView;

    open spec fn view(&self) -> GameView {
        GameView {
            state: self.state,
            next_state: self.next_state,
            world: self.world@,
            score: self.scoreboard.score,
            spawn_timer: self.spawn_timer.timer,
            weapon_timer: self.weapon_timer.timer,
        }
    }
}

/// The game once the state asked for has been entered. On the way from the
/// start screen into play the spaceship is made; on entering play the score
/// goes back to zero; on entering the end of the game all that has health is
/// removed. A request for the state that the game is in changes nothing.
pub open spec fn transitioned(g: GameView) -> GameView {
    match g.next_state {
        Some(s) if s != g.state => GameView {
            state: s,
            next_state: None,
            world: if s == GameState::GameOver {
                purged(g.world, Selection::With(Component::Health))
            } else if g.state == GameState::Start && s == GameState::InGame {
                with_spaceship(g.world)
            } else {
                g.world
            },
            score: if s == GameState::InGame {
                0
            } else {
                g.score
            },
            ..g
        },
        _ => GameView { next_state: None, ..g },
    }
}

/// The world after what happens in every state: contacts do their damage
/// and the timers of the entities count.
pub open spec fn always_updated(w: Slots, events: Seq<CollisionEvent>, delta: u64) -> Slots {
    all_timed(contacts(w, events, events.len() as int), delta)
}

/// The world after the controls of the spaceship: movement, weapon, shield.
pub open spec fn user_input(w: Slots, input: FrameInput, weapon_timer: Timer, delta: u64) -> Slots {
    let moved = movement_controlled(w, input.controls, input.heading, delta);
    let fired = weapon_controlled(moved, input.controls, input.heading, weapon_timer, delta);
    shield_controlled(fired, input.controls)
}

/// The world after all entities have moved, and after the asteroids of the
/// frame: one for each period that the tick of the spawn timer completes,
/// as far as there are draws. A new asteroid does not move in the frame in
/// which it is made.
pub open spec fn entities_moved(
    w: Slots,
    spawn_timer: Timer,
    delta: u64,
    draws: Seq<AsteroidDraw>,
) -> Slots {
    let moved = all_confined(positions_updated(velocities_updated(w, delta), delta));
    with_asteroids(moved, draws, asteroids_made(spawn_timer.ticked(delta).completions, draws))
}

/// How many asteroids are due in a frame: one for each period that the tick
/// of the spawn timer completes, while the game is on.
pub open spec fn asteroids_due(g: GameView, delta: u64) -> int {
    if transitioned(g).state == GameState::InGame {
        transitioned(g).spawn_timer.ticked(delta).completions as int
    } else {
        0
    }
}

/// The world after the asteroids that have come in are confined and those
/// whose health has changed are rescaled.
pub open spec fn entities_settled(w: Slots) -> Slots {
    all_rescaled(all_latched(w))
}

/// The world of a frame of play at the point where the dead are told from
/// the living: all has moved, changes of health are still marked.
pub open spec fn before_deaths(
    g: GameView,
    input: FrameInput,
    delta: u64,
    events: Seq<CollisionEvent>,
    draws: Seq<AsteroidDraw>,
) -> Slots {
    let g0 = transitioned(g);
    let w1 = user_input(always_updated(g0.world, events, delta), input, g0.weapon_timer, delta);
    entities_settled(entities_moved(w1, g0.spawn_timer, delta, draws))
}

/// The game after one frame in which `draws` stand for the numbers drawn,
/// one draw for each asteroid.
pub open spec fn updated(
    g: GameView,
    input: FrameInput,
    delta: u64,
    events: Seq<CollisionEvent>,
    draws: Seq<AsteroidDraw>,
) -> GameView {
    let g0 = transitioned(g);
    let request = requested_state(g0.state, input.keys);
    let w0 = always_updated(g0.world, events, delta);
    let timed_out = timeouts(contacts(g0.world, events, events.len() as int), delta, w0.len() as int);
    if g0.state == GameState::InGame {
        let w2 = before_deaths(g, input, delta, events, draws);
        let died = timed_out + deaths(w2, w2.len() as int);
        let w3 = looked_into(w2);
        GameView {
            state: g0.state,
            next_state: if spaceship_died(w3, died, died.len() as int) {
                Some(GameState::GameOver)
            } else {
                request
            },
            world: despawned(w3, died, died.len() as int),
            score: raised(g0.score, asteroids_killed(w3, died, died.len() as int)),
            spawn_timer: g0.spawn_timer.ticked(delta),
            weapon_timer: weapon_timer_after(
                movement_controlled(w0, input.controls, input.heading, delta),
                input.controls,
                g0.weapon_timer,
                delta,
            ),
        }
    } else {
        GameView {
            next_state: if spaceship_died(w0, timed_out, timed_out.len() as int) {
                Some(GameState::GameOver)
            } else {
                request
            },
            world: w0,
            ..g0
        }
    }
}

/// The turns that the frame asks for: those of the entities that have
/// moved, if the game is on.
pub open spec fn turns_of(
    g: GameView,
    input: FrameInput,
    delta: u64,
    events: Seq<CollisionEvent>,
) -> Seq<Rotation> {
    let g0 = transitioned(g);
    if g0.state == GameState::InGame {
        let w1 = user_input(always_updated(g0.world, events, delta), input, g0.weapon_timer, delta);
        let moved = all_confined(positions_updated(velocities_updated(w1, delta), delta));
        rotations(moved, delta, moved.len() as int)
    } else {
        Seq::empty()
    }
}

/// What the frame says of the controls of the spaceship, if the game is on.
pub open spec fn controls_of(
    g: GameView,
    input: FrameInput,
    delta: u64,
    events: Seq<CollisionEvent>,
) -> Option<ControlOutcome> {
    let g0 = transitioned(g);
    if g0.state == GameState::InGame {
        Some(control_outcome(always_updated(g0.world, events, delta), input.controls, delta))
    } else {
        None
    }
}

impl Game {
    /// The invariant of a game: that of its world.
    pub open spec fn wf(&self) -> bool {
        self.world.wf()
    }

    /// Tells whether the invariant holds.
    pub fn is_well_formed(&self) -> (ok: bool)
        ensures
            ok == self.wf(),
    {
        self.world.is_well_formed()
    }

    /// A game on its start screen, with no entities and no score.
    pub fn new() -> (g: Game)
        ensures
            g.wf(),
            g@ == (GameView {
                state: GameState::Start,
                next_state: None,
                world: Slots::empty(),
                score: 0,
                spawn_timer: SpawnTimer::new_spec().timer,
                weapon_timer: SpaceshipWeaponTimer::new_spec().timer,
            }),
    {
        Game {
            state: GameState::Start,
            next_state: None,
            world: World::new(),
            scoreboard: Scoreboard::new(),
            spawn_timer: SpawnTimer::new(),
            weapon_timer: SpaceshipWeaponTimer::new(),
        }
    }

    /// Enters the state that was asked for, if it is another.
    pub fn apply_state_transition(&mut self)
        requires
            old(self).wf(),
        ensures
            final(self).wf(),
            final(self)@ == transitioned(old(self)@),
    {
        let next = self.next_state;
        self.next_state = None;
        let Some(entered) = next else {
            return ;
        };
        let exited = self.state;
        match (exited, entered) {
            (GameState::Start, GameState::Start) => {},
            (GameState::InGame, GameState::InGame) => {},
            (GameState::Paused, GameState::Paused) => {},
            (GameState::GameOver, GameState::GameOver) => {},
            (_, GameState::GameOver) => {
                self.state = entered;
                remove_with_component(&mut self.world, Component::Health);
            },
            (GameState::Start, GameState::InGame) => {
                self.state = entered;
                spawn_spaceship(&mut self.world);
                reset_scoreboard(&mut self.scoreboard);
            },
            (_, GameState::InGame) => {
                self.state = entered;
                reset_scoreboard(&mut self.scoreboard);
            },
            _ => {
                self.state = entered;
            },
        }
    }

    fn run(
        &mut self,
        input: &FrameInput,
        delta: u64,
        events: &Vec<CollisionEvent>,
        draws: Option<&Vec<AsteroidDraw>>,
    ) -> (out: (FrameOutput, Ghost<Seq<AsteroidDraw>>))
        requires
            old(self).wf(),
        ensures
            final(self).wf(),
            match draws {
                Some(d) => out.1@ == d@,
                None => out.1@.len() == asteroids_due(old(self)@, delta) && all_valid(out.1@),
            },
            final(self)@ == updated(old(self)@, *input, delta, events@, out.1@),
            out.0.exit == requests_exit(transitioned(old(self)@).state, input.keys),
            out.0.controls == controls_of(old(self)@, *input, delta, events@),
            out.0.turns@ == turns_of(old(self)@, *input, delta, events@),
    {
        self.apply_state_transition();
        let transition = game_state_input_events(self.state, &input.keys);
        self.next_state = transition.next;
        apply_collision_damage(&mut self.world, events);
        let mut died: Vec<DieEvent> = Vec::new();
        update_despawn_timer(&mut self.world, &mut died, delta);
        let in_game = match self.state {
            GameState::InGame => true,
            _ => false,
        };
        let mut controls: Option<ControlOutcome> = None;
        let mut turns: Vec<Rotation> = Vec::new();
        let ghost mut drawn: Seq<AsteroidDraw> = match draws {
            Some(d) => d@,
            None => Seq::empty(),
        };
        if in_game {
            controls = Some(
                spaceship_movement_controls(&mut self.world, &input.controls, input.heading, delta),
            );
            spaceship_weapon_controls(
                &mut self.world,
                &input.controls,
                input.heading,
                delta,
                &mut self.weapon_timer,
            );
            spaceship_shield_controls(&mut self.world, &input.controls);
            update_velocity(&mut self.world, delta);
            update_position(&mut self.world, delta);
            confine_to_play_area(&mut self.world);
            turns = update_rotation(&self.world, delta);
            let ghost before = self.world@;
            match draws {
                Some(d) => {
                    spawn_asteroid_from(&mut self.world, &mut self.spawn_timer, delta, d);
                },
                None => {
                    let made = spawn_asteroid(&mut self.world, &mut self.spawn_timer, delta);
                    proof {
                        drawn = choose|draws: Seq<AsteroidDraw>|
                            draws.len() == made && all_valid(draws) && self.world@
                                == #[trigger] with_asteroids(before, draws, made as int);
                    }
                },
            }
            confine_once_in_play_area(&mut self.world);
            asteroids_scale_with_health(&mut self.world);
            send_die_event(&mut self.world, &mut died);
            destroy_asteroids_for_points(&died, &mut self.scoreboard, &self.world);
        }
        game_over_when_spaceship_byebye(&self.world, &died, &mut self.next_state);
        if in_game {
            despawn_on_die(&mut self.world, &died);
        }
        (FrameOutput { exit: transition.exit, controls, turns }, Ghost(drawn))
    }

    /// Runs one frame of `delta` nanoseconds in which the asteroids that are
    /// due are made of `draws`, the first of the first draw, as far as there
    /// are draws.
    pub fn frame_with(
        &mut self,
        input: &FrameInput,
        delta: u64,
        events: &Vec<CollisionEvent>,
        draws: &Vec<AsteroidDraw>,
    ) -> (out: FrameOutput)
        requires
            old(self).wf(),
        ensures
            final(self).wf(),
            final(self)@ == updated(old(self)@, *input, delta, events@, draws@),
            out.exit == requests_exit(transitioned(old(self)@).state, input.keys),
            out.controls == controls_of(old(self)@, *input, delta, events@),
            out.turns@ == turns_of(old(self)@, *input, delta, events@),
    {
        self.run(input, delta, events, Some(draws)).0
    }

    /// Runs one frame of `delta` nanoseconds. Each asteroid that is due is
    /// made of a draw of its own, at random.
    pub fn frame(&mut self, input: &FrameInput, delta: u64, events: &Vec<CollisionEvent>) -> (out:
        FrameOutput)
        requires
            old(self).wf(),
        ensures
            final(self).wf(),
            exists|draws: Seq<AsteroidDraw>|
                draws.len() == asteroids_due(old(self)@, delta) && all_valid(draws)
                    && final(self)@ == #[trigger] updated(old(self)@, *input, delta, events@, draws),
            out.exit == requests_exit(transitioned(old(self)@).state, input.keys),
            out.controls == controls_of(old(self)@, *input, delta, events@),
            out.turns@ == turns_of(old(self)@, *input, delta, events@),
    {
        self.run(input, delta, events, None).0
    }
}

} // verus!

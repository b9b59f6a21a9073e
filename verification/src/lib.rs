//! Simulation core of an arcade space-combat game.
//!
//! Every quantity is a fixed-point integer (thousandths of a unit, time in
//! nanoseconds), so that each rule of the game is an exact statement over the
//! integers and one frame of the game is a function of the state before it.
//!
//! - [`world`] holds the entities and what is attached to them.
//! - [`movement`], [`collision`], [`health`], [`despawn`], [`asteroids`],
//!   [`spaceship`] and [`scoreboard`] hold the systems, each with the
//!   components that it is about.
//! - [`state`] is the flow from the start screen through play and pause to
//!   the end of a game.
//! - [`game`] runs all of them in their order, once a frame.
//! - [`invariants`] states what holds from frame to frame.
//! - [`math`] and [`vec3`] hold the arithmetic, [`timer`] and [`random`]
//!   what is left to the engine and to the generator of random numbers.

pub mod asteroids;
pub mod collision;
pub mod despawn;
pub mod game;
pub mod health;
pub mod invariants;
pub mod math;
pub mod movement;
pub mod random;
pub mod scoreboard;
pub mod spaceship;
pub mod state;
pub mod timer;
pub mod vec3;
pub mod world;

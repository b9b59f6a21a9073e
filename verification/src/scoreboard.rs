//! The player's score.

use vstd::prelude::*;
use crate::health::DieEvent;
use crate::world::{holder, Component, Slots, World};

verus! {

/// The player's score: the asteroids destroyed since play was last entered.
#[derive(Clone, Copy, Debug, PartialEq, Eq)]
pub struct Scoreboard {
    pub score: u64,
}

impl Scoreboard {
    pub fn new() -> (s: Scoreboard)
        ensures
            s.score == 0,
    {
        Scoreboard { score: 0 }
    }
}

/// How many of the first `n` notices name an asteroid. A notice counts each
/// time it comes.
pub open spec fn asteroids_killed(w: Slots, events: Seq<DieEvent>, n: int) -> nat
    decreases n,
{
    if n <= 0 {
        0
    } else {
        asteroids_killed(w, events, n - 1) + if holder(
            w,
            Component::Asteroid,
            events[n - 1].entity as int,
        ) {
            1nat
        } else {
            0nat
        }
    }
}

/// The score after `killed` more asteroids. It stops at the largest number
/// that it can hold.
pub open spec fn raised(score: u64, killed: nat) -> u64 {
    if score + killed > u64::MAX {
        u64::MAX
    } else {
        (score + killed) as u64
    }
}

/// Raises the score by one for each notice that names an asteroid.
pub fn destroy_asteroids_for_points(
    events: &Vec<DieEvent>,
    scoreboard: &mut Scoreboard,
    world: &World,
)
    ensures
        final(scoreboard).score == raised(
            old(scoreboard).score,
            asteroids_killed(world@, events@, events@.len() as int),
        ),
{
    let mut killed: usize = 0;
    let mut i: usize = 0;
    while i < events.len()
        invariant
            i <= events@.len(),
            killed <= i,
            killed == asteroids_killed(world@, events@, i as int),
        decreases events@.len() - i,
    {
        if let Some(c) = world.get(events[i].entity) {
            if c.asteroid.is_some() {
                killed += 1;
            }
        }
        i += 1;
    }
    let sum: u128 = scoreboard.score as u128 + killed as u128;
    scoreboard.score = if sum > u64::MAX as u128 {
        u64::MAX
    } else {
        sum as u64
    };
}

/// Sets the score back to zero.
pub fn reset_scoreboard(scoreboard: &mut Scoreboard)
    ensures
        final(scoreboard).score == 0,
{
    scoreboard.score = 0;
}

} // verus!

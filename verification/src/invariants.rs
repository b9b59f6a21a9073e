//! What holds of the game from frame to frame.

use vstd::prelude::*;
use crate::asteroids::{
    all_latched, all_rescaled, asteroids_made, in_step, with_asteroids, AsteroidDraw,
};
use crate::collision::{contact, contacts, damaged, CollisionEvent};
use crate::despawn::{despawned, lemma_dead_are_gone, lemma_despawned_keeps, timeouts};
use crate::game::{
    always_updated, before_deaths, entities_moved, entities_settled, transitioned, updated,
    user_input, FrameInput, GameView,
};
use crate::health::{deaths, dies, lemma_death_is_listed, looked_into, DieEvent};
use crate::movement::acceleration::velocities_updated;
use crate::movement::all_confined;
use crate::movement::velocity::positions_updated;
use crate::spaceship::{
    movement_controlled, new_missile, new_spaceship, shield_controlled, spaceship_light,
    weapon_controlled,
};
use crate::state::GameState;
use crate::timer::Timer;
use crate::world::{
    alive, condemned, lemma_lookup_one, lemma_purged_well_formed, lookup, well_formed, Component,
    Components, Entity, Selection, Slots,
};

verus! {

/// What an entity keeps for as long as it lives: its parent, its kind, the
/// mark that lets it go when it dies, and, once it has them, its confinement
/// and its shield.
pub open spec fn same_entity(a: Components, b: Components) -> bool {
    &&& a.parent == b.parent
    &&& a.asteroid == b.asteroid
    &&& a.spaceship == b.spaceship
    &&& a.missile == b.missile
    &&& a.despawn_on_die == b.despawn_on_die
    &&& (a.confined is Some ==> b.confined is Some)
    &&& (a.shield is Some ==> b.shield is Some)
}

/// Whether `later` can come of `earlier`: no slot is lost, no entity comes
/// back to life, and each entity that lives on is the same entity.
pub open spec fn succeeds(earlier: Slots, later: Slots) -> bool {
    &&& earlier.len() <= later.len()
    &&& forall|e: int|
        0 <= e < earlier.len() && #[trigger] alive(later, e) ==> alive(earlier, e) && same_entity(
            earlier[e]->0,
            later[e]->0,
        )
}

pub proof fn lemma_succeeds_trans(a: Slots, b: Slots, c: Slots)
    requires
        succeeds(a, b),
        succeeds(b, c),
    ensures
        succeeds(a, c),
{
    assert forall|e: int| 0 <= e < a.len() && #[trigger] alive(c, e) implies alive(a, e)
        && same_entity(a[e]->0, c[e]->0) by {
        assert(alive(b, e));
    }
}

pub proof fn lemma_contacts_succeed(w: Slots, events: Seq<CollisionEvent>, n: int)
    requires
        0 <= n <= events.len(),
    ensures
        succeeds(w, contacts(w, events, n)),
        contacts(w, events, n).len() == w.len(),
    decreases n,
{
    if n > 0 {
        lemma_contacts_succeed(w, events, n - 1);
        let before = contacts(w, events, n - 1);
        assert(succeeds(before, contact(before, events[n - 1])));
        lemma_succeeds_trans(w, before, contact(before, events[n - 1]));
    }
}

pub proof fn lemma_despawned_succeeds(w: Slots, events: Seq<DieEvent>, n: int)
    requires
        0 <= n <= events.len(),
    ensures
        succeeds(w, despawned(w, events, n)),
    decreases n,
{
    if n > 0 {
        lemma_despawned_succeeds(w, events, n - 1);
        let before = despawned(w, events, n - 1);
        assert(succeeds(before, despawned(w, events, n)));
        lemma_succeeds_trans(w, before, despawned(w, events, n));
    }
}

/// Entering a state loses no slot, brings nothing back to life and leaves
/// each entity that lives on the same.
pub proof fn lemma_transition_succeeds(g: GameView)
    ensures
        succeeds(g.world, transitioned(g).world),
{
}

/// Through a frame no slot is lost, no entity comes back to life, and each
/// entity that lives on keeps its parent and its kind, and stays confined
/// once it is.
pub proof fn lemma_frame_succeeds(
    g: GameView,
    input: FrameInput,
    delta: u64,
    events: Seq<CollisionEvent>,
    draws: Seq<AsteroidDraw>,
)
    requires
        g.world.len() + draws.len() + 3 <= usize::MAX,
    ensures
        succeeds(g.world, updated(g, input, delta, events, draws).world),
{
    let g0 = transitioned(g);
    lemma_transition_succeeds(g);
    let struck = contacts(g0.world, events, events.len() as int);
    lemma_contacts_succeed(g0.world, events, events.len() as int);
    let w0 = always_updated(g0.world, events, delta);
    assert(succeeds(struck, w0));
    lemma_succeeds_trans(g0.world, struck, w0);
    lemma_succeeds_trans(g.world, g0.world, w0);
    if g0.state == GameState::InGame {
        let w1 = user_input(w0, input, g0.weapon_timer, delta);
        lemma_user_input_succeeds(w0, input, g0.weapon_timer, delta);
        lemma_succeeds_trans(g.world, w0, w1);
        let moved = entities_moved(w1, g0.spawn_timer, delta, draws);
        lemma_entities_moved_succeed(w1, g0.spawn_timer, delta, draws);
        lemma_succeeds_trans(g.world, w1, moved);
        let w2 = entities_settled(moved);
        assert(succeeds(moved, all_latched(moved)));
        assert(succeeds(all_latched(moved), w2));
        lemma_succeeds_trans(moved, all_latched(moved), w2);
        lemma_succeeds_trans(g.world, moved, w2);
        let w3 = looked_into(w2);
        assert(succeeds(w2, w3));
        lemma_succeeds_trans(g.world, w2, w3);
        let died = timeouts(struck, delta, w0.len() as int) + deaths(
            w2,
            w2.len() as int,
        );
        lemma_despawned_succeeds(w3, died, died.len() as int);
        lemma_succeeds_trans(g.world, w3, despawned(w3, died, died.len() as int));
    }
}

pub proof fn lemma_user_input_succeeds(w: Slots, input: FrameInput, weapon_timer: Timer, delta: u64)
    requires
        w.len() < usize::MAX,
    ensures
        succeeds(w, user_input(w, input, weapon_timer, delta)),
        user_input(w, input, weapon_timer, delta).len() <= w.len() + 1,
{
    let moved = movement_controlled(w, input.controls, input.heading, delta);
    let fired = weapon_controlled(moved, input.controls, input.heading, weapon_timer, delta);
    let shielded = shield_controlled(fired, input.controls);
    if lookup(w, Component::Spaceship) is One {
        lemma_lookup_one(w, Component::Spaceship);
    }
    assert(moved.len() == w.len());
    if lookup(fired, Component::Spaceship) is One {
        lemma_lookup_one(fired, Component::Spaceship);
    }
    assert(succeeds(w, moved));
    assert(succeeds(moved, fired));
    assert(succeeds(fired, shielded));
    lemma_succeeds_trans(w, moved, fired);
    lemma_succeeds_trans(w, fired, shielded);
}

pub proof fn lemma_with_asteroids_succeed(w: Slots, draws: Seq<AsteroidDraw>, n: int)
    requires
        n <= draws.len(),
    ensures
        succeeds(w, with_asteroids(w, draws, n)),
        with_asteroids(w, draws, n).len() == w.len() + if n > 0 {
            n
        } else {
            0
        },
    decreases n,
{
    if n > 0 {
        lemma_with_asteroids_succeed(w, draws, n - 1);
        let before = with_asteroids(w, draws, n - 1);
        assert(succeeds(before, with_asteroids(w, draws, n)));
        lemma_succeeds_trans(w, before, with_asteroids(w, draws, n));
    }
}

pub proof fn lemma_entities_moved_succeed(
    w: Slots,
    spawn_timer: Timer,
    delta: u64,
    draws: Seq<AsteroidDraw>,
)
    ensures
        succeeds(w, entities_moved(w, spawn_timer, delta, draws)),
        entities_moved(w, spawn_timer, delta, draws).len() <= w.len() + draws.len(),
{
    let sped = velocities_updated(w, delta);
    let placed = positions_updated(sped, delta);
    let kept = all_confined(placed);
    let last = entities_moved(w, spawn_timer, delta, draws);
    assert(succeeds(w, sped));
    assert(succeeds(sped, placed));
    assert(succeeds(placed, kept));
    lemma_with_asteroids_succeed(
        kept,
        draws,
        asteroids_made(spawn_timer.ticked(delta).completions, draws),
    );
    lemma_succeeds_trans(w, sped, placed);
    lemma_succeeds_trans(w, placed, kept);
    lemma_succeeds_trans(w, kept, last);
}

/// Whether every asteroid has the scale and the damage of its health, or
/// is marked as one whose health has changed.
pub open spec fn all_tracked(w: Slots) -> bool {
    forall|e: int| #[trigger]
        alive(w, e) && w[e]->0.asteroid is Some ==> w[e]->0.health_changed || in_step(w[e]->0)
}

/// Whether no change of health waits to be looked into, and every asteroid
/// has the scale and the damage of its health.
pub open spec fn all_settled(w: Slots) -> bool {
    forall|e: int| #[trigger]
        alive(w, e) ==> !w[e]->0.health_changed && (w[e]->0.asteroid is Some ==> in_step(
            w[e]->0,
        ))
}

pub proof fn lemma_contacts_keep_track(w: Slots, events: Seq<CollisionEvent>, n: int)
    requires
        all_tracked(w),
        0 <= n <= events.len(),
    ensures
        all_tracked(contacts(w, events, n)),
    decreases n,
{
    if n > 0 {
        lemma_contacts_keep_track(w, events, n - 1);
        let before = contacts(w, events, n - 1);
        let after = contact(before, events[n - 1]);
        match events[n - 1] {
            CollisionEvent::Started(a, b) => {
                let half = damaged(before, a, b);
                assert forall|e: int| #[trigger]
                    alive(half, e) && half[e]->0.asteroid is Some implies half[e]->0.health_changed
                    || in_step(half[e]->0) by {
                    assert(alive(before, e));
                }
                assert forall|e: int| #[trigger]
                    alive(after, e) && after[e]->0.asteroid is Some implies after[e]->0.health_changed
                    || in_step(after[e]->0) by {
                    assert(alive(half, e));
                }
            },
            CollisionEvent::Stopped(_, _) => {},
        }
    }
}

/// Through a frame every asteroid keeps the scale and the damage of its
/// health, but for those whose health has changed and waits to be looked
/// into; after a frame of play none waits.
pub proof fn lemma_frame_keeps_in_step(
    g: GameView,
    input: FrameInput,
    delta: u64,
    events: Seq<CollisionEvent>,
    draws: Seq<AsteroidDraw>,
)
    requires
        all_tracked(g.world),
        g.world.len() + draws.len() + 3 <= usize::MAX,
    ensures
        all_tracked(updated(g, input, delta, events, draws).world),
        transitioned(g).state == GameState::InGame ==> all_settled(
            updated(g, input, delta, events, draws).world,
        ),
{
    let g0 = transitioned(g);
    assert(all_tracked(g0.world)) by {
        assert forall|e: int| #[trigger]
            alive(g0.world, e) && g0.world[e]->0.asteroid is Some implies g0.world[e]->0.health_changed
            || in_step(g0.world[e]->0) by {
            if e < g.world.len() {
                assert(alive(g.world, e));
            }
        }
    }
    let struck = contacts(g0.world, events, events.len() as int);
    lemma_contacts_keep_track(g0.world, events, events.len() as int);
    lemma_contacts_succeed(g0.world, events, events.len() as int);
    let w0 = always_updated(g0.world, events, delta);
    assert(all_tracked(w0)) by {
        assert forall|e: int| #[trigger]
            alive(w0, e) && w0[e]->0.asteroid is Some implies w0[e]->0.health_changed || in_step(
            w0[e]->0,
        ) by {
            assert(alive(struck, e));
        }
    }
    if g0.state == GameState::InGame {
        let w1 = user_input(w0, input, g0.weapon_timer, delta);
        lemma_user_input_keeps_track(w0, input, g0.weapon_timer, delta);
        let moved = entities_moved(w1, g0.spawn_timer, delta, draws);
        lemma_entities_moved_keep_track(w1, g0.spawn_timer, delta, draws);
        let latched = all_latched(moved);
        let w2 = entities_settled(moved);
        let w3 = looked_into(w2);
        assert(all_settled(w3)) by {
            assert forall|e: int| #[trigger] alive(w3, e) implies !w3[e]->0.health_changed && (
            w3[e]->0.asteroid is Some ==> in_step(w3[e]->0)) by {
                assert(alive(w2, e));
                assert(alive(latched, e));
                assert(alive(moved, e));
            }
        }
        let died = timeouts(struck, delta, w0.len() as int) + deaths(
            w2,
            w2.len() as int,
        );
        let last = despawned(w3, died, died.len() as int);
        assert(all_settled(last)) by {
            assert forall|e: int| #[trigger] alive(last, e) implies !last[e]->0.health_changed && (
            last[e]->0.asteroid is Some ==> in_step(last[e]->0)) by {
                lemma_despawned_keeps(w3, died, died.len() as int, e);
                assert(alive(w3, e));
            }
        }
    }
}

pub proof fn lemma_user_input_keeps_track(
    w: Slots,
    input: FrameInput,
    weapon_timer: Timer,
    delta: u64,
)
    requires
        all_tracked(w),
        w.len() < usize::MAX,
    ensures
        all_tracked(user_input(w, input, weapon_timer, delta)),
{
    let moved = movement_controlled(w, input.controls, input.heading, delta);
    let fired = weapon_controlled(moved, input.controls, input.heading, weapon_timer, delta);
    let shielded = shield_controlled(fired, input.controls);
    if lookup(w, Component::Spaceship) is One {
        lemma_lookup_one(w, Component::Spaceship);
    }
    assert(moved.len() == w.len());
    if lookup(fired, Component::Spaceship) is One {
        lemma_lookup_one(fired, Component::Spaceship);
    }
    assert forall|e: int| #[trigger]
        alive(moved, e) && moved[e]->0.asteroid is Some implies moved[e]->0.health_changed
        || in_step(moved[e]->0) by {
        assert(alive(w, e));
    }
    assert forall|e: int| #[trigger]
        alive(fired, e) && fired[e]->0.asteroid is Some implies fired[e]->0.health_changed
        || in_step(fired[e]->0) by {
        if e < moved.len() {
            assert(alive(moved, e));
        }
    }
    assert forall|e: int| #[trigger]
        alive(shielded, e) && shielded[e]->0.asteroid is Some implies shielded[e]->0.health_changed
        || in_step(shielded[e]->0) by {
        assert(alive(fired, e));
    }
}

pub proof fn lemma_with_asteroids_keep_track(w: Slots, draws: Seq<AsteroidDraw>, n: int)
    requires
        all_tracked(w),
        n <= draws.len(),
    ensures
        all_tracked(with_asteroids(w, draws, n)),
    decreases n,
{
    if n > 0 {
        lemma_with_asteroids_keep_track(w, draws, n - 1);
        let before = with_asteroids(w, draws, n - 1);
        let last = with_asteroids(w, draws, n);
        assert forall|e: int| #[trigger]
            alive(last, e) && last[e]->0.asteroid is Some implies last[e]->0.health_changed
            || in_step(last[e]->0) by {
            if e < before.len() {
                assert(alive(before, e));
            }
        }
    }
}

pub proof fn lemma_entities_moved_keep_track(
    w: Slots,
    spawn_timer: Timer,
    delta: u64,
    draws: Seq<AsteroidDraw>,
)
    requires
        all_tracked(w),
    ensures
        all_tracked(entities_moved(w, spawn_timer, delta, draws)),
{
    let sped = velocities_updated(w, delta);
    let placed = positions_updated(sped, delta);
    let kept = all_confined(placed);
    assert forall|e: int| #[trigger]
        alive(kept, e) && kept[e]->0.asteroid is Some implies kept[e]->0.health_changed || in_step(
        kept[e]->0,
    ) by {
        assert(alive(placed, e));
        assert(alive(sped, e));
        assert(alive(w, e));
    }
    lemma_with_asteroids_keep_track(
        kept,
        draws,
        asteroids_made(spawn_timer.ticked(delta).completions, draws),
    );
}

pub proof fn lemma_contacts_well_formed(w: Slots, events: Seq<CollisionEvent>, n: int)
    requires
        well_formed(w),
        0 <= n <= events.len(),
    ensures
        well_formed(contacts(w, events, n)),
    decreases n,
{
    if n > 0 {
        lemma_contacts_well_formed(w, events, n - 1);
        let before = contacts(w, events, n - 1);
        match events[n - 1] {
            CollisionEvent::Started(a, b) => {
                let half = damaged(before, a, b);
                lemma_kept_well_formed(before, half);
                lemma_kept_well_formed(half, damaged(half, b, a));
            },
            CollisionEvent::Stopped(_, _) => {},
        }
    }
}

/// A world in which the same entities live, with the same parents, has no
/// entity without its parent if the first has none.
pub proof fn lemma_kept_well_formed(w: Slots, v: Slots)
    requires
        well_formed(w),
        v.len() == w.len(),
        forall|e: int| #[trigger] alive(v, e) <==> alive(w, e),
        forall|e: int| #[trigger] alive(v, e) ==> v[e]->0.parent == w[e]->0.parent,
    ensures
        well_formed(v),
{
    assert forall|e: int| #[trigger] alive(v, e) implies match v[e]->0.parent {
        Some(p) => p < e && alive(v, p as int),
        None => true,
    } by {
        assert(alive(w, e));
        if let Some(p) = w[e]->0.parent {
            assert(alive(w, p as int));
            assert(alive(v, p as int));
        }
    }
}

/// A world with one more entity, which has no parent or a living one, has no
/// entity without its parent if the first has none.
pub proof fn lemma_pushed_well_formed(w: Slots, c: Components)
    requires
        well_formed(w),
        c.parent matches Some(p) ==> alive(w, p as int),
    ensures
        well_formed(w.push(Some(c))),
{
    let v = w.push(Some(c));
    assert forall|e: int| #[trigger] alive(v, e) implies match v[e]->0.parent {
        Some(p) => p < e && alive(v, p as int),
        None => true,
    } by {
        if e < w.len() {
            assert(alive(w, e));
            if let Some(p) = w[e]->0.parent {
                assert(alive(w, p as int));
                assert(alive(v, p as int));
            }
        } else {
            if let Some(p) = c.parent {
                assert(alive(w, p as int));
                assert(alive(v, p as int));
            }
        }
    }
}

pub proof fn lemma_transition_well_formed(g: GameView)
    requires
        well_formed(g.world),
        g.world.len() <= usize::MAX,
    ensures
        well_formed(transitioned(g).world),
{
    lemma_purged_well_formed(g.world, Selection::With(Component::Health));
    let ship = g.world.push(Some(new_spaceship()));
    lemma_pushed_well_formed(g.world, new_spaceship());
    lemma_pushed_well_formed(ship, spaceship_light(g.world.len() as Entity));
}

pub proof fn lemma_always_updated_well_formed(w: Slots, events: Seq<CollisionEvent>, delta: u64)
    requires
        well_formed(w),
    ensures
        well_formed(always_updated(w, events, delta)),
        always_updated(w, events, delta).len() == w.len(),
{
    let struck = contacts(w, events, events.len() as int);
    lemma_contacts_well_formed(w, events, events.len() as int);
    lemma_contacts_succeed(w, events, events.len() as int);
    lemma_kept_well_formed(struck, always_updated(w, events, delta));
}

pub proof fn lemma_user_input_well_formed(
    w: Slots,
    input: FrameInput,
    weapon_timer: Timer,
    delta: u64,
)
    requires
        well_formed(w),
        w.len() < usize::MAX,
    ensures
        well_formed(user_input(w, input, weapon_timer, delta)),
{
    let moved = movement_controlled(w, input.controls, input.heading, delta);
    if lookup(w, Component::Spaceship) is One {
        lemma_lookup_one(w, Component::Spaceship);
    }
    lemma_kept_well_formed(w, moved);
    let fired = weapon_controlled(moved, input.controls, input.heading, weapon_timer, delta);
    if fired != moved {
        lemma_pushed_well_formed(
            moved,
            new_missile(
                moved[lookup(moved, Component::Spaceship)->One_0 as int]->0.transform.translation,
                input.heading,
            ),
        );
    }
    if lookup(fired, Component::Spaceship) is One {
        lemma_lookup_one(fired, Component::Spaceship);
    }
    lemma_kept_well_formed(fired, shield_controlled(fired, input.controls));
}

pub proof fn lemma_with_asteroids_well_formed(w: Slots, draws: Seq<AsteroidDraw>, n: int)
    requires
        well_formed(w),
        n <= draws.len(),
    ensures
        well_formed(with_asteroids(w, draws, n)),
    decreases n,
{
    if n > 0 {
        lemma_with_asteroids_well_formed(w, draws, n - 1);
        lemma_pushed_well_formed(
            with_asteroids(w, draws, n - 1),
            draws[n - 1].asteroid().components(),
        );
    }
}

pub proof fn lemma_entities_moved_well_formed(
    w: Slots,
    spawn_timer: Timer,
    delta: u64,
    draws: Seq<AsteroidDraw>,
)
    requires
        well_formed(w),
    ensures
        well_formed(entities_moved(w, spawn_timer, delta, draws)),
{
    let sped = velocities_updated(w, delta);
    lemma_kept_well_formed(w, sped);
    let placed = positions_updated(sped, delta);
    lemma_kept_well_formed(sped, placed);
    let kept = all_confined(placed);
    lemma_kept_well_formed(placed, kept);
    lemma_with_asteroids_well_formed(
        kept,
        draws,
        asteroids_made(spawn_timer.ticked(delta).completions, draws),
    );
}

pub proof fn lemma_entities_settled_well_formed(w: Slots)
    requires
        well_formed(w),
    ensures
        well_formed(entities_settled(w)),
{
    let latched = all_latched(w);
    lemma_kept_well_formed(w, latched);
    lemma_kept_well_formed(latched, all_rescaled(latched));
}

/// In a frame of play, the world in which the dead are told from the living
/// has no entity without its parent.
pub proof fn lemma_before_deaths_well_formed(
    g: GameView,
    input: FrameInput,
    delta: u64,
    events: Seq<CollisionEvent>,
    draws: Seq<AsteroidDraw>,
)
    requires
        well_formed(g.world),
        g.world.len() + draws.len() + 3 <= usize::MAX,
    ensures
        well_formed(before_deaths(g, input, delta, events, draws)),
{
    let g0 = transitioned(g);
    lemma_transition_well_formed(g);
    let w0 = always_updated(g0.world, events, delta);
    lemma_always_updated_well_formed(g0.world, events, delta);
    assert(g0.world.len() <= g.world.len() + 2);
    let w1 = user_input(w0, input, g0.weapon_timer, delta);
    lemma_user_input_well_formed(w0, input, g0.weapon_timer, delta);
    let moved = entities_moved(w1, g0.spawn_timer, delta, draws);
    lemma_entities_moved_well_formed(w1, g0.spawn_timer, delta, draws);
    lemma_entities_settled_well_formed(moved);
}

/// In a frame of play, an entity that dies and is marked to go when it dies
/// is gone when the frame ends, and so is every entity attached to it,
/// directly or through others.
pub proof fn lemma_frame_removes_dead(
    g: GameView,
    input: FrameInput,
    delta: u64,
    events: Seq<CollisionEvent>,
    draws: Seq<AsteroidDraw>,
    e: Entity,
    attached: int,
)
    requires
        well_formed(g.world),
        g.world.len() + draws.len() + 3 <= usize::MAX,
        transitioned(g).state == GameState::InGame,
        alive(before_deaths(g, input, delta, events, draws), e as int),
        dies(before_deaths(g, input, delta, events, draws)[e as int]->0),
        before_deaths(g, input, delta, events, draws)[e as int]->0.despawn_on_die is Some,
    ensures
        !alive(updated(g, input, delta, events, draws).world, e as int),
        condemned(before_deaths(g, input, delta, events, draws), Selection::One(e), attached)
            ==> !alive(updated(g, input, delta, events, draws).world, attached),
{
    let g0 = transitioned(g);
    let w2 = before_deaths(g, input, delta, events, draws);
    lemma_before_deaths_well_formed(g, input, delta, events, draws);
    let w0 = always_updated(g0.world, events, delta);
    lemma_contacts_succeed(g0.world, events, events.len() as int);
    lemma_user_input_succeeds(w0, input, g0.weapon_timer, delta);
    lemma_entities_moved_succeed(
        user_input(w0, input, g0.weapon_timer, delta),
        g0.spawn_timer,
        delta,
        draws,
    );
    assert(g0.world.len() <= g.world.len() + 2);
    assert(w0.len() == g0.world.len());
    assert(w2.len() <= w0.len() + 1 + draws.len());
    let timed_out = timeouts(
        contacts(g0.world, events, events.len() as int),
        delta,
        w0.len() as int,
    );
    let listed = deaths(w2, w2.len() as int);
    let died = timed_out + listed;
    let k = lemma_death_is_listed(w2, w2.len() as int, e);
    let at = timed_out.len() + k;
    assert(died[at] == listed[k]);
    let w3 = looked_into(w2);
    lemma_kept_well_formed(w2, w3);
    if condemned(w2, Selection::One(e), attached) {
        lemma_looked_into_condemned(w2, e, attached);
    }
    lemma_dead_are_gone(w3, died, at, attached);
}

/// Looking into the changes of health changes nothing of what is attached
/// to what.
pub proof fn lemma_looked_into_condemned(w: Slots, e: Entity, attached: int)
    requires
        condemned(w, Selection::One(e), attached),
    ensures
        condemned(looked_into(w), Selection::One(e), attached),
    decreases attached,
{
    if attached != e {
        let p = w[attached]->0.parent->0;
        lemma_looked_into_condemned(w, e, p as int);
    }
}

} // verus!

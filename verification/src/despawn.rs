//! The removal of entities.

use vstd::prelude::*;
use crate::health::DieEvent;
use crate::timer::{Mode, Timer};
use crate::world::{
    alive, condemned, lemma_purged_well_formed, purged, well_formed, Component, Components, Entity,
    Selection, Slots, World,
};

verus! {

/// Marks an entity that is removed, with all that is attached to it, when it
/// dies.
#[derive(Clone, Copy, Debug, PartialEq, Eq)]
pub struct DespawnOnDie;

/// The time after which an entity dies.
#[derive(Clone, Copy, Debug, PartialEq, Eq)]
pub struct DespawnTimer {
    pub timer: Timer,
}

impl DespawnTimer {
    /// A timer that lets its entity die after `duration` nanoseconds.
    pub fn new(duration: u64) -> (t: DespawnTimer)
        ensures
            t.timer == Timer::fresh(duration, Mode::Once),
    {
        DespawnTimer { timer: Timer::new(duration, Mode::Once) }
    }
}

/// The world after the first `n` notices: each entity that is named, lives
/// and is marked to go when it dies is removed with all that is attached to
/// it.
pub open spec fn despawned(w: Slots, events: Seq<DieEvent>, n: int) -> Slots
    decreases n,
{
    if n <= 0 {
        w
    } else {
        let before = despawned(w, events, n - 1);
        let e = events[n - 1].entity as int;
        if alive(before, e) && before[e]->0.despawn_on_die is Some {
            purged(before, Selection::One(e as usize))
        } else {
            before
        }
    }
}

/// Removes each entity that a notice names and that is marked to go when it
/// dies, with all that is attached to it.
pub fn despawn_on_die(world: &mut World, events: &Vec<DieEvent>)
    requires
        old(world).wf(),
    ensures
        final(world).wf(),
        final(world)@ == despawned(old(world)@, events@, events@.len() as int),
{
    let mut i: usize = 0;
    while i < events.len()
        invariant
            i <= events@.len(),
            world.wf(),
            world@ == despawned(old(world)@, events@, i as int),
        decreases events@.len() - i,
    {
        let entity = events[i].entity;
        if let Some(c) = world.get(entity) {
            if c.despawn_on_die.is_some() {
                world.despawn_recursive(entity);
            }
        }
        i += 1;
    }
}

/// Removes every entity that carries a component of the kind, with all that
/// is attached to it.
pub fn remove_with_component(world: &mut World, kind: Component)
    requires
        old(world).wf(),
    ensures
        final(world).wf(),
        final(world)@ == purged(old(world)@, Selection::With(kind)),
{
    world.despawn_selected(Selection::With(kind));
}

/// An entity whose timer has counted `delta` nanoseconds more.
pub open spec fn timed(c: Components, delta: u64) -> Components {
    match c.despawn_timer {
        Some(t) => Components {
            despawn_timer: Some(DespawnTimer { timer: t.timer.ticked(delta) }),
            ..c
        },
        None => c,
    }
}

/// The world with every timer ticked.
pub open spec fn all_timed(w: Slots, delta: u64) -> Slots {
    Seq::new(
        w.len(),
        |e: int|
            match w[e] {
                Some(c) => Some(timed(c, delta)),
                None => None,
            },
    )
}

/// Whether the timer of an entity runs out in a tick of `delta`.
pub open spec fn times_out(c: Components, delta: u64) -> bool {
    c.despawn_timer is Some && c.despawn_timer->0.timer.ticked(delta).completions > 0
}

/// The notices for the entities below `n` whose timers run out, in the
/// order of the entities.
pub open spec fn timeouts(w: Slots, delta: u64, n: int) -> Seq<DieEvent>
    decreases n,
{
    if n <= 0 {
        Seq::empty()
    } else if alive(w, n - 1) && times_out(w[n - 1]->0, delta) {
        timeouts(w, delta, n - 1).push(DieEvent { entity: (n - 1) as usize })
    } else {
        timeouts(w, delta, n - 1)
    }
}

/// Ticks every timer and reports the entities whose time has run out.
pub fn update_despawn_timer(world: &mut World, events: &mut Vec<DieEvent>, delta: u64)
    requires
        old(world).wf(),
    ensures
        final(world).wf(),
        final(world)@ == all_timed(old(world)@, delta),
        final(events)@ == old(events)@ + timeouts(old(world)@, delta, old(world)@.len() as int),
{
    let n = world.len();
    let mut e: usize = 0;
    while e < n
        invariant
            e <= n,
            n == old(world)@.len(),
            world@.len() == n,
            world.wf(),
            forall|j: int| 0 <= j < e ==> world@[j] == all_timed(old(world)@, delta)[j],
            forall|j: int| e <= j < n ==> world@[j] == old(world)@[j],
            events@ == old(events)@ + timeouts(old(world)@, delta, e as int),
        decreases n - e,
    {
        if let Some(c) = world.get(e) {
            if let Some(despawn_timer) = c.despawn_timer {
                let mut timer = despawn_timer.timer;
                timer.tick(delta);
                if timer.just_finished() {
                    events.push(DieEvent { entity: e });
                    assert(events@ =~= old(events)@ + timeouts(old(world)@, delta, e + 1));
                }
                world.set(e, Components { despawn_timer: Some(DespawnTimer { timer }), ..c });
            }
        }
        e += 1;
    }
    assert(world@ =~= all_timed(old(world)@, delta));
}

/// Removal never brings an entity back, and changes none that stays.
pub proof fn lemma_despawned_keeps(w: Slots, events: Seq<DieEvent>, n: int, e: int)
    requires
        0 <= n <= events.len(),
    ensures
        despawned(w, events, n).len() == w.len(),
        alive(despawned(w, events, n), e) ==> alive(w, e) && despawned(w, events, n)[e] == w[e],
    decreases n,
{
    if n > 0 {
        lemma_despawned_keeps(w, events, n - 1, e);
    }
}

/// An entity that is marked to go when it dies is gone once its notice has
/// been served, and so is every entity attached to it, directly or through
/// others.
pub proof fn lemma_dead_are_gone(w: Slots, events: Seq<DieEvent>, k: int, attached: int)
    requires
        well_formed(w),
        0 <= k < events.len(),
        alive(w, events[k].entity as int),
        w[events[k].entity as int]->0.despawn_on_die is Some,
    ensures
        !alive(despawned(w, events, events.len() as int), events[k].entity as int),
        condemned(w, Selection::One(events[k].entity), attached) ==> !alive(
            despawned(w, events, events.len() as int),
            attached,
        ),
{
    let e = events[k].entity;
    let before = despawned(w, events, k);
    let after = despawned(w, events, k + 1);
    lemma_despawned_keeps(w, events, k, e as int);
    lemma_despawned_well_formed(w, events, k);
    assert forall|c: int| #[trigger] alive(before, c) implies alive(w, c) && before[c] == w[c] by {
        lemma_despawned_keeps(w, events, k, c);
    }
    if alive(before, e as int) {
        assert(condemned(before, Selection::One(e), e as int));
    }
    if condemned(w, Selection::One(e), attached) && alive(before, attached) {
        lemma_condemned_still(w, before, e, attached);
    }
    assert(!alive(after, e as int));
    lemma_despawned_suffix(w, events, k + 1, events.len() as int, e as int);
    lemma_despawned_suffix(w, events, k + 1, events.len() as int, attached);
}

/// In a later world, an entity that lives on and was attached to `e` is
/// still attached to `e`, and `e` lives on too.
pub proof fn lemma_condemned_still(w: Slots, later: Slots, e: Entity, attached: int)
    requires
        well_formed(later),
        forall|c: int| #[trigger] alive(later, c) ==> alive(w, c) && later[c] == w[c],
        condemned(w, Selection::One(e), attached),
        alive(later, attached),
    ensures
        condemned(later, Selection::One(e), attached),
        alive(later, e as int),
    decreases attached,
{
    if attached != e {
        let p = w[attached]->0.parent->0;
        assert(alive(later, p as int));
        lemma_condemned_still(w, later, e, p as int);
    }
}

/// Serving notices leaves no entity without its parent.
pub proof fn lemma_despawned_well_formed(w: Slots, events: Seq<DieEvent>, n: int)
    requires
        well_formed(w),
        0 <= n <= events.len(),
    ensures
        well_formed(despawned(w, events, n)),
    decreases n,
{
    if n > 0 {
        lemma_despawned_well_formed(w, events, n - 1);
        let before = despawned(w, events, n - 1);
        lemma_purged_well_formed(before, Selection::One(events[n - 1].entity));
    }
}

/// What is gone after `m` notices is gone after more.
pub proof fn lemma_despawned_suffix(w: Slots, events: Seq<DieEvent>, m: int, n: int, e: int)
    requires
        0 <= m <= n <= events.len(),
    ensures
        alive(despawned(w, events, n), e) ==> alive(despawned(w, events, m), e),
    decreases n - m,
{
    if m < n {
        lemma_despawned_suffix(w, events, m, n - 1, e);
    }
}

} // verus!

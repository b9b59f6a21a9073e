//! Health, and the notice of death.

use vstd::prelude::*;
use crate::world::{alive, Components, Entity, Slots, World};

verus! {

/// How much damage an entity can still take, in thousandths. At zero or
/// below the entity dies.
#[derive(Clone, Copy, Debug, PartialEq, Eq)]
pub struct Health {
    pub value: i32,
}

impl Health {
    pub fn new(value: i32) -> (h: Health)
        ensures
            h.value == value,
    {
        Health { value }
    }
}

impl From<i32> for Health {
    fn from(item: i32) -> (r: Health) {
        Health::new(item)
    }
}

impl vstd::std_specs::convert::FromSpecImpl<i32> for Health {
    open spec fn obeys_from_spec() -> bool {
        true
    }

    open spec fn from_spec(item: i32) -> Health {
        Health { value: item }
    }
}

impl AsRef<i32> for Health {
    fn as_ref(&self) -> (r: &i32)
        ensures
            *r == self.value,
    {
        &self.value
    }
}

/// The notice that the health of an entity has dropped to zero or below.
#[derive(Clone, Copy, Debug, PartialEq, Eq)]
pub struct DieEvent {
    pub entity: Entity,
}

/// Whether an entity is to be reported dead: its health has changed and is
/// at zero or below.
pub open spec fn dies(c: Components) -> bool {
    c.health_changed && c.health is Some && c.health->0.value <= 0
}

/// The notices for the entities below `n`, in the order of the entities.
pub open spec fn deaths(w: Slots, n: int) -> Seq<DieEvent>
    decreases n,
{
    if n <= 0 {
        Seq::empty()
    } else if alive(w, n - 1) && dies(w[n - 1]->0) {
        deaths(w, n - 1).push(DieEvent { entity: (n - 1) as usize })
    } else {
        deaths(w, n - 1)
    }
}

/// The world with every change of health looked into.
pub open spec fn looked_into(w: Slots) -> Slots {
    Seq::new(
        w.len(),
        |e: int|
            match w[e] {
                Some(c) => Some(Components { health_changed: false, ..c }),
                None => None,
            },
    )
}

/// How often the notices name `e`.
pub open spec fn times_named(events: Seq<DieEvent>, e: Entity) -> nat
    decreases events.len(),
{
    if events.len() == 0 {
        0
    } else {
        times_named(events.drop_last(), e) + if events.last().entity == e {
            1nat
        } else {
            0nat
        }
    }
}

/// Reports each entity whose health has changed and is at zero or below,
/// and takes the change as looked into.
pub fn send_die_event(world: &mut World, events: &mut Vec<DieEvent>)
    requires
        old(world).wf(),
    ensures
        final(world).wf(),
        final(world)@ == looked_into(old(world)@),
        final(events)@ == old(events)@ + deaths(old(world)@, old(world)@.len() as int),
{
    let n = world.len();
    let mut e: usize = 0;
    while e < n
        invariant
            e <= n,
            n == old(world)@.len(),
            world@.len() == n,
            world.wf(),
            forall|j: int| 0 <= j < e ==> world@[j] == looked_into(old(world)@)[j],
            forall|j: int| e <= j < n ==> world@[j] == old(world)@[j],
            events@ == old(events)@ + deaths(old(world)@, e as int),
        decreases n - e,
    {
        if let Some(c) = world.get(e) {
            if c.health_changed {
                if let Some(health) = c.health {
                    if health.value <= 0 {
                        events.push(DieEvent { entity: e });
                        assert(events@ =~= old(events)@ + deaths(old(world)@, e + 1));
                    }
                }
                world.set(e, Components { health_changed: false, ..c });
            }
        }
        e += 1;
    }
    assert(world@ =~= looked_into(old(world)@));
}

/// An entity is reported once if it dies and not at all if it does not.
pub proof fn lemma_dies_once(w: Slots, n: int, e: Entity)
    requires
        0 <= n <= w.len() <= usize::MAX,
    ensures
        times_named(deaths(w, n), e) == if e < n && alive(w, e as int) && dies(w[e as int]->0) {
            1nat
        } else {
            0nat
        },
    decreases n,
{
    if n > 0 {
        lemma_dies_once(w, n - 1, e);
        if alive(w, n - 1) && dies(w[n - 1]->0) {
            let d = deaths(w, n);
            assert(d.len() > 0);
            assert(d.last().entity == n - 1);
            assert(d.drop_last() =~= deaths(w, n - 1));
        }
    } else {
        assert(deaths(w, n).len() == 0);
    }
}

/// An entity that dies is among those reported.
pub proof fn lemma_death_is_listed(w: Slots, n: int, e: Entity) -> (k: int)
    requires
        e < n <= w.len() <= usize::MAX,
        alive(w, e as int),
        dies(w[e as int]->0),
    ensures
        0 <= k < deaths(w, n).len(),
        deaths(w, n)[k].entity == e,
    decreases n,
{
    if n - 1 == e {
        deaths(w, n).len() - 1
    } else {
        lemma_death_is_listed(w, n - 1, e)
    }
}

/// Once the changes have been looked into, nobody is reported again.
pub proof fn lemma_no_second_notice(w: Slots, n: int)
    requires
        0 <= n <= w.len(),
    ensures
        deaths(looked_into(w), n) == Seq::<DieEvent>::empty(),
    decreases n,
{
    if n > 0 {
        lemma_no_second_notice(w, n - 1);
    }
}

} // verus!

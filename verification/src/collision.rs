//! Damage by contact.

use vstd::prelude::*;
use crate::health::Health;
use crate::math::{saturate, saturate_i128};
use crate::world::{alive, Components, Entity, Slots, World};

verus! {

/// The damage that an entity deals to whatever it touches, in thousandths.
#[derive(Clone, Copy, Debug, PartialEq, Eq)]
pub struct CollisionDamage {
    pub amount: i32,
}

impl CollisionDamage {
    pub fn new(amount: i32) -> (d: CollisionDamage)
        ensures
            d.amount == amount,
    {
        CollisionDamage { amount }
    }
}

impl From<i32> for CollisionDamage {
    fn from(item: i32) -> (r: CollisionDamage) {
        CollisionDamage::new(item)
    }
}

impl vstd::std_specs::convert::FromSpecImpl<i32> for CollisionDamage {
    open spec fn obeys_from_spec() -> bool {
        true
    }

    open spec fn from_spec(item: i32) -> CollisionDamage {
        CollisionDamage { amount: item }
    }
}

impl AsRef<i32> for CollisionDamage {
    fn as_ref(&self) -> (r: &i32)
        ensures
            *r == self.amount,
    {
        &self.amount
    }
}

/// The shape by which contacts of an entity are found, sizes in thousandths.
#[derive(Clone, Copy, Debug, PartialEq, Eq)]
pub enum Collider {
    Ball { radius: i32 },
    Cuboid { hx: i32, hy: i32, hz: i32 },
}

impl Collider {
    pub fn ball(radius: i32) -> (c: Collider)
        ensures
            c == (Collider::Ball { radius }),
    {
        Collider::Ball { radius }
    }

    /// A box, given by half its extent along each axis.
    pub fn cuboid(hx: i32, hy: i32, hz: i32) -> (c: Collider)
        ensures
            c == (Collider::Cuboid { hx, hy, hz }),
    {
        Collider::Cuboid { hx, hy, hz }
    }
}

/// Marks a collider that reports contacts and pushes nothing.
#[derive(Clone, Copy, Debug, PartialEq, Eq)]
pub struct Sensor;

/// Marks a collider that takes part in contacts of every kind, whatever kind
/// of body the other collider belongs to.
#[derive(Clone, Copy, Debug, PartialEq, Eq)]
pub struct ActiveCollisionTypes;

/// Marks an entity whose contacts are reported.
#[derive(Clone, Copy, Debug, PartialEq, Eq)]
pub struct ActiveEvents;

/// What the contact detection reports of two entities.
#[derive(Clone, Copy, Debug, PartialEq, Eq)]
pub enum CollisionEvent {
    /// The two have begun to touch.
    Started(Entity, Entity),
    /// The two have ceased to touch.
    Stopped(Entity, Entity),
}

/// The world after `damager` has touched `target`: if the one deals damage
/// and the other has health, the health is less by the damage, as far as a
/// scalar goes, and marked as changed. Otherwise nothing happens.
pub open spec fn damaged(w: Slots, damager: Entity, target: Entity) -> Slots {
    if alive(w, damager as int) && alive(w, target as int)
        && w[damager as int]->0.collision_damage is Some && w[target as int]->0.health is Some {
        let c = w[target as int]->0;
        let left = saturate(c.health->0.value - w[damager as int]->0.collision_damage->0.amount);
        w.update(
            target as int,
            Some(Components { health: Some(Health { value: left as i32 }), health_changed: true, ..c }),
        )
    } else {
        w
    }
}

/// The world after one report: where two entities have begun to touch, the
/// first damages the second, then the second the first.
pub open spec fn contact(w: Slots, event: CollisionEvent) -> Slots {
    match event {
        CollisionEvent::Started(a, b) => damaged(damaged(w, a, b), b, a),
        CollisionEvent::Stopped(_, _) => w,
    }
}

/// The world after the first `n` reports, each applied in turn.
pub open spec fn contacts(w: Slots, events: Seq<CollisionEvent>, n: int) -> Slots
    decreases n,
{
    if n <= 0 {
        w
    } else {
        contact(contacts(w, events, n - 1), events[n - 1])
    }
}

/// Takes the damage that `damager` deals from the health of `damaged`, if
/// the one deals damage and the other has health.
pub fn try_damage(damager: Entity, damaged: Entity, world: &mut World)
    requires
        old(world).wf(),
    ensures
        final(world).wf(),
        final(world)@ == self::damaged(old(world)@, damager, damaged),
{
    let Some(source) = world.get(damager) else {
        return ;
    };
    let Some(collision_damage) = source.collision_damage else {
        return ;
    };
    let Some(target) = world.get(damaged) else {
        return ;
    };
    let Some(health) = target.health else {
        return ;
    };
    let value = saturate_i128(health.value as i128 - collision_damage.amount as i128);
    world.set(
        damaged,
        Components { health: Some(Health { value }), health_changed: true, ..target },
    );
}

/// Applies the damage of every contact that has begun. Reports are taken
/// one by one: the same pair reported twice is damaged twice.
pub fn apply_collision_damage(world: &mut World, events: &Vec<CollisionEvent>)
    requires
        old(world).wf(),
    ensures
        final(world).wf(),
        final(world)@ == contacts(old(world)@, events@, events@.len() as int),
{
    let mut i: usize = 0;
    while i < events.len()
        invariant
            i <= events@.len(),
            world.wf(),
            world@ == contacts(old(world)@, events@, i as int),
        decreases events@.len() - i,
    {
        match events[i] {
            CollisionEvent::Started(entity1, entity2) => {
                try_damage(entity1, entity2, world);
                try_damage(entity2, entity1, world);
            },
            CollisionEvent::Stopped(_, _) => {},
        }
        i += 1;
    }
}

/// Where an entity that deals damage and has no health touches one that has
/// health and deals no damage, the second loses the damage of the first from
/// its health and nothing else changes, in whichever order the two are
/// reported.
pub proof fn lemma_contact_one_sided(w: Slots, x: Entity, y: Entity)
    requires
        alive(w, x as int),
        alive(w, y as int),
        w[x as int]->0.collision_damage is Some,
        w[x as int]->0.health is None,
        w[y as int]->0.health is Some,
        w[y as int]->0.collision_damage is None,
    ensures
        contact(w, CollisionEvent::Started(x, y)) == contact(w, CollisionEvent::Started(y, x)),
        contact(w, CollisionEvent::Started(x, y)) == w.update(
            y as int,
            Some(
                Components {
                    health: Some(
                        Health {
                            value: saturate(
                                w[y as int]->0.health->0.value
                                    - w[x as int]->0.collision_damage->0.amount,
                            ) as i32,
                        },
                    ),
                    health_changed: true,
                    ..w[y as int]->0
                },
            ),
        ),
        contact(w, CollisionEvent::Started(x, y))[x as int] == w[x as int],
{
}

} // verus!

use vstd::prelude::*;
use crate::movement::Velocity;
use crate::vec3::Vec3;
use crate::world::{alive, Components, Slots, World};

verus! {

/// Change of velocity per second.
#[derive(Clone, Copy, Debug, PartialEq, Eq)]
pub struct Acceleration {
    pub value: Vec3,
}

impl Acceleration {
    pub fn new(value: Vec3) -> (a: Acceleration)
        ensures
            a.value == value,
    {
        Acceleration { value }
    }
}

impl From<Vec3> for Acceleration {
    fn from(item: Vec3) -> (r: Acceleration) {
        Acceleration::new(item)
    }
}

impl vstd::std_specs::convert::FromSpecImpl<Vec3> for Acceleration {
    open spec fn obeys_from_spec() -> bool {
        true
    }

    open spec fn from_spec(item: Vec3) -> Acceleration {
        Acceleration { value: item }
    }
}

} // verus!

verus! {

/// An entity after `delta` nanoseconds of its acceleration: with an
/// acceleration `a` and a velocity `v` it has the velocity `v + a * delta`,
/// without either it is as before.
pub open spec fn accelerated(c: Components, delta: u64) -> Components {
    match (c.acceleration, c.velocity) {
        (Some(a), Some(v)) => Components {
            velocity: Some(Velocity { value: v.value.moved(a.value, delta) }),
            ..c
        },
        _ => c,
    }
}

/// The world with every entity accelerated.
pub open spec fn velocities_updated(w: Slots, delta: u64) -> Slots {
    Seq::new(
        w.len(),
        |e: int|
            match w[e] {
                Some(c) => Some(accelerated(c, delta)),
                None => None,
            },
    )
}

/// Adds to each velocity what the acceleration comes to over `delta`
/// nanoseconds.
pub fn update_velocity(world: &mut World, delta: u64)
    requires
        old(world).wf(),
    ensures
        final(world).wf(),
        final(world)@ == velocities_updated(old(world)@, delta),
{
    let n = world.len();
    let mut e: usize = 0;
    while e < n
        invariant
            e <= n,
            n == old(world)@.len(),
            world@.len() == n,
            world.wf(),
            forall|j: int| 0 <= j < e ==> world@[j] == velocities_updated(old(world)@, delta)[j],
            forall|j: int| e <= j < n ==> world@[j] == old(world)@[j],
        decreases n - e,
    {
        if let Some(c) = world.get(e) {
            if let Some(a) = c.acceleration {
                if let Some(v) = c.velocity {
                    let value = v.value.advance(a.value, delta);
                    world.set(e, Components { velocity: Some(Velocity { value }), ..c });
                }
            }
        }
        e += 1;
    }
    assert(world@ =~= velocities_updated(old(world)@, delta));
}

/// The velocity that an entity has after a tick depends on that entity
/// alone: it is `v + a * delta`, whatever else is in the world.
pub proof fn lemma_velocity_update_is_local(w1: Slots, w2: Slots, e: int, delta: u64)
    requires
        alive(w1, e),
        alive(w2, e),
        w1[e] == w2[e],
    ensures
        velocities_updated(w1, delta)[e] == velocities_updated(w2, delta)[e],
        velocities_updated(w1, delta)[e] == Some(accelerated(w1[e]->0, delta)),
        w1[e]->0.acceleration is Some && w1[e]->0.velocity is Some ==> accelerated(
            w1[e]->0,
            delta,
        ).velocity == Some(
            Velocity {
                value: w1[e]->0.velocity->0.value.moved(w1[e]->0.acceleration->0.value, delta),
            },
        ),
{
}

} // verus!

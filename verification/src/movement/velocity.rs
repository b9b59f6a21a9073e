use vstd::prelude::*;
use crate::movement::Transform;
use crate::vec3::Vec3;
use crate::world::{Components, Slots, World};

verus! {

/// Change of position per second.
#[derive(Clone, Copy, Debug, PartialEq, Eq)]
pub struct Velocity {
    pub value: Vec3,
}

impl Velocity {
    pub fn new(value: Vec3) -> (v: Velocity)
        ensures
            v.value == value,
    {
        Velocity { value }
    }
}

impl From<Vec3> for Velocity {
    fn from(item: Vec3) -> (r: Velocity) {
        Velocity::new(item)
    }
}

impl vstd::std_specs::convert::FromSpecImpl<Vec3> for Velocity {
    open spec fn obeys_from_spec() -> bool {
        true
    }

    open spec fn from_spec(item: Vec3) -> Velocity {
        Velocity { value: item }
    }
}

} // verus!

verus! {

/// An entity after `delta` nanoseconds of its velocity: with a velocity `v`
/// at `p` it is at `p + v * delta`, without one it is where it was.
pub open spec fn displaced(c: Components, delta: u64) -> Components {
    match c.velocity {
        Some(v) => Components {
            transform: Transform {
                translation: c.transform.translation.moved(v.value, delta),
                ..c.transform
            },
            ..c
        },
        None => c,
    }
}

/// The world with every entity displaced.
pub open spec fn positions_updated(w: Slots, delta: u64) -> Slots {
    Seq::new(
        w.len(),
        |e: int|
            match w[e] {
                Some(c) => Some(displaced(c, delta)),
                None => None,
            },
    )
}

/// Adds to each position what the velocity comes to over `delta`
/// nanoseconds.
pub fn update_position(world: &mut World, delta: u64)
    requires
        old(world).wf(),
    ensures
        final(world).wf(),
        final(world)@ == positions_updated(old(world)@, delta),
{
    let n = world.len();
    let mut e: usize = 0;
    while e < n
        invariant
            e <= n,
            n == old(world)@.len(),
            world@.len() == n,
            world.wf(),
            forall|j: int| 0 <= j < e ==> world@[j] == positions_updated(old(world)@, delta)[j],
            forall|j: int| e <= j < n ==> world@[j] == old(world)@[j],
        decreases n - e,
    {
        if let Some(c) = world.get(e) {
            if let Some(v) = c.velocity {
                let translation = c.transform.translation.advance(v.value, delta);
                world.set(
                    e,
                    Components { transform: Transform { translation, ..c.transform }, ..c },
                );
            }
        }
        e += 1;
    }
    assert(world@ =~= positions_updated(old(world)@, delta));
}

} // verus!

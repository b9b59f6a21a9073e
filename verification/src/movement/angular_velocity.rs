use vstd::prelude::*;
use crate::vec3::Vec3;
use crate::world::{alive, Entity, Slots, World};

verus! {

/// Turn per second about each of the entity's own axes, in thousandths of a
/// radian.
#[derive(Clone, Copy, Debug, PartialEq, Eq)]
pub struct AngularVelocity {
    pub value: Vec3,
}

impl AngularVelocity {
    pub fn new(value: Vec3) -> (a: AngularVelocity)
        ensures
            a.value == value,
    {
        AngularVelocity { value }
    }
}

impl From<Vec3> for AngularVelocity {
    fn from(item: Vec3) -> (r: AngularVelocity) {
        AngularVelocity::new(item)
    }
}

impl vstd::std_specs::convert::FromSpecImpl<Vec3> for AngularVelocity {
    open spec fn obeys_from_spec() -> bool {
        true
    }

    open spec fn from_spec(item: Vec3) -> AngularVelocity {
        AngularVelocity { value: item }
    }
}

} // verus!

verus! {

/// The turn that an entity makes in one frame: about its own x axis, then
/// its own y axis, then its own z axis, by these angles in thousandths of a
/// radian. Whoever keeps the orientation of the entity applies it.
#[derive(Clone, Copy, Debug, PartialEq, Eq)]
pub struct Rotation {
    pub entity: Entity,
    pub angles: Vec3,
}

/// The turns of the entities below `n`, in the order of the entities: one
/// for each that has an angular velocity, by that velocity times `delta`.
pub open spec fn rotations(w: Slots, delta: u64, n: int) -> Seq<Rotation>
    decreases n,
{
    if n <= 0 {
        Seq::empty()
    } else {
        let before = rotations(w, delta, n - 1);
        if alive(w, n - 1) && w[n - 1]->0.angular_velocity is Some {
            before.push(
                Rotation {
                    entity: (n - 1) as usize,
                    angles: w[n - 1]->0.angular_velocity->0.value.during(delta),
                },
            )
        } else {
            before
        }
    }
}

/// Works out how far each entity turns in `delta` nanoseconds.
pub fn update_rotation(world: &World, delta: u64) -> (turns: Vec<Rotation>)
    ensures
        turns@ == rotations(world@, delta, world@.len() as int),
{
    let n = world.len();
    let mut turns: Vec<Rotation> = Vec::new();
    let mut e: usize = 0;
    while e < n
        invariant
            e <= n,
            n == world@.len(),
            turns@ == rotations(world@, delta, e as int),
        decreases n - e,
    {
        if let Some(c) = world.get(e) {
            if let Some(a) = c.angular_velocity {
                turns.push(Rotation { entity: e, angles: a.value.over(delta) });
            }
        }
        e += 1;
    }
    turns
}

} // verus!

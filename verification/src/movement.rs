//! Motion: acceleration, velocity, the boundary of the play area, rotation.

pub mod acceleration;
pub mod angular_velocity;
pub mod moving_object_bundle;
pub mod velocity;

pub use acceleration::Acceleration;
pub use angular_velocity::AngularVelocity;
pub use moving_object_bundle::MovingObjectBundle;
pub use velocity::Velocity;

use vstd::prelude::*;

use crate::math::lemma_sqrt_at_least;
use crate::vec3::{lemma_with_length, Vec3};
use crate::world::{Components, Slots, World};

verus! {

/// The radius of the play area, in thousandths.
pub const WORLD_SIZE: i32 = 50_000;

/// How far beyond the boundary, on the far side, an entity comes back in.
pub const EPSILON: i32 = 10;

/// Where an entity is and how large it is drawn. Which way it faces is kept
/// by whoever draws it.
#[derive(Clone, Copy, Debug, PartialEq, Eq)]
pub struct Transform {
    pub translation: Vec3,
    pub scale: Vec3,
}

impl Transform {
    pub open spec fn at(translation: Vec3) -> Transform {
        Transform { translation, scale: Vec3 { x: 1000, y: 1000, z: 1000 } }
    }

    /// A transform at `translation`, at scale one.
    pub fn from_translation(translation: Vec3) -> (t: Transform)
        ensures
            t == Transform::at(translation),
    {
        Transform { translation, scale: Vec3 { x: 1000, y: 1000, z: 1000 } }
    }

    pub fn with_scale(self, scale: Vec3) -> (t: Transform)
        ensures
            t == (Transform { scale, ..self }),
    {
        Transform { scale, ..self }
    }
}

/// Marks an entity that cannot leave the play area: beyond the boundary it
/// comes back in on the other side. Once attached it stays.
#[derive(Clone, Copy, Debug, PartialEq, Eq)]
pub struct ConfinedToPlayArea;

/// Whether the point is on or beyond the boundary of the play area.
pub open spec fn outside(p: Vec3) -> bool {
    p.norm_squared() >= WORLD_SIZE * WORLD_SIZE
}

/// Where an entity at `p` comes back in: opposite to `p`, at the distance of
/// the boundary and [`EPSILON`] from the origin.
pub open spec fn wrapped(p: Vec3) -> Vec3 {
    p.with_length((WORLD_SIZE + EPSILON) as i32).opposite()
}

/// An entity after the boundary has been applied to it: one that is
/// confined and outside comes back in on the other side.
pub open spec fn confined(c: Components) -> Components {
    if c.confined is Some && outside(c.transform.translation) {
        Components {
            transform: Transform { translation: wrapped(c.transform.translation), ..c.transform },
            ..c
        }
    } else {
        c
    }
}

/// The world with the boundary applied to every entity.
pub open spec fn all_confined(w: Slots) -> Slots {
    Seq::new(
        w.len(),
        |e: int|
            match w[e] {
                Some(c) => Some(confined(c)),
                None => None,
            },
    )
}

/// Sends every confined entity that has reached the boundary to the other
/// side.
pub fn confine_to_play_area(world: &mut World)
    requires
        old(world).wf(),
    ensures
        final(world).wf(),
        final(world)@ == all_confined(old(world)@),
{
    let n = world.len();
    let mut e: usize = 0;
    while e < n
        invariant
            e <= n,
            n == old(world)@.len(),
            world@.len() == n,
            world.wf(),
            forall|j: int| 0 <= j < e ==> world@[j] == all_confined(old(world)@)[j],
            forall|j: int| e <= j < n ==> world@[j] == old(world)@[j],
        decreases n - e,
    {
        if let Some(c) = world.get(e) {
            if c.confined.is_some() && c.transform.translation.length_squared() >= 2_500_000_000 {
                let translation = c.transform.translation.resized(WORLD_SIZE + EPSILON).neg();
                world.set(
                    e,
                    Components { transform: Transform { translation, ..c.transform }, ..c },
                );
            }
        }
        e += 1;
    }
    assert(world@ =~= all_confined(old(world)@));
}

/// An entity that comes back in is on the far side of the origin along
/// every axis, and at the distance of the boundary and [`EPSILON`] from the
/// origin, within four thousandths below and one above.
pub proof fn lemma_wrapped_is_opposite(p: Vec3)
    requires
        outside(p),
    ensures
        p.x >= 0 ==> wrapped(p).x <= 0,
        p.x <= 0 ==> wrapped(p).x >= 0,
        p.y >= 0 ==> wrapped(p).y <= 0,
        p.y <= 0 ==> wrapped(p).y >= 0,
        p.z >= 0 ==> wrapped(p).z <= 0,
        p.z <= 0 ==> wrapped(p).z >= 0,
        wrapped(p).norm_squared() <= (WORLD_SIZE + EPSILON) * (WORLD_SIZE + EPSILON) + 1,
        wrapped(p).norm_squared() > (WORLD_SIZE + EPSILON - 4) * (WORLD_SIZE + EPSILON - 4),
{
    let len: int = 50_010;
    let q = p.with_length(50_010);
    let l = lemma_with_length(p, 50_010);
    let n = q.norm_squared();
    assert(wrapped(p).norm_squared() == n) by (nonlinear_arith)
        requires
            wrapped(p).x == -q.x,
            wrapped(p).y == -q.y,
            wrapped(p).z == -q.z,
            n == q.x * q.x + q.y * q.y + q.z * q.z,
            wrapped(p).norm_squared() == wrapped(p).x * wrapped(p).x + wrapped(p).y * wrapped(p).y
                + wrapped(p).z * wrapped(p).z,
    ;
    lemma_sqrt_at_least(p.norm_squared() * 0x1_0000_0000, 3_276_800_000);
    let ll = l * l;
    assert(ll >= 3_276_800_000 * l) by (nonlinear_arith)
        requires
            ll == l * l,
            l >= 3_276_800_000,
    ;
    if n >= len * len + 2 {
        assert(n * ll >= (len * len + 2) * ll) by (nonlinear_arith)
            requires
                n >= len * len + 2,
                ll >= 0,
        ;
        assert(false) by (nonlinear_arith)
            requires
                (len * len + 2) * ll < (len * len) * (ll + 2 * l + 1),
                ll >= 3_276_800_000 * l,
                l >= 3_276_800_000,
                len == 50_010,
        ;
    }
}

} // verus!

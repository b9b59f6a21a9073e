use vstd::prelude::*;
use crate::collision::{ActiveCollisionTypes, Collider, Sensor};
use crate::movement::{Acceleration, AngularVelocity, Transform, Velocity};
use crate::world::Components;

verus! {

/// What every moving thing of the game carries. Its collider is a sensor
/// and takes part in contacts of every kind.
#[derive(Clone, Copy, Debug, PartialEq, Eq)]
pub struct MovingObjectBundle {
    pub velocity: Velocity,
    pub acceleration: Acceleration,
    pub angular_velocity: AngularVelocity,
    pub transform: Transform,
    pub sensor: Sensor,
    pub active_collision_types: ActiveCollisionTypes,
    pub collider: Collider,
}

impl MovingObjectBundle {
    pub fn new(
        transform: Transform,
        collider: Collider,
        velocity: Velocity,
        acceleration: Acceleration,
        angular_velocity: AngularVelocity,
    ) -> (b: MovingObjectBundle)
        ensures
            b == (MovingObjectBundle {
                velocity,
                acceleration,
                angular_velocity,
                transform,
                sensor: Sensor,
                active_collision_types: ActiveCollisionTypes,
                collider,
            }),
    {
        MovingObjectBundle {
            velocity,
            acceleration,
            angular_velocity,
            transform,
            sensor: Sensor,
            active_collision_types: ActiveCollisionTypes,
            collider,
        }
    }

    /// The components of an entity made from the bundle alone.
    pub open spec fn components(self) -> Components {
        Components {
            velocity: Some(self.velocity),
            acceleration: Some(self.acceleration),
            angular_velocity: Some(self.angular_velocity),
            collider: Some(self.collider),
            sensor: Some(self.sensor),
            active_collision_types: Some(self.active_collision_types),
            ..Components::bare(self.transform)
        }
    }

    pub fn into_components(self) -> (c: Components)
        ensures
            c == self.components(),
    {
        let mut c = Components::new(self.transform);
        c.velocity = Some(self.velocity);
        c.acceleration = Some(self.acceleration);
        c.angular_velocity = Some(self.angular_velocity);
        c.collider = Some(self.collider);
        c.sensor = Some(self.sensor);
        c.active_collision_types = Some(self.active_collision_types);
        c
    }
}

} // verus!

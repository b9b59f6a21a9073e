//! The player's spaceship and its missiles.

use vstd::prelude::*;
use crate::collision::{
    ActiveCollisionTypes, ActiveEvents, Collider, CollisionDamage, Sensor,
};
use crate::despawn::DespawnOnDie;
use crate::health::{DieEvent, Health};
use crate::math::{mul_div_i128, over_time, saturate, saturate_i128, NANOS_PER_SECOND};
use crate::movement::{
    Acceleration, AngularVelocity, ConfinedToPlayArea, MovingObjectBundle, Transform, Velocity,
};
use crate::state::GameState;
use crate::timer::{Mode, Timer};
use crate::vec3::Vec3;
use crate::world::{holder, lookup, Component, Components, Entity, Lookup, Slots, World};

verus! {

/// The health of a new spaceship.
pub const SPACESHIP_HEALTH: i32 = 150_000;

/// The damage that the spaceship deals to what it touches.
pub const SPACESHIP_DAMAGE: i32 = 20_000;

/// The speed along its heading below which the spaceship accelerates.
pub const SPACESHIP_SPEED: i32 = 30_000;

/// What the thrust adds to the velocity in one frame.
pub const SPACESHIP_ACCELERATION: i32 = 1_000;

/// The turn per second about the vertical, in thousandths of a radian.
pub const SPACESHIP_ROTATION_SPEED: i32 = 2_500;

/// The roll per frame, in thousandths of a radian.
pub const SPACESHIP_ROLL_SPEED: i32 = 100;

/// The share of its velocity that the spaceship loses per second.
pub const SPACESHIP_DRAG: i32 = 500;

/// The speed of a missile.
pub const MISSILE_SPEED: i32 = 50_000;

/// How far ahead of the spaceship a missile is made.
pub const MISSILE_FORWARD_SCALAR: i32 = 7_500;

/// The radius of the collider of a missile.
pub const MISSILE_RADIUS: i32 = 500;

/// The damage that a missile deals.
pub const MISSILE_DAMAGE: i32 = 5_000;

/// The damage that a missile takes before it is gone.
pub const MISSILE_HEALTH: i32 = 2_500;

/// The time between two missiles, in nanoseconds: five are fired a second.
pub const WEAPON_PERIOD_NANOS: u64 = 200_000_000;

/// Marks the player's spaceship.
#[derive(Clone, Copy, Debug, PartialEq, Eq)]
pub struct Spaceship;

/// Marks a missile of the spaceship.
#[derive(Clone, Copy, Debug, PartialEq, Eq)]
pub struct SpaceshipMissile;

/// Marks a spaceship whose shield is up.
#[derive(Clone, Copy, Debug, PartialEq, Eq)]
pub struct SpaceshipShield;

/// The timer that spaces the missiles.
#[derive(Clone, Copy, Debug, PartialEq, Eq)]
pub struct SpaceshipWeaponTimer {
    pub timer: Timer,
}

impl SpaceshipWeaponTimer {
    /// The timer at its start.
    pub open spec fn new_spec() -> SpaceshipWeaponTimer {
        SpaceshipWeaponTimer { timer: Timer::fresh(WEAPON_PERIOD_NANOS, Mode::Repeating) }
    }

    pub fn new() -> (t: SpaceshipWeaponTimer)
        ensures
            t == SpaceshipWeaponTimer::new_spec(),
    {
        SpaceshipWeaponTimer { timer: Timer::new(WEAPON_PERIOD_NANOS, Mode::Repeating) }
    }
}

/// The keys that steer the spaceship, each true while the key is down.
#[derive(Clone, Copy, Debug, PartialEq, Eq)]
pub struct Controls {
    pub left: bool,
    pub right: bool,
    pub thrust: bool,
    /// Roll by a negative angle.
    pub roll_clockwise: bool,
    /// Roll by a positive angle.
    pub roll_counter: bool,
    pub fire: bool,
    pub shield: bool,
}

/// The turn that the keys ask of the spaceship in one frame, in thousandths
/// of a radian: `yaw` about the vertical of the world, then `roll` about the
/// spaceship's own long axis.
#[derive(Clone, Copy, Debug, PartialEq, Eq)]
pub struct Steering {
    pub yaw: i32,
    pub roll: i32,
}

/// What became of the controls of a frame.
#[derive(Clone, Copy, Debug, PartialEq, Eq)]
pub enum ControlOutcome {
    /// There is one spaceship, and it is to turn like this.
    Steered(Steering),
    /// There is no spaceship: nothing was done.
    NoSpaceship,
    /// There is more than one spaceship: nothing was done.
    ManySpaceships,
}

/// The turn that the keys ask for over `delta` nanoseconds. Right goes
/// before left, and the key that rolls clockwise before the other.
pub open spec fn steering_of(controls: Controls, delta: u64) -> Steering {
    Steering {
        yaw: if controls.right {
            saturate(over_time(-SPACESHIP_ROTATION_SPEED as int, delta as int)) as i32
        } else if controls.left {
            saturate(over_time(SPACESHIP_ROTATION_SPEED as int, delta as int)) as i32
        } else {
            0
        },
        roll: if controls.roll_clockwise {
            -SPACESHIP_ROLL_SPEED as i32
        } else if controls.roll_counter {
            SPACESHIP_ROLL_SPEED
        } else {
            0
        },
    }
}

/// Works out the turn that the keys ask for.
pub fn steering(controls: &Controls, delta: u64) -> (s: Steering)
    ensures
        s == steering_of(*controls, delta),
{
    let mut yaw: i32 = 0;
    if controls.right {
        yaw = saturate_i128(
            mul_div_i128(-SPACESHIP_ROTATION_SPEED, delta as i128, NANOS_PER_SECOND as i128),
        );
    } else if controls.left {
        yaw = saturate_i128(
            mul_div_i128(SPACESHIP_ROTATION_SPEED, delta as i128, NANOS_PER_SECOND as i128),
        );
    }
    let mut roll: i32 = 0;
    if controls.roll_clockwise {
        roll = -SPACESHIP_ROLL_SPEED;
    } else if controls.roll_counter {
        roll = SPACESHIP_ROLL_SPEED;
    }
    Steering { yaw, roll }
}

/// The velocity `v` after a frame of `delta` nanoseconds: it loses half of
/// itself per second, and while the thrust is on and the speed along
/// `heading` is below the limit, it gains the thrust along `heading`. At the
/// limit itself there is no thrust.
pub open spec fn driven(v: Vec3, controls: Controls, heading: Vec3, delta: u64) -> Vec3 {
    let slowed = v.moved(v.times(-SPACESHIP_DRAG as i32), delta);
    if controls.thrust && heading.dot(slowed) < SPACESHIP_SPEED * 1000 {
        slowed.plus(heading.times(SPACESHIP_ACCELERATION))
    } else {
        slowed
    }
}

/// Works out the velocity of the spaceship after a frame.
pub fn drive(v: Vec3, controls: &Controls, heading: Vec3, delta: u64) -> (r: Vec3)
    ensures
        r == driven(v, *controls, heading, delta),
{
    let slowed = v.advance(v.scale(-SPACESHIP_DRAG), delta);
    if controls.thrust && heading.dot_product(slowed) < 30_000_000 {
        slowed.add(heading.scale(SPACESHIP_ACCELERATION))
    } else {
        slowed
    }
}

/// The new spaceship: at rest at its starting place, confined to the play
/// area.
pub open spec fn new_spaceship() -> Components {
    Components {
        spaceship: Some(Spaceship),
        collision_damage: Some(CollisionDamage { amount: SPACESHIP_DAMAGE }),
        health: Some(Health { value: SPACESHIP_HEALTH }),
        health_changed: true,
        active_events: Some(ActiveEvents),
        despawn_on_die: Some(DespawnOnDie),
        confined: Some(ConfinedToPlayArea),
        ..(MovingObjectBundle {
            velocity: Velocity { value: Vec3 { x: 0, y: 0, z: 0 } },
            acceleration: Acceleration { value: Vec3 { x: 0, y: 0, z: 0 } },
            angular_velocity: AngularVelocity { value: Vec3 { x: 0, y: 0, z: 0 } },
            transform: Transform::at(Vec3 { x: 0, y: 0, z: (-20_000i32) }),
            sensor: Sensor,
            active_collision_types: ActiveCollisionTypes,
            collider: Collider::Cuboid { hx: 4_000, hy: 1_000, hz: 5_000 },
        }).components()
    }
}

/// The light that the spaceship carries.
pub open spec fn spaceship_light(ship: Entity) -> Components {
    Components {
        parent: Some(ship),
        ..Components::bare(
            Transform {
                translation: Vec3 { x: 0, y: 2_000, z: 2_000 },
                scale: Vec3 { x: 5_000, y: 5_000, z: 5_000 },
            },
        )
    }
}

/// The world with a new spaceship and its light.
pub open spec fn with_spaceship(w: Slots) -> Slots {
    w.push(Some(new_spaceship())).push(Some(spaceship_light(w.len() as Entity)))
}

/// Makes the spaceship, and the light attached to it.
pub fn spawn_spaceship(world: &mut World) -> (ship: Entity)
    requires
        old(world).wf(),
    ensures
        final(world).wf(),
        ship == old(world)@.len(),
        final(world)@ == with_spaceship(old(world)@),
{
    let mut c = MovingObjectBundle::new(
        Transform::from_translation(Vec3::new(0, 0, -20_000)),
        Collider::cuboid(4_000, 1_000, 5_000),
        Velocity::new(Vec3::zero()),
        Acceleration::new(Vec3::zero()),
        AngularVelocity::new(Vec3::zero()),
    ).into_components();
    c.spaceship = Some(Spaceship);
    c.collision_damage = Some(CollisionDamage::new(SPACESHIP_DAMAGE));
    c.health = Some(Health::new(SPACESHIP_HEALTH));
    c.health_changed = true;
    c.active_events = Some(ActiveEvents);
    c.despawn_on_die = Some(DespawnOnDie);
    c.confined = Some(ConfinedToPlayArea);
    let ship = world.spawn(c);
    let light = Components::new(
        Transform::from_translation(Vec3::new(0, 2_000, 2_000)).with_scale(
            Vec3::new(5_000, 5_000, 5_000),
        ),
    );
    world.spawn_child(ship, light);
    ship
}

/// The world after the controls have moved the spaceship: where there is
/// exactly one, and it has a velocity, that velocity is [`driven`].
pub open spec fn movement_controlled(w: Slots, controls: Controls, heading: Vec3, delta: u64) -> Slots {
    match lookup(w, Component::Spaceship) {
        Lookup::One(e) => match w[e as int]->0.velocity {
            Some(v) => w.update(
                e as int,
                Some(
                    Components {
                        velocity: Some(
                            Velocity { value: driven(v.value, controls, heading, delta) },
                        ),
                        ..w[e as int]->0
                    },
                ),
            ),
            None => w,
        },
        _ => w,
    }
}

/// What the controls of a frame come to.
pub open spec fn control_outcome(w: Slots, controls: Controls, delta: u64) -> ControlOutcome {
    match lookup(w, Component::Spaceship) {
        Lookup::One(_) => ControlOutcome::Steered(steering_of(controls, delta)),
        Lookup::Nothing => ControlOutcome::NoSpaceship,
        Lookup::Many => ControlOutcome::ManySpaceships,
    }
}

/// Steers and drives the spaceship by the keys that are down. `heading` is
/// the direction in which the spaceship points once it has made the turn of
/// this frame, as a vector of length one. Without exactly one spaceship
/// nothing is done.
pub fn spaceship_movement_controls(
    world: &mut World,
    controls: &Controls,
    heading: Vec3,
    delta: u64,
) -> (outcome: ControlOutcome)
    requires
        old(world).wf(),
    ensures
        final(world).wf(),
        final(world)@ == movement_controlled(old(world)@, *controls, heading, delta),
        outcome == control_outcome(old(world)@, *controls, delta),
{
    let ship = match world.single(Component::Spaceship) {
        Lookup::One(ship) => ship,
        Lookup::Nothing => {
            return ControlOutcome::NoSpaceship;
        },
        Lookup::Many => {
            return ControlOutcome::ManySpaceships;
        },
    };
    if let Some(c) = world.get(ship) {
        if let Some(v) = c.velocity {
            let value = drive(v.value, controls, heading, delta);
            world.set(ship, Components { velocity: Some(Velocity { value }), ..c });
        }
    }
    ControlOutcome::Steered(steering(controls, delta))
}

/// The missile that a spaceship at `from` fires along `heading`.
pub open spec fn new_missile(from: Vec3, heading: Vec3) -> Components {
    Components {
        missile: Some(SpaceshipMissile),
        collision_damage: Some(CollisionDamage { amount: MISSILE_DAMAGE }),
        health: Some(Health { value: MISSILE_HEALTH }),
        health_changed: true,
        despawn_on_die: Some(DespawnOnDie),
        confined: Some(ConfinedToPlayArea),
        ..(MovingObjectBundle {
            velocity: Velocity { value: heading.times(MISSILE_SPEED) },
            acceleration: Acceleration { value: Vec3 { x: 0, y: 0, z: 0 } },
            angular_velocity: AngularVelocity { value: Vec3 { x: 0, y: 0, z: 0 } },
            transform: Transform::at(from.plus(heading.times(MISSILE_FORWARD_SCALAR))),
            sensor: Sensor,
            active_collision_types: ActiveCollisionTypes,
            collider: Collider::Ball { radius: MISSILE_RADIUS },
        }).components()
    }
}

/// Whether the weapon is served in this frame: there is exactly one
/// spaceship and the fire key is down.
pub open spec fn weapon_served(w: Slots, controls: Controls) -> bool {
    lookup(w, Component::Spaceship) is One && controls.fire
}

/// The weapon's timer after the frame: it counts only while the weapon is
/// served.
pub open spec fn weapon_timer_after(w: Slots, controls: Controls, timer: Timer, delta: u64) -> Timer {
    if weapon_served(w, controls) {
        timer.ticked(delta)
    } else {
        timer
    }
}

/// The world after the weapon: a missile more where the weapon is served
/// and its timer completes.
pub open spec fn weapon_controlled(
    w: Slots,
    controls: Controls,
    heading: Vec3,
    timer: Timer,
    delta: u64,
) -> Slots {
    if weapon_served(w, controls) && timer.ticked(delta).completions > 0 {
        w.push(
            Some(
                new_missile(
                    w[lookup(w, Component::Spaceship)->One_0 as int]->0.transform.translation,
                    heading,
                ),
            ),
        )
    } else {
        w
    }
}

/// Fires a missile along `heading` while the fire key is down, as often as
/// the weapon's timer allows.
pub fn spaceship_weapon_controls(
    world: &mut World,
    controls: &Controls,
    heading: Vec3,
    delta: u64,
    timer: &mut SpaceshipWeaponTimer,
) -> (missile: Option<Entity>)
    requires
        old(world).wf(),
    ensures
        final(world).wf(),
        final(timer).timer == weapon_timer_after(old(world)@, *controls, old(timer).timer, delta),
        final(world)@ == weapon_controlled(old(world)@, *controls, heading, old(timer).timer, delta),
        missile == (if final(world)@.len() == old(world)@.len() {
            None
        } else {
            Some(old(world)@.len() as Entity)
        }),
{
    let Lookup::One(ship) = world.single(Component::Spaceship) else {
        return None;
    };
    let Some(c) = world.get(ship) else {
        return None;
    };
    if !controls.fire {
        return None;
    }
    timer.timer.tick(delta);
    if !timer.timer.just_finished() {
        return None;
    }
    let mut m = MovingObjectBundle::new(
        Transform::from_translation(
            c.transform.translation.add(heading.scale(MISSILE_FORWARD_SCALAR)),
        ),
        Collider::ball(MISSILE_RADIUS),
        Velocity::new(heading.scale(MISSILE_SPEED)),
        Acceleration::new(Vec3::zero()),
        AngularVelocity::new(Vec3::zero()),
    ).into_components();
    m.missile = Some(SpaceshipMissile);
    m.collision_damage = Some(CollisionDamage::new(MISSILE_DAMAGE));
    m.health = Some(Health::new(MISSILE_HEALTH));
    m.health_changed = true;
    m.despawn_on_die = Some(DespawnOnDie);
    m.confined = Some(ConfinedToPlayArea);
    Some(world.spawn(m))
}

/// The world after the shield key: where there is exactly one spaceship and
/// the key is down, the shield of the spaceship is up.
pub open spec fn shield_controlled(w: Slots, controls: Controls) -> Slots {
    match lookup(w, Component::Spaceship) {
        Lookup::One(e) => if controls.shield {
            w.update(e as int, Some(Components { shield: Some(SpaceshipShield), ..w[e as int]->0 }))
        } else {
            w
        },
        _ => w,
    }
}

/// Puts the shield of the spaceship up while the shield key is down.
pub fn spaceship_shield_controls(world: &mut World, controls: &Controls)
    requires
        old(world).wf(),
    ensures
        final(world).wf(),
        final(world)@ == shield_controlled(old(world)@, *controls),
{
    let Lookup::One(ship) = world.single(Component::Spaceship) else {
        return ;
    };
    if controls.shield {
        if let Some(c) = world.get(ship) {
            world.set(ship, Components { shield: Some(SpaceshipShield), ..c });
        }
    }
}

/// Whether one of the first `n` notices names a spaceship.
pub open spec fn spaceship_died(w: Slots, events: Seq<DieEvent>, n: int) -> bool {
    exists|k: int| 0 <= k < n && holder(w, Component::Spaceship, #[trigger] events[k].entity as int)
}

/// Asks for the end of the game if a notice names a spaceship.
pub fn game_over_when_spaceship_byebye(
    world: &World,
    events: &Vec<DieEvent>,
    next_state: &mut Option<GameState>,
)
    ensures
        *final(next_state) == (if spaceship_died(world@, events@, events@.len() as int) {
            Some(GameState::GameOver)
        } else {
            *old(next_state)
        }),
{
    let mut i: usize = 0;
    while i < events.len()
        invariant
            i <= events@.len(),
            *next_state == (if spaceship_died(world@, events@, i as int) {
                Some(GameState::GameOver)
            } else {
                *old(next_state)
            }),
        decreases events@.len() - i,
    {
        if let Some(c) = world.get(events[i].entity) {
            if c.spaceship.is_some() {
                *next_state = Some(GameState::GameOver);
            }
        }
        i += 1;
    }
}

} // verus!

//! Asteroids: how they come into the game and how their size follows their
//! health.

use vstd::prelude::*;
use rand::rngs::ThreadRng;
use crate::collision::{ActiveEvents, Collider, CollisionDamage};
use crate::despawn::DespawnOnDie;
use crate::health::Health;
use crate::math::{trunc_div, UNIT};
use crate::movement::{
    Acceleration, AngularVelocity, ConfinedToPlayArea, MovingObjectBundle, Transform, Velocity,
    WORLD_SIZE,
};
use crate::random::gen_range;
use crate::timer::{Mode, Timer};
use crate::vec3::{lemma_normalized_length, lemma_with_length, Vec3};
use crate::world::{Components, Slots, World};

verus! {

/// The speed of an asteroid, in thousandths per second.
pub const VELOCITY_SCALAR: i32 = 5_000;

/// The acceleration of an asteroid, in thousandths per second squared.
pub const ACCELERATION_SCALAR: i32 = 0;

/// The time between two asteroids, in nanoseconds.
pub const SPAWN_TIME_NANOS: u64 = 2_500_000_000;

/// The least health of a new asteroid.
pub const ASTEROID_HEALTH_MIN: i32 = 5_000;

/// The bound below which the health of a new asteroid lies.
pub const ASTEROID_HEALTH_END: i32 = 20_000;

/// The distance from the origin at which asteroids are made.
pub const SPAWN_DISTANCE: i32 = 100_000;

/// The distance from the origin beyond which an asteroid must be made: one
/// and a half times the radius of the play area.
pub const SPAWN_MARGIN: i32 = 75_000;

/// The radius about the origin at which asteroids aim: three quarters of
/// the radius of the play area.
pub const TARGET_RADIUS: i32 = 37_500;

/// The radius of the collider of an asteroid.
pub const ASTEROID_RADIUS: i32 = 2_500;

/// How often a place for an asteroid is drawn before the place on the x
/// axis is taken.
pub const MAX_DRAWS: u32 = 64;

/// The scale at which an asteroid of the given health is drawn: a fifteenth
/// of the health, and one.
pub open spec fn scale_of(health: int) -> int {
    trunc_div(health, 15) + UNIT
}

/// Computes [`scale_of`].
pub fn scale_from_health(health: i32) -> (scale: i32)
    ensures
        scale == scale_of(health as int),
{
    health / 15 + UNIT
}

/// The damage that an asteroid of the given health deals: its health.
pub fn collision_damage_from_health(health: i32) -> (damage: i32)
    ensures
        damage == health,
{
    health
}

/// The margin and the radius at which asteroids aim are the shares of the
/// radius of the play area that their names say.
pub proof fn lemma_shares_of_the_play_area()
    ensures
        2 * SPAWN_MARGIN == 3 * WORLD_SIZE,
        4 * TARGET_RADIUS == 3 * WORLD_SIZE,
        SPAWN_MARGIN < SPAWN_DISTANCE,
{
}

/// Marks an asteroid.
#[derive(Clone, Copy, Debug, PartialEq, Eq)]
pub struct Asteroid;

/// The timer that lets asteroids come.
#[derive(Clone, Copy, Debug, PartialEq, Eq)]
pub struct SpawnTimer {
    pub timer: Timer,
}

impl SpawnTimer {
    /// The timer at its start.
    pub open spec fn new_spec() -> SpawnTimer {
        SpawnTimer { timer: Timer::fresh(SPAWN_TIME_NANOS, Mode::Repeating) }
    }

    pub fn new() -> (t: SpawnTimer)
        ensures
            t == SpawnTimer::new_spec(),
    {
        SpawnTimer { timer: Timer::new(SPAWN_TIME_NANOS, Mode::Repeating) }
    }
}

/// What an asteroid carries.
#[derive(Clone, Copy, Debug, PartialEq, Eq)]
pub struct AsteroidBundle {
    pub moving_object_bundle: MovingObjectBundle,
    pub asteroid: Asteroid,
    pub health: Health,
    pub collision_damage: CollisionDamage,
    pub active_events: ActiveEvents,
    pub despawn_on_die: DespawnOnDie,
}

impl AsteroidBundle {
    /// The asteroid of the given place, motion and health. Its scale and its
    /// damage are those of its health.
    pub open spec fn made(
        translation: Vec3,
        velocity: Velocity,
        acceleration: Acceleration,
        angular_velocity: AngularVelocity,
        health: i32,
    ) -> AsteroidBundle {
        AsteroidBundle {
            moving_object_bundle: MovingObjectBundle {
                velocity,
                acceleration,
                angular_velocity,
                transform: Transform {
                    translation,
                    scale: Vec3 {
                        x: scale_of(health as int) as i32,
                        y: scale_of(health as int) as i32,
                        z: scale_of(health as int) as i32,
                    },
                },
                sensor: crate::collision::Sensor,
                active_collision_types: crate::collision::ActiveCollisionTypes,
                collider: Collider::Ball { radius: ASTEROID_RADIUS },
            },
            asteroid: Asteroid,
            health: Health { value: health },
            collision_damage: CollisionDamage { amount: health },
            active_events: ActiveEvents,
            despawn_on_die: DespawnOnDie,
        }
    }

    pub fn new(
        translation: Vec3,
        velocity: Velocity,
        acceleration: Acceleration,
        angular_velocity: AngularVelocity,
        health: i32,
    ) -> (b: AsteroidBundle)
        ensures
            b == AsteroidBundle::made(translation, velocity, acceleration, angular_velocity, health),
    {
        let transform = Transform::from_translation(translation).with_scale(
            Vec3::splat(scale_from_health(health)),
        );
        let moving_object_bundle = MovingObjectBundle::new(
            transform,
            Collider::ball(ASTEROID_RADIUS),
            velocity,
            acceleration,
            angular_velocity,
        );
        AsteroidBundle {
            moving_object_bundle,
            asteroid: Asteroid,
            health: Health::new(health),
            collision_damage: CollisionDamage::new(collision_damage_from_health(health)),
            active_events: ActiveEvents,
            despawn_on_die: DespawnOnDie,
        }
    }

    /// The components of an entity made from the bundle. Its health counts
    /// as changed.
    pub open spec fn components(self) -> Components {
        Components {
            asteroid: Some(self.asteroid),
            health: Some(self.health),
            health_changed: true,
            collision_damage: Some(self.collision_damage),
            active_events: Some(self.active_events),
            despawn_on_die: Some(self.despawn_on_die),
            ..self.moving_object_bundle.components()
        }
    }

    pub fn into_components(self) -> (c: Components)
        ensures
            c == self.components(),
    {
        let mut c = self.moving_object_bundle.into_components();
        c.asteroid = Some(self.asteroid);
        c.health = Some(self.health);
        c.health_changed = true;
        c.collision_damage = Some(self.collision_damage);
        c.active_events = Some(self.active_events);
        c.despawn_on_die = Some(self.despawn_on_die);
        c
    }
}

/// Whether the scale and the damage of an entity are those of its health.
pub open spec fn in_step(c: Components) -> bool {
    c.health is Some && c.collision_damage is Some ==> {
        &&& c.collision_damage->0.amount == c.health->0.value
        &&& c.transform.scale.x == scale_of(c.health->0.value as int)
        &&& c.transform.scale.y == scale_of(c.health->0.value as int)
        &&& c.transform.scale.z == scale_of(c.health->0.value as int)
    }
}

/// A new asteroid has the scale and the damage of its health.
pub proof fn lemma_made_in_step(
    translation: Vec3,
    velocity: Velocity,
    acceleration: Acceleration,
    angular_velocity: AngularVelocity,
    health: i32,
)
    ensures
        in_step(
            AsteroidBundle::made(
                translation,
                velocity,
                acceleration,
                angular_velocity,
                health,
            ).components(),
        ),
        AsteroidBundle::made(
            translation,
            velocity,
            acceleration,
            angular_velocity,
            health,
        ).components().health == Some(Health { value: health }),
{
}

/// An asteroid whose health has changed, with the scale and the damage of
/// its health; any other entity as it is.
pub open spec fn rescaled(c: Components) -> Components {
    if c.asteroid is Some && c.health_changed && c.health is Some && c.collision_damage is Some {
        Components {
            collision_damage: Some(CollisionDamage { amount: c.health->0.value }),
            transform: Transform {
                scale: Vec3 {
                    x: scale_of(c.health->0.value as int) as i32,
                    y: scale_of(c.health->0.value as int) as i32,
                    z: scale_of(c.health->0.value as int) as i32,
                },
                ..c.transform
            },
            ..c
        }
    } else {
        c
    }
}

/// The world with every asteroid rescaled.
pub open spec fn all_rescaled(w: Slots) -> Slots {
    Seq::new(
        w.len(),
        |e: int|
            match w[e] {
                Some(c) => Some(rescaled(c)),
                None => None,
            },
    )
}

/// Gives every asteroid whose health has changed the scale and the damage of
/// its health.
pub fn asteroids_scale_with_health(world: &mut World)
    requires
        old(world).wf(),
    ensures
        final(world).wf(),
        final(world)@ == all_rescaled(old(world)@),
{
    let n = world.len();
    let mut e: usize = 0;
    while e < n
        invariant
            e <= n,
            n == old(world)@.len(),
            world@.len() == n,
            world.wf(),
            forall|j: int| 0 <= j < e ==> world@[j] == all_rescaled(old(world)@)[j],
            forall|j: int| e <= j < n ==> world@[j] == old(world)@[j],
        decreases n - e,
    {
        if let Some(c) = world.get(e) {
            if c.asteroid.is_some() && c.health_changed && c.collision_damage.is_some() {
                if let Some(health) = c.health {
                    let amount = collision_damage_from_health(health.value);
                    let scale = Vec3::splat(scale_from_health(health.value));
                    world.set(
                        e,
                        Components {
                            collision_damage: Some(CollisionDamage { amount }),
                            transform: Transform { scale, ..c.transform },
                            ..c
                        },
                    );
                }
            }
        }
        e += 1;
    }
    assert(world@ =~= all_rescaled(old(world)@));
}

/// After rescaling, an asteroid whose health has changed to any value has
/// the scale and the damage of that value.
pub proof fn lemma_rescaled_in_step(c: Components)
    requires
        c.asteroid is Some,
        c.health_changed,
    ensures
        in_step(rescaled(c)),
        rescaled(c).health == c.health,
{
}

/// Whether the point is within the play area, boundary included.
pub open spec fn inside(p: Vec3) -> bool {
    p.norm_squared() <= WORLD_SIZE * WORLD_SIZE
}

/// An asteroid that is within the play area, confined to it; any other
/// entity as it is.
pub open spec fn latched(c: Components) -> Components {
    if c.asteroid is Some && c.confined is None && inside(c.transform.translation) {
        Components { confined: Some(ConfinedToPlayArea), ..c }
    } else {
        c
    }
}

/// The world with every asteroid that has come in confined.
pub open spec fn all_latched(w: Slots) -> Slots {
    Seq::new(
        w.len(),
        |e: int|
            match w[e] {
                Some(c) => Some(latched(c)),
                None => None,
            },
    )
}

/// Confines every asteroid that has come into the play area.
pub fn confine_once_in_play_area(world: &mut World)
    requires
        old(world).wf(),
    ensures
        final(world).wf(),
        final(world)@ == all_latched(old(world)@),
{
    let n = world.len();
    let mut e: usize = 0;
    while e < n
        invariant
            e <= n,
            n == old(world)@.len(),
            world@.len() == n,
            world.wf(),
            forall|j: int| 0 <= j < e ==> world@[j] == all_latched(old(world)@)[j],
            forall|j: int| e <= j < n ==> world@[j] == old(world)@[j],
        decreases n - e,
    {
        if let Some(c) = world.get(e) {
            if c.asteroid.is_some() && c.confined.is_none()
                && c.transform.translation.length_squared() <= 2_500_000_000 {
                world.set(e, Components { confined: Some(ConfinedToPlayArea), ..c });
            }
        }
        e += 1;
    }
    assert(world@ =~= all_latched(old(world)@));
}

/// Whether `u` can come of a draw of a direction: the vector of length one
/// along some `(x, 0, z)` with both numbers from -1000 up to, not including,
/// 1000, or zero where both are zero.
pub open spec fn unit_draw(u: Vec3) -> bool {
    exists|x: i32, z: i32|
        -1000 <= x < 1000 && -1000 <= z < 1000 && u == (#[trigger] Vec3 { x, y: 0, z }.normalized())
}

/// Whether the point is far enough out for an asteroid to be made there.
pub open spec fn far_enough(p: Vec3) -> bool {
    p.norm_squared() > SPAWN_MARGIN * SPAWN_MARGIN
}

/// The place taken where no draw has given one.
pub open spec fn fallback_point() -> Vec3 {
    Vec3 { x: SPAWN_DISTANCE, y: 0, z: 0 }
}

/// Whether an asteroid can be made at `p`: far enough out, in a drawn
/// direction at the distance at which asteroids are made, or on the x axis.
pub open spec fn spawn_point(p: Vec3) -> bool {
    far_enough(p) && (p == fallback_point() || exists|u: Vec3|
        unit_draw(u) && p == #[trigger] u.times(SPAWN_DISTANCE))
}

/// A direction drawn from numbers that are not both zero gives a place far
/// enough out: only the draw of two zeros is thrown away.
pub proof fn lemma_drawn_place_is_far_enough(x: i32, z: i32)
    requires
        -1000 <= x < 1000,
        -1000 <= z < 1000,
        x != 0 || z != 0,
    ensures
        far_enough(Vec3 { x, y: 0, z }.normalized().times(SPAWN_DISTANCE)),
{
    let v = Vec3 { x, y: 0, z };
    assert(v.norm_squared() > 0) by (nonlinear_arith)
        requires
            v.norm_squared() == x * x + 0 * 0 + z * z,
            x != 0 || z != 0,
    ;
    let u = v.normalized();
    lemma_with_length(v, UNIT);
    lemma_normalized_length(v);
    let p = u.times(SPAWN_DISTANCE);
    assert(p.x == u.x * 100 && p.y == u.y * 100 && p.z == u.z * 100);
    assert(p.norm_squared() == 10_000 * u.norm_squared()) by (nonlinear_arith)
        requires
            p.x == u.x * 100 && p.y == u.y * 100 && p.z == u.z * 100,
            p.norm_squared() == p.x * p.x + p.y * p.y + p.z * p.z,
            u.norm_squared() == u.x * u.x + u.y * u.y + u.z * u.z,
    ;
}

/// A drawn direction lies in the horizontal plane and has the length one,
/// within four thousandths below and sixteen millionths above, or is zero.
pub proof fn lemma_unit_draw_length(u: Vec3)
    requires
        unit_draw(u),
    ensures
        u.y == 0,
        -UNIT <= u.x <= UNIT,
        -UNIT <= u.z <= UNIT,
        u == (Vec3 { x: 0, y: 0, z: 0 }) || (UNIT - 4) * (UNIT - 4) < u.norm_squared() <= UNIT
            * UNIT + 31,
{
    let (x, z) = choose|x: i32, z: i32|
        -1000 <= x < 1000 && -1000 <= z < 1000 && u == (#[trigger] Vec3 { x, y: 0, z }.normalized());
    let v = Vec3 { x, y: 0, z };
    assert(x * x >= 0 && z * z >= 0) by (nonlinear_arith);
    if v.norm_squared() > 0 {
        lemma_with_length(v, UNIT);
        lemma_normalized_length(v);
    }
}

/// An asteroid is made on the horizontal plane, beyond the margin and no
/// more than two thousandths beyond the distance at which asteroids are
/// made.
pub proof fn lemma_spawn_point_distance(p: Vec3)
    requires
        spawn_point(p),
    ensures
        p.y == 0,
        SPAWN_MARGIN * SPAWN_MARGIN < p.norm_squared() <= (SPAWN_DISTANCE + 2) * (SPAWN_DISTANCE
            + 2),
{
    if p != fallback_point() {
        let u = choose|u: Vec3| unit_draw(u) && p == #[trigger] u.times(SPAWN_DISTANCE);
        lemma_unit_draw_length(u);
        assert(p.x == u.x * 100 && p.y == u.y * 100 && p.z == u.z * 100);
        assert(p.norm_squared() == 10_000 * u.norm_squared()) by (nonlinear_arith)
            requires
                p.x == u.x * 100 && p.y == u.y * 100 && p.z == u.z * 100,
                p.norm_squared() == p.x * p.x + p.y * p.y + p.z * p.z,
                u.norm_squared() == u.x * u.x + u.y * u.y + u.z * u.z,
        ;
    } else {
        assert(p.norm_squared() == 100_000 * 100_000);
    }
}

/// Draws a direction in the horizontal plane.
pub fn random_2d_unit_vector(rng: &mut ThreadRng) -> (u: Vec3)
    ensures
        unit_draw(u),
{
    let x = gen_range(rng, -1000, 1000);
    let z = gen_range(rng, -1000, 1000);
    Vec3::new(x, 0, z).normalize_or_zero()
}

/// The place that a drawn direction gives, if it is far enough out.
pub fn spawn_point_along(u: Vec3) -> (p: Option<Vec3>)
    ensures
        p == (if far_enough(u.times(SPAWN_DISTANCE)) {
            Some(u.times(SPAWN_DISTANCE))
        } else {
            None
        }),
{
    let position = u.scale(SPAWN_DISTANCE);
    if position.length_squared() > 5_625_000_000 {
        Some(position)
    } else {
        None
    }
}

/// Draws places until one is far enough out. It draws at most
/// [`MAX_DRAWS`] times, so that it ends whatever is drawn: if none of the
/// places is far enough out, it takes the place at the distance at which
/// asteroids are made on the x axis. Only the draw of two zeros gives a place
/// that is not far enough out (see [`lemma_drawn_place_is_far_enough`]).
pub fn random_spawn_point(rng: &mut ThreadRng) -> (p: Vec3)
    ensures
        spawn_point(p),
{
    let mut draws: u32 = 0;
    while draws < MAX_DRAWS
        invariant
            draws <= MAX_DRAWS,
        decreases MAX_DRAWS - draws,
    {
        let u = random_2d_unit_vector(rng);
        if let Some(position) = spawn_point_along(u) {
            return position;
        }
        draws += 1;
    }
    let p = Vec3::new(SPAWN_DISTANCE, 0, 0);
    assert(far_enough(p)) by {
        assert(p.norm_squared() == 100_000 * 100_000);
    }
    p
}

/// The numbers drawn for one asteroid.
#[derive(Clone, Copy, Debug, PartialEq, Eq)]
pub struct AsteroidDraw {
    /// Where the asteroid is made.
    pub position: Vec3,
    /// The direction from the origin of the point that it flies to.
    pub target: Vec3,
    /// The direction of its acceleration.
    pub drift: Vec3,
    /// Its angular velocity.
    pub spin: Vec3,
    pub health: i32,
}

impl AsteroidDraw {
    /// What holds of every draw.
    pub open spec fn valid(self) -> bool {
        &&& spawn_point(self.position)
        &&& unit_draw(self.target)
        &&& unit_draw(self.drift)
        &&& unit_draw(self.spin)
        &&& ASTEROID_HEALTH_MIN <= self.health < ASTEROID_HEALTH_END
    }

    /// The velocity of the asteroid: from where it is made toward its
    /// target, at the speed of asteroids.
    pub open spec fn velocity(self) -> Vec3 {
        self.target.times(TARGET_RADIUS).minus(self.position).normalized().times(VELOCITY_SCALAR)
    }

    /// The asteroid that the draw gives.
    pub open spec fn asteroid(self) -> AsteroidBundle {
        AsteroidBundle::made(
            self.position,
            Velocity { value: self.velocity() },
            Acceleration { value: self.drift.times(ACCELERATION_SCALAR) },
            AngularVelocity { value: self.spin },
            self.health,
        )
    }

    /// Draws the numbers for one asteroid.
    pub fn random(rng: &mut ThreadRng) -> (d: AsteroidDraw)
        ensures
            d.valid(),
    {
        let position = random_spawn_point(rng);
        let target = random_2d_unit_vector(rng);
        let drift = random_2d_unit_vector(rng);
        let spin = random_2d_unit_vector(rng);
        let health = gen_range(rng, ASTEROID_HEALTH_MIN, ASTEROID_HEALTH_END);
        AsteroidDraw { position, target, drift, spin, health }
    }

    /// Makes the asteroid that the draw gives.
    pub fn into_asteroid(self) -> (b: AsteroidBundle)
        ensures
            b == self.asteroid(),
    {
        let velocity = self.target.scale(TARGET_RADIUS).sub(self.position).normalize_or_zero().scale(
            VELOCITY_SCALAR,
        );
        let acceleration = self.drift.scale(ACCELERATION_SCALAR);
        AsteroidBundle::new(
            self.position,
            Velocity::new(velocity),
            Acceleration::new(acceleration),
            AngularVelocity::new(self.spin),
            self.health,
        )
    }
}

/// Whatever is drawn, the asteroid is made outside the margin, on the
/// horizontal plane, with a health from five up to twenty, the scale and the
/// damage of that health, and not yet confined.
pub proof fn lemma_drawn_asteroid(d: AsteroidDraw)
    requires
        d.valid(),
    ensures
        d.asteroid().components().asteroid is Some,
        far_enough(d.asteroid().components().transform.translation),
        d.asteroid().components().health is Some,
        ASTEROID_HEALTH_MIN <= d.asteroid().components().health->0.value < ASTEROID_HEALTH_END,
        in_step(d.asteroid().components()),
        d.asteroid().components().confined is None,
        d.asteroid().components().despawn_on_die is Some,
{
}

/// An asteroid flies at the speed of asteroids, within a fiftieth of a unit
/// below and a thousandth above, or rests where its target is where it is
/// made.
pub proof fn lemma_asteroid_speed(d: AsteroidDraw)
    ensures
        d.velocity() == (Vec3 { x: 0, y: 0, z: 0 }) || (VELOCITY_SCALAR - 20) * (VELOCITY_SCALAR
            - 20) < d.velocity().norm_squared() <= (VELOCITY_SCALAR + 1) * (VELOCITY_SCALAR + 1),
{
    let way = d.target.times(TARGET_RADIUS).minus(d.position);
    let n = way.normalized();
    let v = d.velocity();
    if way.norm_squared() > 0 {
        lemma_with_length(way, UNIT);
        lemma_normalized_length(way);
        assert(v.x == n.x * 5 && v.y == n.y * 5 && v.z == n.z * 5);
        assert(v.norm_squared() == 25 * n.norm_squared()) by (nonlinear_arith)
            requires
                v.x == n.x * 5 && v.y == n.y * 5 && v.z == n.z * 5,
                v.norm_squared() == v.x * v.x + v.y * v.y + v.z * v.z,
                n.norm_squared() == n.x * n.x + n.y * n.y + n.z * n.z,
        ;
    } else {
        assert(way.x * way.x >= 0 && way.y * way.y >= 0 && way.z * way.z >= 0)
            by (nonlinear_arith);
        assert(n == (Vec3 { x: 0, y: 0, z: 0 }));
    }
}

/// The world with the asteroids of the first `n` draws added, in the order
/// of the draws.
pub open spec fn with_asteroids(w: Slots, draws: Seq<AsteroidDraw>, n: int) -> Slots
    decreases n,
{
    if n <= 0 {
        w
    } else {
        with_asteroids(w, draws, n - 1).push(Some(draws[n - 1].asteroid().components()))
    }
}

/// Whether [`AsteroidDraw::valid`] holds of every one of the draws.
pub open spec fn all_valid(draws: Seq<AsteroidDraw>) -> bool {
    forall|i: int| 0 <= i < draws.len() ==> (#[trigger] draws[i]).valid()
}

/// How many asteroids a tick makes of the draws: one for each period that
/// it completes, as far as there are draws.
pub open spec fn asteroids_made(completions: u32, draws: Seq<AsteroidDraw>) -> int {
    if completions <= draws.len() {
        completions as int
    } else {
        draws.len() as int
    }
}

/// The world with asteroids added depends on no draw beyond those that are
/// used.
pub proof fn lemma_with_asteroids_prefix(
    w: Slots,
    a: Seq<AsteroidDraw>,
    b: Seq<AsteroidDraw>,
    n: int,
)
    requires
        n <= a.len(),
        n <= b.len(),
        forall|j: int| 0 <= j < n ==> a[j] == b[j],
    ensures
        with_asteroids(w, a, n) == with_asteroids(w, b, n),
    decreases n,
{
    if n > 0 {
        lemma_with_asteroids_prefix(w, a, b, n - 1);
    }
}

/// Adding the asteroids of `n` draws adds `n` entities and changes none that
/// was there: the entity that comes first is the asteroid of the first
/// draw, and so on.
pub proof fn lemma_asteroids_added(w: Slots, draws: Seq<AsteroidDraw>, n: int)
    requires
        0 <= n <= draws.len(),
    ensures
        with_asteroids(w, draws, n).len() == w.len() + n,
        forall|e: int| 0 <= e < w.len() ==> with_asteroids(w, draws, n)[e] == w[e],
        forall|i: int|
            0 <= i < n ==> with_asteroids(w, draws, n)[w.len() + i] == Some(
                (#[trigger] draws[i]).asteroid().components(),
            ),
    decreases n,
{
    if n > 0 {
        lemma_asteroids_added(w, draws, n - 1);
    }
}

/// Ticks the timer and makes one asteroid for each period that the tick
/// completes: the first of the draw that comes first, and so on. Where the
/// draws run out, no more asteroids are made.
pub fn spawn_asteroid_from(
    world: &mut World,
    spawn_timer: &mut SpawnTimer,
    delta: u64,
    draws: &Vec<AsteroidDraw>,
) -> (made: usize)
    requires
        old(world).wf(),
    ensures
        final(world).wf(),
        final(spawn_timer).timer == old(spawn_timer).timer.ticked(delta),
        made == asteroids_made(final(spawn_timer).timer.completions, draws@),
        final(world)@ == with_asteroids(old(world)@, draws@, made as int),
{
    spawn_timer.timer.tick(delta);
    let due: usize = spawn_timer.timer.completions as usize;
    let made: usize = if due <= draws.len() {
        due
    } else {
        draws.len()
    };
    let mut i: usize = 0;
    while i < made
        invariant
            i <= made <= draws@.len(),
            world.wf(),
            world@ == with_asteroids(old(world)@, draws@, i as int),
        decreases made - i,
    {
        let draw = draws[i];
        world.spawn(draw.into_asteroid().into_components());
        i += 1;
    }
    made
}

/// Ticks the timer and makes one asteroid for each period that the tick
/// completes, each from a draw of its own: outside the play area, flying
/// toward it.
pub fn spawn_asteroid(world: &mut World, spawn_timer: &mut SpawnTimer, delta: u64) -> (made: usize)
    requires
        old(world).wf(),
    ensures
        final(world).wf(),
        final(spawn_timer).timer == old(spawn_timer).timer.ticked(delta),
        made == final(spawn_timer).timer.completions,
        exists|draws: Seq<AsteroidDraw>|
            draws.len() == made && all_valid(draws) && final(world)@ == #[trigger] with_asteroids(
                old(world)@,
                draws,
                made as int,
            ),
{
    spawn_timer.timer.tick(delta);
    let made: usize = spawn_timer.timer.completions as usize;
    let mut rng = rand::thread_rng();
    let ghost mut drawn: Seq<AsteroidDraw> = Seq::empty();
    let mut i: usize = 0;
    while i < made
        invariant
            i <= made,
            world.wf(),
            drawn.len() == i,
            all_valid(drawn),
            world@ == with_asteroids(old(world)@, drawn, i as int),
        decreases made - i,
    {
        let draw = AsteroidDraw::random(&mut rng);
        proof {
            let before = drawn;
            drawn = drawn.push(draw);
            lemma_with_asteroids_prefix(old(world)@, before, drawn, i as int);
        }
        world.spawn(draw.into_asteroid().into_components());
        i += 1;
    }
    made
}

} // verus!

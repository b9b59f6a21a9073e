//! Entities and what is attached to them.
//!
//! An entity is an index into the world's slots. A slot is never used twice,
//! so the index of a removed entity names nothing from then on.

use vstd::prelude::*;
use crate::asteroids::Asteroid;
use crate::collision::{ActiveCollisionTypes, ActiveEvents, Collider, CollisionDamage, Sensor};
use crate::despawn::{DespawnOnDie, DespawnTimer};
use crate::health::Health;
use crate::movement::{Acceleration, AngularVelocity, ConfinedToPlayArea, Transform, Velocity};
use crate::spaceship::{Spaceship, SpaceshipMissile, SpaceshipShield};

verus! {

/// The name of an entity.
pub type Entity = usize;

/// What one entity carries. Only the transform is always there.
#[derive(Clone, Copy, Debug, PartialEq, Eq)]
pub struct Components {
    pub transform: Transform,
    pub velocity: Option<Velocity>,
    pub acceleration: Option<Acceleration>,
    pub angular_velocity: Option<AngularVelocity>,
    pub health: Option<Health>,
    /// Set whenever the health is written, cleared when the death of the
    /// entity has been looked into.
    pub health_changed: bool,
    pub collision_damage: Option<CollisionDamage>,
    pub collider: Option<Collider>,
    pub sensor: Option<Sensor>,
    pub active_collision_types: Option<ActiveCollisionTypes>,
    pub active_events: Option<ActiveEvents>,
    pub asteroid: Option<Asteroid>,
    pub spaceship: Option<Spaceship>,
    pub missile: Option<SpaceshipMissile>,
    pub shield: Option<SpaceshipShield>,
    pub despawn_on_die: Option<DespawnOnDie>,
    pub confined: Option<ConfinedToPlayArea>,
    pub despawn_timer: Option<DespawnTimer>,
    /// The entity that this one is attached to. It goes when its parent goes.
    pub parent: Option<Entity>,
}

/// The kinds of component by which entities can be picked.
#[derive(Clone, Copy, Debug, PartialEq, Eq)]
pub enum Component {
    Velocity,
    Acceleration,
    AngularVelocity,
    Health,
    CollisionDamage,
    Collider,
    Sensor,
    ActiveCollisionTypes,
    ActiveEvents,
    Asteroid,
    Spaceship,
    SpaceshipMissile,
    SpaceshipShield,
    DespawnOnDie,
    ConfinedToPlayArea,
    DespawnTimer,
}

impl Components {
    /// Whether a component of the kind is attached.
    pub open spec fn carries(self, kind: Component) -> bool {
        match kind {
            Component::Velocity => self.velocity is Some,
            Component::Acceleration => self.acceleration is Some,
            Component::AngularVelocity => self.angular_velocity is Some,
            Component::Health => self.health is Some,
            Component::CollisionDamage => self.collision_damage is Some,
            Component::Collider => self.collider is Some,
            Component::Sensor => self.sensor is Some,
            Component::ActiveCollisionTypes => self.active_collision_types is Some,
            Component::ActiveEvents => self.active_events is Some,
            Component::Asteroid => self.asteroid is Some,
            Component::Spaceship => self.spaceship is Some,
            Component::SpaceshipMissile => self.missile is Some,
            Component::SpaceshipShield => self.shield is Some,
            Component::DespawnOnDie => self.despawn_on_die is Some,
            Component::ConfinedToPlayArea => self.confined is Some,
            Component::DespawnTimer => self.despawn_timer is Some,
        }
    }

    /// An entity with nothing but a place.
    pub fn new(transform: Transform) -> (c: Components)
        ensures
            c == Components::bare(transform),
    {
        Components {
            transform,
            velocity: None,
            acceleration: None,
            angular_velocity: None,
            health: None,
            health_changed: false,
            collision_damage: None,
            collider: None,
            sensor: None,
            active_collision_types: None,
            active_events: None,
            asteroid: None,
            spaceship: None,
            missile: None,
            shield: None,
            despawn_on_die: None,
            confined: None,
            despawn_timer: None,
            parent: None,
        }
    }

    pub open spec fn bare(transform: Transform) -> Components {
        Components {
            transform,
            velocity: None,
            acceleration: None,
            angular_velocity: None,
            health: None,
            health_changed: false,
            collision_damage: None,
            collider: None,
            sensor: None,
            active_collision_types: None,
            active_events: None,
            asteroid: None,
            spaceship: None,
            missile: None,
            shield: None,
            despawn_on_die: None,
            confined: None,
            despawn_timer: None,
            parent: None,
        }
    }

    pub fn has(&self, kind: Component) -> (b: bool)
        ensures
            b == self.carries(kind),
    {
        match kind {
            Component::Velocity => self.velocity.is_some(),
            Component::Acceleration => self.acceleration.is_some(),
            Component::AngularVelocity => self.angular_velocity.is_some(),
            Component::Health => self.health.is_some(),
            Component::CollisionDamage => self.collision_damage.is_some(),
            Component::Collider => self.collider.is_some(),
            Component::Sensor => self.sensor.is_some(),
            Component::ActiveCollisionTypes => self.active_collision_types.is_some(),
            Component::ActiveEvents => self.active_events.is_some(),
            Component::Asteroid => self.asteroid.is_some(),
            Component::Spaceship => self.spaceship.is_some(),
            Component::SpaceshipMissile => self.missile.is_some(),
            Component::SpaceshipShield => self.shield.is_some(),
            Component::DespawnOnDie => self.despawn_on_die.is_some(),
            Component::ConfinedToPlayArea => self.confined.is_some(),
            Component::DespawnTimer => self.despawn_timer.is_some(),
        }
    }
}

/// The slots of a world, as contracts speak of them.
pub type Slots = Seq<Option<Components>>;

/// Whether `e` names an entity in `w`.
pub open spec fn alive(w: Slots, e: int) -> bool {
    0 <= e < w.len() && w[e] is Some
}

/// Every parent lives, and was made before its child.
pub open spec fn well_formed(w: Slots) -> bool {
    forall|e: int| #[trigger]
        alive(w, e) ==> match w[e]->0.parent {
            Some(p) => p < e && alive(w, p as int),
            None => true,
        }
}

/// Whether `e` lives and carries a component of the kind.
pub open spec fn holder(w: Slots, kind: Component, e: int) -> bool {
    alive(w, e) && w[e]->0.carries(kind)
}

/// The entities below `n` that carry a component of the kind, in order.
pub open spec fn holders(w: Slots, kind: Component, n: int) -> Seq<Entity>
    decreases n,
{
    if n <= 0 {
        Seq::empty()
    } else if holder(w, kind, n - 1) {
        holders(w, kind, n - 1).push((n - 1) as usize)
    } else {
        holders(w, kind, n - 1)
    }
}

/// What a search for the one entity of a kind finds.
#[derive(Clone, Copy, Debug, PartialEq, Eq)]
pub enum Lookup {
    /// There is exactly this one.
    One(Entity),
    /// There is none.
    Nothing,
    /// There are several.
    Many,
}

/// The one entity that carries a component of the kind, if there is exactly
/// one.
pub open spec fn lookup(w: Slots, kind: Component) -> Lookup {
    let all = holders(w, kind, w.len() as int);
    if all.len() == 0 {
        Lookup::Nothing
    } else if all.len() == 1 {
        Lookup::One(all[0])
    } else {
        Lookup::Many
    }
}

/// Where the search finds one entity, that entity lives and carries the
/// component.
pub proof fn lemma_lookup_one(w: Slots, kind: Component)
    requires
        lookup(w, kind) is One,
        w.len() <= usize::MAX,
    ensures
        holder(w, kind, lookup(w, kind)->One_0 as int),
{
    lemma_holders_hold(w, kind, w.len() as int, 0);
}

/// Every member of the list of holders is a holder.
pub proof fn lemma_holders_hold(w: Slots, kind: Component, n: int, i: int)
    requires
        0 <= n <= w.len() <= usize::MAX,
        0 <= i < holders(w, kind, n).len(),
    ensures
        holder(w, kind, holders(w, kind, n)[i] as int),
        holders(w, kind, n)[i] < n,
    decreases n,
{
    if n > 0 {
        let before = holders(w, kind, n - 1);
        if i < before.len() {
            lemma_holders_hold(w, kind, n - 1, i);
        }
    }
}

/// The entities that a removal starts from.
#[derive(Clone, Copy, Debug, PartialEq, Eq)]
pub enum Selection {
    /// One entity.
    One(Entity),
    /// Every entity that carries a component of the kind.
    With(Component),
}

/// Whether the selection names the living entity `e`.
pub open spec fn selected(w: Slots, sel: Selection, e: int) -> bool {
    alive(w, e) && match sel {
        Selection::One(root) => e == root,
        Selection::With(kind) => w[e]->0.carries(kind),
    }
}

/// Whether `e` goes when the selection is removed: it is selected, or it is
/// attached to an entity that goes.
pub open spec fn condemned(w: Slots, sel: Selection, e: int) -> bool
    decreases e,
{
    alive(w, e) && (selected(w, sel, e) || match w[e]->0.parent {
        Some(p) => p < e && condemned(w, sel, p as int),
        None => false,
    })
}

/// The world without the selected entities and all that is attached to them.
pub open spec fn purged(w: Slots, sel: Selection) -> Slots {
    Seq::new(
        w.len(),
        |e: int|
            if condemned(w, sel, e) {
                None
            } else {
                w[e]
            },
    )
}

/// Removing entities together with what is attached to them leaves no
/// entity without its parent.
pub proof fn lemma_purged_well_formed(w: Slots, sel: Selection)
    requires
        well_formed(w),
    ensures
        well_formed(purged(w, sel)),
{
    let p = purged(w, sel);
    assert forall|e: int| #[trigger] alive(p, e) implies match p[e]->0.parent {
        Some(q) => q < e && alive(p, q as int),
        None => true,
    } by {
        assert(alive(w, e));
        assert(!condemned(w, sel, e));
    }
}

/// The entities of a game.
pub struct World {
    slots: Vec<Option<Components>>,
}

impl View for World {
    type V = Slots;

    closed spec fn view(&self) -> Slots {
        self.slots@
    }
}

impl World {
    /// The invariant of a world: see [`well_formed`].
    pub open spec fn wf(&self) -> bool {
        well_formed(self@)
    }

    /// A world without entities.
    pub fn new() -> (w: World)
        ensures
            w@ == Slots::empty(),
            w.wf(),
    {
        World { slots: Vec::new() }
    }

    /// Tells whether the invariant holds. It does of every world that was
    /// made and changed by the functions of this library.
    pub fn is_well_formed(&self) -> (ok: bool)
        ensures
            ok == self.wf(),
    {
        let n = self.slots.len();
        let mut e: usize = 0;
        while e < n
            invariant
                e <= n,
                n == self@.len(),
                forall|j: int|
                    0 <= j < e && #[trigger] alive(self@, j) ==> match self@[j]->0.parent {
                        Some(p) => p < j && alive(self@, p as int),
                        None => true,
                    },
            decreases n - e,
        {
            if let Some(c) = self.slots[e] {
                if let Some(p) = c.parent {
                    if p >= e || self.slots[p].is_none() {
                        assert(alive(self@, e as int));
                        return false;
                    }
                }
            }
            e += 1;
        }
        true
    }

    /// The number of slots, living or not: every entity is below it.
    pub fn len(&self) -> (n: usize)
        ensures
            n == self@.len(),
    {
        self.slots.len()
    }

    /// What `e` carries, if it lives.
    pub fn get(&self, e: Entity) -> (c: Option<Components>)
        ensures
            c == (if alive(self@, e as int) {
                self@[e as int]
            } else {
                None
            }),
    {
        if e < self.slots.len() {
            self.slots[e]
        } else {
            None
        }
    }

    /// Whether `e` lives.
    pub fn contains(&self, e: Entity) -> (b: bool)
        ensures
            b == alive(self@, e as int),
    {
        e < self.slots.len() && self.slots[e].is_some()
    }

    /// Looks for the one entity that carries a component of the kind.
    pub fn single(&self, kind: Component) -> (r: Lookup)
        ensures
            r == lookup(self@, kind),
            r matches Lookup::One(e) ==> holder(self@, kind, e as int),
    {
        let n = self.slots.len();
        let mut count: usize = 0;
        let mut first: usize = 0;
        let mut e: usize = 0;
        while e < n
            invariant
                e <= n,
                n == self@.len(),
                count == holders(self@, kind, e as int).len(),
                count <= e,
                count > 0 ==> first == holders(self@, kind, e as int)[0],
            decreases n - e,
        {
            let carries = match self.slots[e] {
                Some(c) => c.has(kind),
                None => false,
            };
            if carries {
                if count == 0 {
                    first = e;
                }
                count += 1;
            }
            e += 1;
        }
        proof {
            if lookup(self@, kind) is One {
                lemma_lookup_one(self@, kind);
            }
        }
        if count == 0 {
            Lookup::Nothing
        } else if count == 1 {
            Lookup::One(first)
        } else {
            Lookup::Many
        }
    }

    /// Replaces what the living entity `e` carries. Its parent stays.
    pub fn set(&mut self, e: Entity, c: Components)
        requires
            old(self).wf(),
            alive(old(self)@, e as int),
            c.parent == old(self)@[e as int]->0.parent,
        ensures
            final(self)@ == old(self)@.update(e as int, Some(c)),
            final(self).wf(),
    {
        self.slots[e] = Some(c);
        proof {
            let w = self@;
            assert forall|i: int| #[trigger] alive(w, i) implies match w[i]->0.parent {
                Some(p) => p < i && alive(w, p as int),
                None => true,
            } by {
                assert(alive(old(self)@, i));
            }
        }
    }

    /// Adds an entity of its own; whatever parent `c` names is dropped.
    pub fn spawn(&mut self, c: Components) -> (e: Entity)
        requires
            old(self).wf(),
        ensures
            e == old(self)@.len(),
            final(self)@ == old(self)@.push(Some(Components { parent: None, ..c })),
            final(self).wf(),
    {
        let e = self.slots.len();
        self.slots.push(Some(Components { parent: None, ..c }));
        proof {
            let w = self@;
            assert forall|i: int| #[trigger] alive(w, i) implies match w[i]->0.parent {
                Some(p) => p < i && alive(w, p as int),
                None => true,
            } by {
                if i < e {
                    assert(alive(old(self)@, i));
                }
            }
        }
        e
    }

    /// Adds an entity attached to `parent`, if `parent` lives.
    pub fn spawn_child(&mut self, parent: Entity, c: Components) -> (e: Option<Entity>)
        requires
            old(self).wf(),
        ensures
            final(self).wf(),
            alive(old(self)@, parent as int) ==> e == Some(old(self)@.len() as Entity)
                && final(self)@ == old(self)@.push(Some(Components { parent: Some(parent), ..c })),
            !alive(old(self)@, parent as int) ==> e is None && final(self)@ == old(self)@,
    {
        if !self.contains(parent) {
            return None;
        }
        let e = self.slots.len();
        self.slots.push(Some(Components { parent: Some(parent), ..c }));
        proof {
            let w = self@;
            assert forall|i: int| #[trigger] alive(w, i) implies match w[i]->0.parent {
                Some(p) => p < i && alive(w, p as int),
                None => true,
            } by {
                if i < e {
                    assert(alive(old(self)@, i));
                }
            }
        }
        Some(e)
    }

    /// Removes the selected entities and, with each, all that is attached
    /// to it.
    pub fn despawn_selected(&mut self, sel: Selection)
        requires
            old(self).wf(),
        ensures
            final(self)@ == purged(old(self)@, sel),
            final(self).wf(),
    {
        let n = self.slots.len();
        let mut i: usize = 0;
        while i < n
            invariant
                i <= n,
                n == old(self)@.len(),
                self@.len() == n,
                well_formed(old(self)@),
                forall|j: int| 0 <= j < i ==> self@[j] == purged(old(self)@, sel)[j],
                forall|j: int| i <= j < n ==> self@[j] == old(self)@[j],
            decreases n - i,
        {
            let goes = match self.slots[i] {
                Some(c) => {
                    let picked = match sel {
                        Selection::One(root) => i == root,
                        Selection::With(kind) => c.has(kind),
                    };
                    let parent_gone = match c.parent {
                        Some(p) => p < i && self.slots[p].is_none(),
                        None => false,
                    };
                    proof {
                        assert(alive(old(self)@, i as int));
                        if let Some(p) = c.parent {
                            assert(alive(old(self)@, p as int));
                        }
                    }
                    picked || parent_gone
                },
                None => false,
            };
            assert(goes == condemned(old(self)@, sel, i as int));
            if goes {
                self.slots[i] = None;
            }
            i += 1;
        }
        proof {
            assert(self@ =~= purged(old(self)@, sel));
            lemma_purged_well_formed(old(self)@, sel);
        }
    }

    /// Removes `e` and all that is attached to it. Nothing happens if `e`
    /// does not live.
    pub fn despawn_recursive(&mut self, e: Entity)
        requires
            old(self).wf(),
        ensures
            final(self)@ == purged(old(self)@, Selection::One(e)),
            final(self).wf(),
    {
        self.despawn_selected(Selection::One(e));
    }
}

} // verus!

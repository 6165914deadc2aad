//! The entity/component store, and the staged command buffer through which
//! entities created during a tick become visible only at the tick's commit.
//!
//! An entity is its index into three parallel component columns; attaching no
//! intrinsic data to entities keeps identity purely positional, as an
//! entity/component database should.

use vstd::prelude::*;

use crate::components::ModelName;
use crate::components::PhysicsObject;
use crate::components::PhysicsType;
use crate::components::PlayerCar;
use crate::resources::RigidBodyContainer;

verus! {

/// One entity's components, recorded before the entity exists.
pub struct EntityProto {
    pub name: Option<ModelName>,
    pub link: Option<PhysicsObject>,
    pub player: Option<PlayerCar>,
}

/// The live entity/component database. Entities are never deleted.
pub struct EntityStore {
    names: Vec<Option<ModelName>>,
    links: Vec<Option<PhysicsObject>>,
    players: Vec<Option<PlayerCar>>,
}

impl EntityStore {
    /// How many entities exist.
    pub closed spec fn spec_len(self) -> nat {
        self.names@.len()
    }

    /// The three columns have one row per entity.
    pub closed spec fn wf(self) -> bool {
        &&& self.links@.len() == self.names@.len()
        &&& self.players@.len() == self.names@.len()
    }

    /// The display name attached to entity `e`, if any.
    pub closed spec fn name_at(self, e: int) -> Option<ModelName> {
        self.names@[e]
    }

    /// The physics link attached to entity `e`, if any.
    pub closed spec fn link_at(self, e: int) -> Option<PhysicsObject> {
        self.links@[e]
    }

    /// The player tag attached to entity `e`, if any.
    pub closed spec fn player_at(self, e: int) -> Option<PlayerCar> {
        self.players@[e]
    }

    /// Every handle of every link resolves inside containers holding
    /// `n_bodies` bodies and `n_colliders` colliders.
    pub open spec fn links_in_bounds(self, n_bodies: nat, n_colliders: nat) -> bool {
        forall|e: int|
            0 <= e < self.spec_len() && (#[trigger] self.link_at(e)) is Some ==> self.link_at(
                e,
            )->Some_0.in_bounds(n_bodies, n_colliders)
    }

    /// Every entity's link references a body below `n_bodies`.
    pub open spec fn links_body_bound(self, n_bodies: nat) -> bool {
        forall|e: int|
            0 <= e < self.spec_len() && (#[trigger] self.link_at(e)) is Some ==> self.link_at(
                e,
            )->Some_0.rigidbody < n_bodies
    }

    /// Every entity whose link is marked `Static` references a body the
    /// engine holds as fixed — the registration the spawner establishes.
    pub open spec fn static_links_fixed(self, bodies: RigidBodyContainer) -> bool {
        forall|e: int|
            0 <= e < self.spec_len() && (#[trigger] self.link_at(e)) is Some && self.link_at(
                e,
            )->Some_0.object_type == PhysicsType::Static ==> bodies.is_fixed(
                self.link_at(e)->Some_0.rigidbody as int,
            )
    }

    /// Every entity carrying both a link and a player tag has a primary
    /// collider: its collider list is non-empty.
    pub open spec fn players_have_primary(self) -> bool {
        forall|e: int|
            0 <= e < self.spec_len() && (#[trigger] self.player_at(e)) is Some && self.link_at(
                e,
            ) is Some ==> self.link_at(e)->Some_0.colliders@.len() >= 1
    }

    /// Every entity carrying both a link and a player tag references a body
    /// the engine holds as dynamic — a vehicle is never a static prop.
    pub open spec fn player_bodies_dynamic(self, bodies: RigidBodyContainer) -> bool {
        forall|e: int|
            0 <= e < self.spec_len() && (#[trigger] self.player_at(e)) is Some && self.link_at(
                e,
            ) is Some ==> bodies.is_dynamic(self.link_at(e)->Some_0.rigidbody as int)
    }

    /// An empty store.
    pub fn new() -> (s: EntityStore)
        ensures
            s.wf(),
            s.spec_len() == 0,
    {
        EntityStore { names: Vec::new(), links: Vec::new(), players: Vec::new() }
    }

    pub fn len(&self) -> (n: usize)
        ensures
            n == self.spec_len(),
    {
        self.names.len()
    }

    pub fn name(&self, e: usize) -> (r: Option<ModelName>)
        requires
            self.wf(),
            e < self.spec_len(),
        ensures
            r == self.name_at(e as int),
    {
        self.names[e]
    }

    pub fn link(&self, e: usize) -> (r: &Option<PhysicsObject>)
        requires
            self.wf(),
            e < self.spec_len(),
        ensures
            *r == self.link_at(e as int),
    {
        &self.links[e]
    }

    pub fn player(&self, e: usize) -> (r: Option<PlayerCar>)
        requires
            self.wf(),
            e < self.spec_len(),
        ensures
            r == self.player_at(e as int),
    {
        self.players[e]
    }

    /// Overwrites the player tag of entity `e`, which must carry one.
    pub fn set_player(&mut self, e: usize, p: PlayerCar)
        requires
            old(self).wf(),
            e < old(self).spec_len(),
            old(self).player_at(e as int) is Some,
        ensures
            final(self).wf(),
            final(self).spec_len() == old(self).spec_len(),
            final(self).player_at(e as int) == Some(p),
            forall|i: int|
                0 <= i < old(self).spec_len() && i != e ==> final(self).player_at(i) == old(
                    self,
                ).player_at(i),
            forall|i: int|
                0 <= i < old(self).spec_len() ==> final(self).name_at(i) == old(self).name_at(i)
                    && final(self).link_at(i) == old(self).link_at(i),
    {
        self.players[e] = Some(p);
    }

    /// Appends one entity with the given components and returns its id.
    pub fn push_entity(&mut self, proto: EntityProto) -> (e: usize)
        requires
            old(self).wf(),
        ensures
            final(self).wf(),
            e == old(self).spec_len(),
            final(self).spec_len() == old(self).spec_len() + 1,
            final(self).name_at(e as int) == proto.name,
            final(self).link_at(e as int) == proto.link,
            final(self).player_at(e as int) == proto.player,
            forall|i: int|
                0 <= i < old(self).spec_len() ==> final(self).name_at(i) == old(self).name_at(i)
                    && final(self).link_at(i) == old(self).link_at(i) && final(self).player_at(i)
                    == old(self).player_at(i),
    {
        let e = self.names.len();
        let EntityProto { name, link, player } = proto;
        self.names.push(name);
        self.links.push(link);
        self.players.push(player);
        e
    }
}

/// Entity creations recorded during a tick, applied in order at the commit
/// point and never visible to systems still running in the issuing tick.
pub struct PendingEntities {
    items: Vec<EntityProto>,
}

impl PendingEntities {
    /// How many creations are pending.
    pub closed spec fn spec_len(self) -> nat {
        self.items@.len()
    }

    /// The recorded components of pending creation `i`.
    pub closed spec fn at(self, i: int) -> EntityProto {
        self.items@[i]
    }

    /// Every handle of every recorded link resolves inside containers
    /// holding `n_bodies` bodies and `n_colliders` colliders.
    pub open spec fn links_in_bounds(self, n_bodies: nat, n_colliders: nat) -> bool {
        forall|i: int|
            0 <= i < self.spec_len() && (#[trigger] self.at(i)).link is Some ==> self.at(
                i,
            ).link->Some_0.in_bounds(n_bodies, n_colliders)
    }

    /// Every recorded link marked `Static` references a body the engine
    /// holds as fixed.
    pub open spec fn static_links_fixed(self, bodies: RigidBodyContainer) -> bool {
        forall|i: int|
            0 <= i < self.spec_len() && (#[trigger] self.at(i)).link is Some && self.at(
                i,
            ).link->Some_0.object_type == PhysicsType::Static ==> bodies.is_fixed(
                self.at(i).link->Some_0.rigidbody as int,
            )
    }

    /// Every recorded entity carrying both a link and a player tag has a
    /// primary collider.
    pub open spec fn players_have_primary(self) -> bool {
        forall|i: int|
            0 <= i < self.spec_len() && (#[trigger] self.at(i)).player is Some && self.at(
                i,
            ).link is Some ==> self.at(i).link->Some_0.colliders@.len() >= 1
    }

    /// Every recorded entity carrying both a link and a player tag
    /// references a body the engine holds as dynamic.
    pub open spec fn player_bodies_dynamic(self, bodies: RigidBodyContainer) -> bool {
        forall|i: int|
            0 <= i < self.spec_len() && (#[trigger] self.at(i)).player is Some && self.at(
                i,
            ).link is Some ==> bodies.is_dynamic(self.at(i).link->Some_0.rigidbody as int)
    }

    /// An empty buffer.
    pub fn new() -> (p: PendingEntities)
        ensures
            p.spec_len() == 0,
    {
        PendingEntities { items: Vec::new() }
    }

    pub fn len(&self) -> (n: usize)
        ensures
            n == self.spec_len(),
    {
        self.items.len()
    }

    /// Records one entity creation for the next commit.
    pub fn push(&mut self, proto: EntityProto)
        ensures
            final(self).spec_len() == old(self).spec_len() + 1,
            final(self).at(old(self).spec_len() as int) == proto,
            forall|i: int|
                0 <= i < old(self).spec_len() ==> final(self).at(i) == old(self).at(i),
    {
        self.items.push(proto);
    }

    /// Applies every recorded creation to the store, in recording order, and
    /// leaves the buffer empty.
    pub fn commit(&mut self, store: &mut EntityStore)
        requires
            old(store).wf(),
        ensures
            final(self).spec_len() == 0,
            final(store).wf(),
            final(store).spec_len() == old(store).spec_len() + old(self).spec_len(),
            forall|i: int|
                0 <= i < old(store).spec_len() ==> final(store).name_at(i) == old(store).name_at(i)
                    && final(store).link_at(i) == old(store).link_at(i) && final(store).player_at(
                    i,
                ) == old(store).player_at(i),
            forall|i: int|
                0 <= i < old(self).spec_len() ==> {
                    let e = old(store).spec_len() + i;
                    &&& final(store).name_at(e as int) == (#[trigger] old(self).at(i)).name
                    &&& final(store).link_at(e as int) == old(self).at(i).link
                    &&& final(store).player_at(e as int) == old(self).at(i).player
                },
    {
        let n = self.items.len();
        let mut k: usize = 0;
        while k < n
            invariant
                n == old(self).spec_len(),
                0 <= k <= n,
                self.items@ == old(self).items@.subrange(k as int, n as int),
                store.wf(),
                store.spec_len() == old(store).spec_len() + k,
                forall|i: int|
                    0 <= i < old(store).spec_len() ==> store.name_at(i) == old(store).name_at(i)
                        && store.link_at(i) == old(store).link_at(i) && store.player_at(i) == old(
                        store,
                    ).player_at(i),
                forall|i: int|
                    0 <= i < k ==> {
                        let e = old(store).spec_len() + i;
                        &&& store.name_at(e as int) == (#[trigger] old(self).at(i)).name
                        &&& store.link_at(e as int) == old(self).at(i).link
                        &&& store.player_at(e as int) == old(self).at(i).player
                    },
            decreases n - k,
        {
            let item = self.items.remove(0);
            proof {
                assert(item == old(self).at(k as int));
                assert(self.items@ =~= old(self).items@.subrange(k as int + 1, n as int));
            }
            store.push_entity(item);
            k = k + 1;
        }
    }
}

} // verus!

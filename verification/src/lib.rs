//! Core of a small driving game: a player-controlled vehicle on a rigid-body
//! physics course (floor, ramps, heightfield terrain), advanced tick by tick.
//!
//! All gameplay bookkeeping (entities, components, handle containers, the
//! per-tick pipeline) is verified. The numerical integration itself is done by
//! the rapier3d physics engine behind a small trusted boundary (`raw`); every
//! scalar the library owns is kept in integer thousandths ("milli" units) and
//! converted to the engine's floating-point scalars only inside that boundary.

use vstd::prelude::*;
use vstd::pervasive::unreached;

pub mod components;
pub mod raw;
pub mod resources;
pub mod store;
pub mod entities;
pub mod systems;

use components::PhysicsType;
use components::PlayerCar;

verus! {

/// Index of one input flag, in the order the host supplies them.
#[derive(Clone, Copy, Debug)]
pub enum GameKeys {
    Acceleration,
    Brakes,
    Left,
    Right,
}

impl GameKeys {
    /// The position of this flag inside a `GameKeysContainer`.
    pub fn index(self) -> (i: usize)
        ensures
            i == self.index_spec(),
            i < 4,
    {
        match self {
            GameKeys::Acceleration => 0,
            GameKeys::Brakes => 1,
            GameKeys::Left => 2,
            GameKeys::Right => 3,
        }
    }

    pub open spec fn index_spec(self) -> usize {
        match self {
            GameKeys::Acceleration => 0usize,
            GameKeys::Brakes => 1usize,
            GameKeys::Left => 2usize,
            GameKeys::Right => 3usize,
        }
    }
}

/// The four per-tick input flags: accelerate, brake, steer left, steer right.
#[derive(Clone, Copy, Debug)]
pub struct GameKeysContainer {
    keys: [bool; 4],
}

impl GameKeysContainer {
    /// All flags of a container, as a sequence of four booleans.
    pub closed spec fn view_spec(self) -> Seq<bool> {
        self.keys@
    }

    /// A fresh container with every flag released.
    pub fn new() -> (c: GameKeysContainer)
        ensures
            c.view_spec() =~= seq![false, false, false, false],
    {
        let c = GameKeysContainer { keys: [false, false, false, false] };
        proof {
            assert(c.keys@ =~= seq![false, false, false, false]);
        }
        c
    }

    /// Press or release one flag.
    pub fn set(&mut self, idx: usize, value: bool)
        requires
            idx < 4,
        ensures
            final(self).view_spec() =~= old(self).view_spec().update(idx as int, value),
    {
        self.keys[idx] = value;
    }

    /// The flag sequence always has exactly four entries, whatever was set.
    pub proof fn lemma_len(self)
        ensures
            self.view_spec().len() == 4,
    {
        assert(self.keys@.len() == 4);
    }

    /// Read one flag.
    pub fn get(&self, idx: usize) -> (v: bool)
        requires
            idx < 4,
        ensures
            v == self.view_spec()[idx as int],
    {
        self.keys[idx]
    }
}

/// One per-entity snapshot for the embedding layer: display name, physics
/// kind, entity id, and the world pose as IEEE-754 bit patterns — position
/// x, y, z and orientation as Euler angles roll, pitch, yaw. The embedding
/// layer turns the bit patterns back into its floating-point scalars.
#[derive(Clone, Copy, Debug)]
pub struct GameObject {
    pub name: [char; 5],
    pub physics: PhysicsType,
    pub id: u32,
    pub pos: (u32, u32, u32),
    pub rot: (u32, u32, u32),
}

impl GameObject {
    /// The display name as an owned string.
    pub fn name(&self) -> (s: String)
        ensures
            s@ =~= self.name@,
    {
        let mut out = String::new();
        let mut i: usize = 0;
        while i < 5
            invariant
                0 <= i <= 5,
                out@ =~= self.name@.take(i as int),
            decreases 5 - i,
        {
            out.push(self.name[i]);
            i = i + 1;
        }
        proof {
            assert(out@ =~= self.name@);
        }
        out
    }

    pub fn id(&self) -> (r: u32)
        ensures
            r == self.id,
    {
        self.id
    }

    pub fn physics_type(&self) -> (r: PhysicsType)
        ensures
            r == self.physics,
    {
        self.physics
    }

    /// The position bit patterns (x, y, z).
    pub fn pos(&self) -> (r: (u32, u32, u32))
        ensures
            r == self.pos,
    {
        self.pos
    }

    /// The orientation bit patterns (roll, pitch, yaw).
    pub fn rot(&self) -> (r: (u32, u32, u32))
        ensures
            r == self.rot,
    {
        self.rot
    }
}

/// An unbounded collection of per-entity snapshots, in entity order.
#[derive(Debug)]
pub struct GameObjectContainer {
    data: Vec<GameObject>,
}

impl GameObjectContainer {
    /// The snapshots this container holds.
    pub closed spec fn view_spec(self) -> Seq<GameObject> {
        self.data@
    }

    pub fn len(&self) -> (n: u32)
        requires
            self.view_spec().len() <= u32::MAX,
        ensures
            n == self.view_spec().len(),
    {
        self.data.len() as u32
    }

    pub fn get(&self, idx: usize) -> (r: GameObject)
        requires
            idx < self.view_spec().len(),
        ensures
            r == self.view_spec()[idx as int],
    {
        self.data[idx]
    }

    pub fn push(&mut self, object: GameObject)
        ensures
            final(self).view_spec() == old(self).view_spec().push(object),
    {
        self.data.push(object);
    }
}

impl Default for GameObjectContainer {
    /// An empty collection.
    fn default() -> (c: Self)
        ensures
            c.view_spec() == Seq::<GameObject>::empty(),
    {
        let c = GameObjectContainer { data: Vec::new() };
        proof {
            assert(c.view_spec() =~= Seq::<GameObject>::empty());
        }
        c
    }
}

/// The snapshot `log_entities` owes for entity `e`: its name, its link's
/// kind, its id, and the pose bit patterns of its body.
pub open spec fn snapshot_entry(
    store: store::EntityStore,
    bodies: resources::RigidBodyContainer,
    e: int,
) -> GameObject {
    let bits = bodies.pose_bits(store.link_at(e)->Some_0.rigidbody as int);
    GameObject {
        name: store.name_at(e)->Some_0.name,
        physics: store.link_at(e)->Some_0.object_type,
        id: e as u32,
        pos: (bits[0], bits[1], bits[2]),
        rot: (bits[3], bits[4], bits[5]),
    }
}

/// The snapshots of the first `n` entities: one entry per entity carrying
/// both a display name and a physics link, in entity order.
pub open spec fn snapshot_upto(
    store: store::EntityStore,
    bodies: resources::RigidBodyContainer,
    n: int,
) -> Seq<GameObject>
    decreases n,
{
    if n <= 0 {
        Seq::<GameObject>::empty()
    } else if store.name_at(n - 1) is Some && store.link_at(n - 1) is Some {
        snapshot_upto(store, bodies, n - 1).push(snapshot_entry(store, bodies, n - 1))
    } else {
        snapshot_upto(store, bodies, n - 1)
    }
}

/// Column `j` of a row-major elevation grid, top row first.
pub open spec fn column_of(grid: Seq<Vec<i64>>, j: int) -> Seq<i64> {
    Seq::new(grid.len(), |i: int| grid[i]@[j])
}

/// The first `ncols` columns of a row-major elevation grid, concatenated —
/// the column-major order the engine's heightfield grid uses.
pub open spec fn columns_flat(grid: Seq<Vec<i64>>, ncols: int) -> Seq<i64>
    decreases ncols,
{
    if ncols <= 0 {
        Seq::<i64>::empty()
    } else {
        columns_flat(grid, ncols - 1) + column_of(grid, ncols - 1)
    }
}

/// The whole game: the entity store, the staged entity creations, and the
/// three simulation resources, explicitly owned and explicitly passed — no
/// ambient state.
pub struct GameContainer {
    store: store::EntityStore,
    pending: store::PendingEntities,
    physics: resources::PhysicsResource,
    bodies: resources::RigidBodyContainer,
    colliders: resources::ColliderContainer,
}

impl GameContainer {
    pub closed spec fn store_spec(self) -> store::EntityStore {
        self.store
    }

    pub closed spec fn pending_spec(self) -> store::PendingEntities {
        self.pending
    }

    pub closed spec fn physics_spec(self) -> resources::PhysicsResource {
        self.physics
    }

    pub closed spec fn bodies_spec(self) -> resources::RigidBodyContainer {
        self.bodies
    }

    pub closed spec fn colliders_spec(self) -> resources::ColliderContainer {
        self.colliders
    }

    /// The standing invariant of the game world.
    pub open spec fn wf(self) -> bool {
        systems::world_wf(self.store_spec(), self.pending_spec(), self.bodies_spec(), self.colliders_spec())
    }

    /// The live entity store, for embedding layers and diagnostics.
    pub fn store(&self) -> (r: &store::EntityStore)
        ensures
            *r == self.store_spec(),
    {
        &self.store
    }

    /// The body container, for embedding layers and diagnostics.
    pub fn bodies(&self) -> (r: &resources::RigidBodyContainer)
        ensures
            *r == self.bodies_spec(),
    {
        &self.bodies
    }

    /// The collider container, for embedding layers and diagnostics.
    pub fn colliders(&self) -> (r: &resources::ColliderContainer)
        ensures
            *r == self.colliders_spec(),
    {
        &self.colliders
    }

    /// Builds a fresh world: creates the resources, runs the init pass —
    /// terrain, then the player, then one ramp per placement — and commits,
    /// so every starting entity is live. Fails with `ColliderConstruction`,
    /// yielding no world, when a ramp hull construction fails.
    ///
    /// On success: entity 0 is the terrain (`map00`, static), entity 1 the
    /// player (`car00`, dynamic), airborne from the start
    /// (`touching_ground == false`), and entities 2 onward the ramps
    /// (`ramp0`, static), one per placement, in order.
    pub fn create(ramps: &Vec<systems::init::RampPlacement>) -> (r: Result<
        GameContainer,
        resources::PhysicsError,
    >)
        ensures
            match r {
                Ok(g) => {
                    &&& g.wf()
                    &&& g.pending_spec().spec_len() == 0
                    &&& g.store_spec().spec_len() == 2 + ramps@.len()
                    &&& g.store_spec().name_at(0)->Some_0.name@ =~= seq!['m', 'a', 'p', '0', '0']
                    &&& g.store_spec().link_at(0)->Some_0.object_type == PhysicsType::Static
                    &&& g.store_spec().player_at(0) is None
                    &&& g.store_spec().name_at(1)->Some_0.name@ =~= seq!['c', 'a', 'r', '0', '0']
                    &&& g.store_spec().link_at(1)->Some_0.object_type == PhysicsType::Dynamic
                    &&& g.store_spec().player_at(1) == Some(PlayerCar { touching_ground: false })
                    &&& forall|i: int|
                        0 <= i < ramps@.len() ==> (#[trigger] g.store_spec().name_at(
                            2 + i,
                        ))->Some_0.name@ =~= seq!['r', 'a', 'm', 'p', '0'] && g.store_spec().link_at(
                            2 + i,
                        )->Some_0.object_type == PhysicsType::Static && g.store_spec().player_at(
                            2 + i,
                        ) is None
                    &&& forall|e: int|
                        0 <= e < 2 + ramps@.len() ==> ((#[trigger] g.store_spec().link_at(
                            e,
                        )) matches Some(l) && l.rigidbody == e && l.colliders@ =~= seq![e as usize])
                    &&& g.bodies_spec().spec_len() == 2 + ramps@.len()
                    &&& g.colliders_spec().spec_len() == 2 + ramps@.len()
                    &&& systems::init::entity_physics_pinned(
                        g.bodies_spec(),
                        g.colliders_spec(),
                        0,
                        0,
                        PhysicsType::Static,
                        components::MilliVec3 { x: 0i64, y: 0i64, z: 0i64 },
                        raw::heightfield_shape_bits(
                            5,
                            5,
                            entities::ground_heights_spec(),
                            entities::terrain_scale_milli(),
                        ),
                    )
                    &&& systems::init::entity_physics_pinned(
                        g.bodies_spec(),
                        g.colliders_spec(),
                        1,
                        1,
                        PhysicsType::Dynamic,
                        systems::init::player_start_milli(),
                        systems::init::player_collider_shape(),
                    )
                    &&& g.bodies_spec().velocity_bits(1) == raw::zero_velocity_bits()
                    &&& g.bodies_spec().damping_bits(1) == raw::damping_bits_of_milli(
                        entities::PLAYER_LINEAR_DAMPING_MILLI,
                        entities::PLAYER_ANGULAR_DAMPING_MILLI,
                    )
                    &&& g.bodies_spec().mass_bits(1) == raw::attached_mass_bits(
                        raw::additional_mass_bits(entities::PLAYER_MASS_MILLI),
                        systems::init::player_collider_shape(),
                    )
                    &&& forall|i: int|
                        0 <= i < ramps@.len() ==> #[trigger] systems::init::entity_physics_pinned(
                            g.bodies_spec(),
                            g.colliders_spec(),
                            2 + i,
                            2 + i,
                            PhysicsType::Static,
                            ramps@[i].pos,
                            raw::hull_shape_bits(entities::ramp_profile_spec()),
                        )
                },
                Err(e) => e == resources::PhysicsError::ColliderConstruction,
            },
            r is Ok,
    {
        let (mut bodies, mut colliders, physics) = resources::insert_resources();
        let mut store = store::EntityStore::new();
        let mut pending = store::PendingEntities::new();
        let mut init = systems::init::InitSystem {};
        let init_result = init.run(&mut pending, &mut bodies, &mut colliders, ramps);
        match init_result {
            Ok(_) => {},
            Err(e) => {
                return Err(e);
            },
        }
        let ghost pending_full = pending;
        pending.commit(&mut store);
        proof {
            let k = ramps@.len() as int;
            assert forall|e: int|
                0 <= e < store.spec_len() && (#[trigger] store.link_at(e)) is Some implies
                store.link_at(e)->Some_0.in_bounds(bodies.spec_len(), colliders.spec_len())
                && (store.link_at(e)->Some_0.object_type == PhysicsType::Static
                    ==> bodies.is_fixed(store.link_at(e)->Some_0.rigidbody as int)) by {
                assert(store.link_at(e) == pending_full.at(e).link);
                if e == 0 {
                    assert(systems::init::proto_matches(
                        pending_full.at(0),
                        seq!['m', 'a', 'p', '0', '0'],
                        PhysicsType::Static,
                        None,
                        0,
                        0,
                    ));
                } else if e == 1 {
                    assert(systems::init::proto_matches(
                        pending_full.at(1),
                        seq!['c', 'a', 'r', '0', '0'],
                        PhysicsType::Dynamic,
                        Some(PlayerCar { touching_ground: false }),
                        1,
                        1,
                    ));
                } else {
                    let i = e - 2;
                    assert(systems::init::proto_matches(
                        pending_full.at(2 + i),
                        seq!['r', 'a', 'm', 'p', '0'],
                        PhysicsType::Static,
                        None,
                        2 + i,
                        2 + i,
                    ));
                    assert(systems::init::entity_physics_pinned(
                        bodies,
                        colliders,
                        2 + i,
                        2 + i,
                        PhysicsType::Static,
                        ramps@[i].pos,
                        raw::hull_shape_bits(entities::ramp_profile_spec()),
                    ));
                    assert(bodies.is_fixed(2 + i));
                }
            }
            assert forall|e: int|
                0 <= e < store.spec_len() && (#[trigger] store.player_at(e)) is Some
                && store.link_at(e) is Some implies store.link_at(e)->Some_0.colliders@.len() >= 1
                && bodies.is_dynamic(store.link_at(e)->Some_0.rigidbody as int) by {
                assert(store.link_at(e) == pending_full.at(e).link);
                if e == 1 {
                    assert(systems::init::entity_physics_pinned(
                        bodies,
                        colliders,
                        1,
                        1,
                        PhysicsType::Dynamic,
                        systems::init::player_start_milli(),
                        systems::init::player_collider_shape(),
                    ));
                    assert(systems::init::proto_matches(
                        pending_full.at(1),
                        seq!['c', 'a', 'r', '0', '0'],
                        PhysicsType::Dynamic,
                        Some(PlayerCar { touching_ground: false }),
                        1,
                        1,
                    ));
                } else if e == 0 {
                    assert(systems::init::proto_matches(
                        pending_full.at(0),
                        seq!['m', 'a', 'p', '0', '0'],
                        PhysicsType::Static,
                        None,
                        0,
                        0,
                    ));
                } else {
                    let i = e - 2;
                    assert(systems::init::proto_matches(
                        pending_full.at(2 + i),
                        seq!['r', 'a', 'm', 'p', '0'],
                        PhysicsType::Static,
                        None,
                        2 + i,
                        2 + i,
                    ));
                }
            }
            assert(systems::init::proto_matches(
                pending_full.at(0),
                seq!['m', 'a', 'p', '0', '0'],
                PhysicsType::Static,
                None,
                0,
                0,
            ));
            assert(systems::init::proto_matches(
                pending_full.at(1),
                seq!['c', 'a', 'r', '0', '0'],
                PhysicsType::Dynamic,
                Some(PlayerCar { touching_ground: false }),
                1,
                1,
            ));
            assert(store.name_at(0) == pending_full.at(0).name);
            assert(store.name_at(1) == pending_full.at(1).name);
            assert forall|i: int| 0 <= i < ramps@.len() implies (#[trigger] store.name_at(
                2 + i,
            ))->Some_0.name@ =~= seq!['r', 'a', 'm', 'p', '0'] && store.link_at(
                2 + i,
            )->Some_0.object_type == PhysicsType::Static && store.player_at(2 + i) is None by {
                assert(systems::init::proto_matches(
                    pending_full.at(2 + i),
                    seq!['r', 'a', 'm', 'p', '0'],
                    PhysicsType::Static,
                    None,
                    2 + i,
                    2 + i,
                ));
                assert(store.name_at(2 + i) == pending_full.at(2 + i).name);
                assert(store.link_at(2 + i) == pending_full.at(2 + i).link);
                assert(store.player_at(2 + i) == pending_full.at(2 + i).player);
            }
        }
        proof {
            assert forall|e: int|
                0 <= e < 2 + ramps@.len() implies ((#[trigger] store.link_at(e)) matches Some(l)
                && l.rigidbody == e && l.colliders@ =~= seq![e as usize]) by {
                assert(store.link_at(e) == pending_full.at(e).link);
                if e == 0 {
                    assert(systems::init::proto_matches(
                        pending_full.at(0),
                        seq!['m', 'a', 'p', '0', '0'],
                        PhysicsType::Static,
                        None,
                        0,
                        0,
                    ));
                } else if e == 1 {
                    assert(systems::init::proto_matches(
                        pending_full.at(1),
                        seq!['c', 'a', 'r', '0', '0'],
                        PhysicsType::Dynamic,
                        Some(PlayerCar { touching_ground: false }),
                        1,
                        1,
                    ));
                } else {
                    let i = e - 2;
                    assert(systems::init::proto_matches(
                        pending_full.at(2 + i),
                        seq!['r', 'a', 'm', 'p', '0'],
                        PhysicsType::Static,
                        None,
                        2 + i,
                        2 + i,
                    ));
                }
            }
            assert(systems::init::entity_physics_pinned(
                bodies,
                colliders,
                0,
                0,
                PhysicsType::Static,
                components::MilliVec3 { x: 0i64, y: 0i64, z: 0i64 },
                raw::heightfield_shape_bits(
                    5,
                    5,
                    entities::ground_heights_spec(),
                    entities::terrain_scale_milli(),
                ),
            ));
            assert(systems::init::entity_physics_pinned(
                bodies,
                colliders,
                1,
                1,
                PhysicsType::Dynamic,
                systems::init::player_start_milli(),
                systems::init::player_collider_shape(),
            ));
            assert(bodies.velocity_bits(1) == raw::zero_velocity_bits());
            assert forall|i: int|
                0 <= i < ramps@.len() implies #[trigger] systems::init::entity_physics_pinned(
                    bodies,
                    colliders,
                    2 + i,
                    2 + i,
                    PhysicsType::Static,
                    ramps@[i].pos,
                    raw::hull_shape_bits(entities::ramp_profile_spec()),
                ) by {
                assert(systems::init::entity_physics_pinned(
                    bodies,
                    colliders,
                    0 + 2 + i,
                    0 + 2 + i,
                    PhysicsType::Static,
                    ramps@[i].pos,
                    raw::hull_shape_bits(entities::ramp_profile_spec()),
                ));
            }
        }
        Ok(GameContainer { store, pending, physics, bodies, colliders })
    }

    /// One game tick under the given input flags: Control System, Step
    /// System, then commit of any deferred entity creations. See
    /// `systems::run_systems` for the exact per-tick guarantees this method
    /// inherits; in particular, every static entity keeps its exact pose,
    /// and every vehicle's grounded flag is fully rederived from the fresh
    /// contact data.
    pub fn run_systems(&mut self, keys: &GameKeysContainer)
        requires
            old(self).wf(),
        ensures
            final(self).wf(),
            final(self).pending_spec().spec_len() == 0,
            final(self).store_spec().spec_len() == old(self).store_spec().spec_len() + old(
                self,
            ).pending_spec().spec_len(),
            final(self).bodies_spec().raw_handles() == old(self).bodies_spec().raw_handles(),
            final(self).colliders_spec().raw_handles() == old(self).colliders_spec().raw_handles(),
            raw::body_mass_bits_of(final(self).bodies_spec().rapier_set())
                == raw::body_mass_bits_of(old(self).bodies_spec().rapier_set()),
            raw::body_damping_bits_of(final(self).bodies_spec().rapier_set())
                == raw::body_damping_bits_of(old(self).bodies_spec().rapier_set()),
            raw::collider_shape_bits_of(final(self).colliders_spec().rapier_set())
                == raw::collider_shape_bits_of(old(self).colliders_spec().rapier_set()),
            raw::collider_parent_of(final(self).colliders_spec().rapier_set())
                == raw::collider_parent_of(old(self).colliders_spec().rapier_set()),
            forall|e: int|
                0 <= e < old(self).store_spec().spec_len() && (#[trigger] old(
                    self,
                ).store_spec().link_at(e)) is Some && old(self).store_spec().link_at(
                    e,
                )->Some_0.object_type == PhysicsType::Static ==> final(self).bodies_spec().pose_bits(
                    old(self).store_spec().link_at(e)->Some_0.rigidbody as int,
                ) == old(self).bodies_spec().pose_bits(
                    old(self).store_spec().link_at(e)->Some_0.rigidbody as int,
                ),
            forall|e: int|
                0 <= e < old(self).store_spec().spec_len() ==> final(self).store_spec().name_at(e)
                    == old(self).store_spec().name_at(e) && final(self).store_spec().link_at(e)
                    == old(self).store_spec().link_at(e),
            forall|e: int|
                0 <= e < old(self).store_spec().spec_len() ==> final(self).store_spec().player_at(
                    e,
                ) == (
                if old(self).store_spec().player_at(e) is Some && old(self).store_spec().link_at(
                    e,
                ) is Some {
                    Some(
                        PlayerCar {
                            touching_ground: systems::run_physics::derived_grounded(
                                old(self).store_spec(),
                                e,
                                final(self).colliders_spec(),
                                final(self).physics_spec(),
                            ),
                        },
                    )
                } else {
                    old(self).store_spec().player_at(e)
                }),
    {
        systems::run_systems(
            &mut self.store,
            &mut self.pending,
            &mut self.physics,
            &mut self.bodies,
            &mut self.colliders,
            keys,
        );
    }

    /// One snapshot per entity carrying both a display name and a physics
    /// link, in entity order: name, kind, id, and the body's pose read back
    /// from the engine.
    pub fn log_entities(&self) -> (out: GameObjectContainer)
        requires
            self.wf(),
            self.store_spec().spec_len() <= u32::MAX,
        ensures
            out.view_spec() == snapshot_upto(
                self.store_spec(),
                self.bodies_spec(),
                self.store_spec().spec_len() as int,
            ),
    {
        let mut out = GameObjectContainer::default();
        let n = self.store.len();
        let mut e: usize = 0;
        while e < n
            invariant
                self.wf(),
                n == self.store_spec().spec_len(),
                n <= u32::MAX,
                0 <= e <= n,
                out.view_spec() == snapshot_upto(self.store_spec(), self.bodies_spec(), e as int),
            decreases n - e,
        {
            let has_name = self.store.name(e).is_some();
            let has_link = self.store.link(e).is_some();
            if has_name && has_link {
                let name = match self.store.name(e) {
                    Some(m) => m,
                    None => unreached(),
                };
                let (object_type, rigidbody) = match self.store.link(e) {
                    Some(l) => (l.object_type, l.rigidbody),
                    None => unreached(),
                };
                proof {
                    assert(self.store_spec().link_at(e as int)->Some_0.in_bounds(
                        self.bodies_spec().spec_len(),
                        self.colliders_spec().spec_len(),
                    ));
                }
                let bits = self.bodies.read_pose_bits(rigidbody);
                let obj = GameObject {
                    name: name.name,
                    physics: object_type,
                    id: e as u32,
                    pos: (bits[0], bits[1], bits[2]),
                    rot: (bits[3], bits[4], bits[5]),
                };
                proof {
                    assert(obj == snapshot_entry(self.store_spec(), self.bodies_spec(), e as int));
                }
                out.push(obj);
            }
            e = e + 1;
        }
        out
    }

    /// Spawns one static terrain entity from externally supplied elevation
    /// samples: a rectangular grid, row-major, at least 2 x 2 (the engine's
    /// heightfield minimum — validating anything more is the caller's
    /// responsibility), under the fixed world scale `(1000, 100, 1000)`.
    /// Exactly one entity, one body and one collider are appended: the
    /// entity is named `map00`, static, links the new body and the new
    /// collider, and that collider is the heightfield over exactly the given
    /// samples at the fixed scale, attached to the new body at the origin.
    /// Everything that already existed — entities, bodies, poses, colliders
    /// — is untouched. The new entity is live immediately, between ticks.
    pub fn create_map(&mut self, heightmap: &Vec<Vec<i64>>)
        requires
            old(self).wf(),
            heightmap@.len() >= 2,
            heightmap@[0]@.len() >= 2,
            forall|i: int|
                0 <= i < heightmap@.len() ==> (#[trigger] heightmap@[i])@.len()
                    == heightmap@[0]@.len(),
        ensures
            final(self).wf(),
            final(self).store_spec().spec_len() == old(self).store_spec().spec_len() + 1,
            final(self).pending_spec() == old(self).pending_spec(),
            final(self).bodies_spec().spec_len() == old(self).bodies_spec().spec_len() + 1,
            final(self).colliders_spec().spec_len() == old(self).colliders_spec().spec_len() + 1,
            old(self).bodies_spec().bodies_preserved(
                final(self).bodies_spec(),
                old(self).bodies_spec().spec_len(),
            ),
            old(self).colliders_spec().colliders_preserved(
                final(self).colliders_spec(),
                old(self).colliders_spec().spec_len(),
            ),
            forall|e: int|
                0 <= e < old(self).store_spec().spec_len() ==> final(self).store_spec().name_at(e)
                    == old(self).store_spec().name_at(e) && final(self).store_spec().link_at(e)
                    == old(self).store_spec().link_at(e) && final(self).store_spec().player_at(e)
                    == old(self).store_spec().player_at(e),
            ({
                let e = old(self).store_spec().spec_len() as int;
                &&& final(self).store_spec().name_at(e)->Some_0.name@ =~= seq!['m', 'a', 'p', '0', '0']
                &&& final(self).store_spec().link_at(e) matches Some(l) && l.object_type
                    == PhysicsType::Static && l.rigidbody == old(self).bodies_spec().spec_len()
                    && l.colliders@ =~= seq![old(self).colliders_spec().spec_len() as usize]
                &&& final(self).store_spec().player_at(e) is None
            }),
            systems::init::entity_physics_pinned(
                final(self).bodies_spec(),
                final(self).colliders_spec(),
                old(self).bodies_spec().spec_len() as int,
                old(self).colliders_spec().spec_len() as int,
                PhysicsType::Static,
                components::MilliVec3 { x: 0i64, y: 0i64, z: 0i64 },
                raw::heightfield_shape_bits(
                    heightmap@.len() as int,
                    heightmap@[0]@.len() as int,
                    columns_flat(heightmap@, heightmap@[0]@.len() as int),
                    entities::terrain_scale_milli(),
                ),
            ),
    {
        let nrows = heightmap.len();
        let ncols = heightmap[0].len();
        let mut heights: Vec<i64> = Vec::new();
        let mut j: usize = 0;
        while j < ncols
            invariant
                nrows == heightmap@.len(),
                ncols == heightmap@[0]@.len(),
                nrows >= 2,
                ncols >= 2,
                forall|i: int|
                    0 <= i < heightmap@.len() ==> (#[trigger] heightmap@[i])@.len()
                        == heightmap@[0]@.len(),
                0 <= j <= ncols,
                heights@.len() == j * nrows,
                heights@ =~= columns_flat(heightmap@, j as int),
            decreases ncols - j,
        {
            let mut i: usize = 0;
            while i < nrows
                invariant
                    nrows == heightmap@.len(),
                    ncols == heightmap@[0]@.len(),
                    forall|i2: int|
                        0 <= i2 < heightmap@.len() ==> (#[trigger] heightmap@[i2])@.len()
                            == heightmap@[0]@.len(),
                    0 <= i <= nrows,
                    j < ncols,
                    heights@.len() == j * nrows + i,
                    heights@ =~= columns_flat(heightmap@, j as int) + column_of(
                        heightmap@,
                        j as int,
                    ).take(i as int),
                decreases nrows - i,
            {
                let row = &heightmap[i];
                heights.push(row[j]);
                proof {
                    assert(column_of(heightmap@, j as int)[i as int] == heightmap@[i as int]@[j as int]);
                    assert(heights@ =~= columns_flat(heightmap@, j as int) + column_of(
                        heightmap@,
                        j as int,
                    ).take(i as int + 1));
                }
                i = i + 1;
            }
            proof {
                assert((j as int + 1) * (nrows as int) == j as int * (nrows as int) + (
                nrows as int)) by (nonlinear_arith);
                assert(column_of(heightmap@, j as int).take(nrows as int) =~= column_of(
                    heightmap@,
                    j as int,
                ));
                assert(heights@ =~= columns_flat(heightmap@, j as int + 1));
            }
            j = j + 1;
        }
        proof {
            assert(heights@.len() == ncols * nrows);
            assert(nrows * ncols == ncols * nrows) by (nonlinear_arith);
        }
        let body_handle = self.bodies.insert_fixed_body(
            components::MilliVec3 { x: 0, y: 0, z: 0 },
            components::MilliVec3 { x: 0, y: 0, z: 0 },
        );
        let ghost bodies_mid = self.bodies;
        let collider_handle = match self.colliders.insert_heightfield(
            nrows,
            ncols,
            &heights,
            components::MilliVec3 { x: 1_000_000, y: 100_000, z: 1_000_000 },
            body_handle,
            &mut self.bodies,
        ) {
            Ok(h) => h,
            Err(_) => unreached(),
        };
        proof {
            entities::lemma_preserved_through_attach(
                old(self).bodies_spec(),
                old(self).bodies_spec().spec_len(),
                old(self).colliders_spec(),
                self.colliders_spec(),
                bodies_mid,
                self.bodies_spec(),
                collider_handle as nat,
                body_handle as nat,
            );
        }
        let mut collider_list: Vec<usize> = Vec::new();
        collider_list.push(collider_handle);
        self.store.push_entity(
            store::EntityProto {
                name: Some(components::ModelName { name: ['m', 'a', 'p', '0', '0'] }),
                link: Some(
                    components::PhysicsObject {
                        object_type: PhysicsType::Static,
                        rigidbody: body_handle,
                        colliders: collider_list,
                    },
                ),
                player: None,
            },
        );
        proof {
            let nb = self.bodies_spec().spec_len();
            let nc = self.colliders_spec().spec_len();
            let n0 = old(self).store_spec().spec_len() as int;
            assert forall|e: int|
                0 <= e < self.store_spec().spec_len() && (#[trigger] self.store_spec().link_at(
                    e,
                )) is Some implies self.store_spec().link_at(e)->Some_0.in_bounds(nb, nc) && (
            self.store_spec().link_at(e)->Some_0.object_type == PhysicsType::Static
                ==> self.bodies_spec().is_fixed(
                self.store_spec().link_at(e)->Some_0.rigidbody as int,
            )) by {
                if e < n0 {
                    assert(self.store_spec().link_at(e) == old(self).store_spec().link_at(e));
                    assert(old(self).store_spec().link_at(e)->Some_0.in_bounds(
                        old(self).bodies_spec().spec_len(),
                        old(self).colliders_spec().spec_len(),
                    ));
                    if old(self).store_spec().link_at(e)->Some_0.object_type
                        == PhysicsType::Static {
                        assert(old(self).bodies_spec().is_fixed(
                            old(self).store_spec().link_at(e)->Some_0.rigidbody as int,
                        ));
                        assert(self.bodies_spec().raw_handles()[old(self).store_spec().link_at(
                            e,
                        )->Some_0.rigidbody as int] == old(self).bodies_spec().raw_handles()[old(
                            self,
                        ).store_spec().link_at(e)->Some_0.rigidbody as int]);
                    }
                }
            }
            assert forall|e: int|
                0 <= e < self.store_spec().spec_len() && (#[trigger] self.store_spec().player_at(
                    e,
                )) is Some && self.store_spec().link_at(e) is Some implies self.store_spec().link_at(
                e,
            )->Some_0.colliders@.len() >= 1 && self.bodies_spec().is_dynamic(
                self.store_spec().link_at(e)->Some_0.rigidbody as int,
            ) by {
                if e < n0 {
                    assert(self.store_spec().player_at(e) == old(self).store_spec().player_at(e));
                    assert(old(self).store_spec().player_at(e) is Some);
                    assert(old(self).bodies_spec().is_dynamic(
                        old(self).store_spec().link_at(e)->Some_0.rigidbody as int,
                    ));
                    assert(old(self).store_spec().link_at(e)->Some_0.in_bounds(
                        old(self).bodies_spec().spec_len(),
                        old(self).colliders_spec().spec_len(),
                    ));
                    assert(self.bodies_spec().raw_handles()[old(self).store_spec().link_at(
                        e,
                    )->Some_0.rigidbody as int] == old(self).bodies_spec().raw_handles()[old(
                        self,
                    ).store_spec().link_at(e)->Some_0.rigidbody as int]);
                }
            }
            assert forall|i: int|
                0 <= i < self.pending_spec().spec_len() && (#[trigger] self.pending_spec().at(
                    i,
                )).link is Some implies self.pending_spec().at(i).link->Some_0.in_bounds(nb, nc)
                && (self.pending_spec().at(i).link->Some_0.object_type == PhysicsType::Static
                ==> self.bodies_spec().is_fixed(
                self.pending_spec().at(i).link->Some_0.rigidbody as int,
            )) by {
                assert(old(self).pending_spec().at(i).link->Some_0.in_bounds(
                    old(self).bodies_spec().spec_len(),
                    old(self).colliders_spec().spec_len(),
                ));
                if old(self).pending_spec().at(i).link->Some_0.object_type
                    == PhysicsType::Static {
                    assert(old(self).bodies_spec().is_fixed(
                        old(self).pending_spec().at(i).link->Some_0.rigidbody as int,
                    ));
                    assert(self.bodies_spec().raw_handles()[old(self).pending_spec().at(
                        i,
                    ).link->Some_0.rigidbody as int] == old(self).bodies_spec().raw_handles()[old(
                        self,
                    ).pending_spec().at(i).link->Some_0.rigidbody as int]);
                }
            }
            assert forall|i: int|
                0 <= i < self.pending_spec().spec_len() && (#[trigger] self.pending_spec().at(
                    i,
                )).player is Some && self.pending_spec().at(i).link is Some implies self
                .pending_spec().at(i).link->Some_0.colliders@.len() >= 1
                && self.bodies_spec().is_dynamic(
                self.pending_spec().at(i).link->Some_0.rigidbody as int,
            ) by {
                assert(old(self).pending_spec().at(i).link->Some_0.in_bounds(
                    old(self).bodies_spec().spec_len(),
                    old(self).colliders_spec().spec_len(),
                ));
                assert(old(self).bodies_spec().is_dynamic(
                    old(self).pending_spec().at(i).link->Some_0.rigidbody as int,
                ));
                assert(self.bodies_spec().raw_handles()[old(self).pending_spec().at(
                    i,
                ).link->Some_0.rigidbody as int] == old(self).bodies_spec().raw_handles()[old(
                    self,
                ).pending_spec().at(i).link->Some_0.rigidbody as int]);
            }
        }
    }
}

} // verus!

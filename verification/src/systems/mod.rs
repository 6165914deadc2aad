//! The per-tick systems and the fixed, statically ordered pipeline they run
//! in: Control System, then Step System, then the commit of any entity
//! creations deferred during the tick. The ordering guarantees that forces
//! applied by the Control System are visible to the same tick's physics
//! advance, that the grounded state the Control System reads is the previous
//! tick's, and that entities created mid-tick join only from the next tick
//! on.

use vstd::prelude::*;

use crate::GameKeysContainer;
use crate::components::PhysicsType;
use crate::raw;
use crate::components::PlayerCar;
use crate::resources::ColliderContainer;
use crate::resources::PhysicsResource;
use crate::resources::RigidBodyContainer;
use crate::store::EntityStore;
use crate::store::PendingEntities;

pub mod init;
pub mod movement;
pub mod run_physics;

use movement::MovementSystem;
use run_physics::PhysicsSystem;

verus! {

/// The standing invariant of the whole game world: the store's columns line
/// up, every handle any link references — live or pending — resolves in its
/// container, every `Static` link references a body the engine holds as
/// fixed, every vehicle's body is dynamic, and every vehicle has a primary
/// collider.
pub open spec fn world_wf(
    store: EntityStore,
    pending: PendingEntities,
    bodies: RigidBodyContainer,
    colliders: ColliderContainer,
) -> bool {
    &&& store.wf()
    &&& bodies.wf()
    &&& colliders.wf()
    &&& store.links_in_bounds(bodies.spec_len(), colliders.spec_len())
    &&& store.static_links_fixed(bodies)
    &&& store.players_have_primary()
    &&& store.player_bodies_dynamic(bodies)
    &&& pending.links_in_bounds(bodies.spec_len(), colliders.spec_len())
    &&& pending.static_links_fixed(bodies)
    &&& pending.players_have_primary()
    &&& pending.player_bodies_dynamic(bodies)
}

/// One game tick: Control System, Step System, then commit.
///
/// What one tick guarantees, for the entities that existed when it began:
/// names and links are untouched; every entity whose link is `Static` keeps
/// its exact pose, whatever the inputs and contacts did; every entity with
/// both a player tag and a link has its grounded flag fully overwritten with
/// whether its primary collider ended the tick in contact, while every other
/// tag is untouched. Entities recorded in the pending buffer join the store
/// at the end, in order, with their recorded components.
pub fn run_systems(
    store: &mut EntityStore,
    pending: &mut PendingEntities,
    physics: &mut PhysicsResource,
    bodies: &mut RigidBodyContainer,
    colliders: &mut ColliderContainer,
    keys: &GameKeysContainer,
)
    requires
        world_wf(*old(store), *old(pending), *old(bodies), *old(colliders)),
    ensures
        world_wf(*final(store), *final(pending), *final(bodies), *final(colliders)),
        final(pending).spec_len() == 0,
        final(store).spec_len() == old(store).spec_len() + old(pending).spec_len(),
        final(bodies).spec_len() == old(bodies).spec_len(),
        final(bodies).raw_handles() == old(bodies).raw_handles(),
        final(colliders).raw_handles() == old(colliders).raw_handles(),
        final(physics).gravity_spec() == old(physics).gravity_spec(),
        raw::dynamic_handles_of(final(bodies).rapier_set()) == raw::dynamic_handles_of(
            old(bodies).rapier_set(),
        ),
        raw::fixed_handles_of(final(bodies).rapier_set()) == raw::fixed_handles_of(
            old(bodies).rapier_set(),
        ),
        raw::body_mass_bits_of(final(bodies).rapier_set()) == raw::body_mass_bits_of(
            old(bodies).rapier_set(),
        ),
        raw::body_damping_bits_of(final(bodies).rapier_set()) == raw::body_damping_bits_of(
            old(bodies).rapier_set(),
        ),
        raw::collider_shape_bits_of(final(colliders).rapier_set()) == raw::collider_shape_bits_of(
            old(colliders).rapier_set(),
        ),
        raw::collider_parent_of(final(colliders).rapier_set()) == raw::collider_parent_of(
            old(colliders).rapier_set(),
        ),
        forall|e: int|
            0 <= e < old(store).spec_len() && (#[trigger] old(store).link_at(e)) is Some && old(
                store,
            ).link_at(e)->Some_0.object_type == PhysicsType::Static ==> final(bodies).pose_bits(
                old(store).link_at(e)->Some_0.rigidbody as int,
            ) == old(bodies).pose_bits(old(store).link_at(e)->Some_0.rigidbody as int),
        forall|e: int|
            0 <= e < old(store).spec_len() ==> final(store).name_at(e) == old(store).name_at(e)
                && final(store).link_at(e) == old(store).link_at(e),
        forall|e: int|
            0 <= e < old(store).spec_len() ==> final(store).player_at(e) == (
            if old(store).player_at(e) is Some && old(store).link_at(e) is Some {
                Some(
                    PlayerCar {
                        touching_ground: run_physics::derived_grounded(
                            *old(store),
                            e,
                            *final(colliders),
                            *final(physics),
                        ),
                    },
                )
            } else {
                old(store).player_at(e)
            }),
        forall|i: int|
            0 <= i < old(pending).spec_len() ==> {
                let e = old(store).spec_len() + i;
                &&& final(store).name_at(e as int) == (#[trigger] old(pending).at(i)).name
                &&& final(store).link_at(e as int) == old(pending).at(i).link
                &&& final(store).player_at(e as int) == old(pending).at(i).player
            },
{
    proof {
        assert forall|e: int|
            0 <= e < old(store).spec_len() && (#[trigger] old(store).link_at(e)) is Some implies
            old(store).link_at(e)->Some_0.rigidbody < old(bodies).spec_len() by {
            assert(old(store).link_at(e)->Some_0.in_bounds(
                old(bodies).spec_len(),
                old(colliders).spec_len(),
            ));
        }
    }
    let mut control = MovementSystem {};
    control.run(store, bodies, keys);
    let mut stepper = PhysicsSystem {};
    stepper.run(physics, bodies, colliders, store);
    pending.commit(store);
    proof {
        let nb = bodies.spec_len();
        let nc = colliders.spec_len();
        let n0 = old(store).spec_len();
        assert forall|e: int|
            0 <= e < store.spec_len() && (#[trigger] store.link_at(e)) is Some implies
            store.link_at(e)->Some_0.in_bounds(nb, nc) by {
            if e < n0 {
                assert(store.link_at(e) == old(store).link_at(e));
                assert(old(store).link_at(e)->Some_0.in_bounds(nb, nc));
            } else {
                let i = e - n0;
                assert(store.link_at(e) == old(pending).at(i).link);
                assert(old(pending).at(i).link->Some_0.in_bounds(nb, nc));
            }
        }
        assert forall|e: int|
            0 <= e < store.spec_len() && (#[trigger] store.link_at(e)) is Some && store.link_at(
                e,
            )->Some_0.object_type == PhysicsType::Static implies bodies.is_fixed(
                store.link_at(e)->Some_0.rigidbody as int,
            ) by {
            if e < n0 {
                assert(store.link_at(e) == old(store).link_at(e));
                assert(old(bodies).is_fixed(old(store).link_at(e)->Some_0.rigidbody as int));
            } else {
                let i = e - n0;
                assert(store.link_at(e) == old(pending).at(i).link);
                assert(old(bodies).is_fixed(old(pending).at(i).link->Some_0.rigidbody as int));
            }
        }
        assert forall|e: int|
            0 <= e < store.spec_len() && (#[trigger] store.player_at(e)) is Some && store.link_at(
                e,
            ) is Some implies store.link_at(e)->Some_0.colliders@.len() >= 1 by {
            if e < n0 {
                assert(store.link_at(e) == old(store).link_at(e));
                assert(store.player_at(e) is Some ==> old(store).player_at(e) is Some);
                assert(old(store).player_at(e) is Some);
            } else {
                let i = e - n0;
                assert(store.link_at(e) == old(pending).at(i).link);
                assert(store.player_at(e) == old(pending).at(i).player);
            }
        }
        assert forall|e: int|
            0 <= e < store.spec_len() && (#[trigger] store.player_at(e)) is Some && store.link_at(
                e,
            ) is Some implies bodies.is_dynamic(store.link_at(e)->Some_0.rigidbody as int) by {
            if e < n0 {
                assert(store.link_at(e) == old(store).link_at(e));
                assert(store.player_at(e) is Some ==> old(store).player_at(e) is Some);
                assert(old(store).player_at(e) is Some);
                assert(old(bodies).is_dynamic(old(store).link_at(e)->Some_0.rigidbody as int));
                assert(old(store).link_at(e)->Some_0.rigidbody < old(bodies).spec_len());
            } else {
                let i = e - n0;
                assert(store.link_at(e) == old(pending).at(i).link);
                assert(store.player_at(e) == old(pending).at(i).player);
                assert(old(bodies).is_dynamic(old(pending).at(i).link->Some_0.rigidbody as int));
                assert(old(pending).at(i).link->Some_0.in_bounds(nb, nc));
            }
        }
    }
}

} // verus!

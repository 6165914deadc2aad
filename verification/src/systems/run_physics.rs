//! The Step System: advances the physics resource by one fixed step, then
//! re-derives each vehicle's grounded flag from the fresh contact data.

use vstd::prelude::*;
use vstd::pervasive::unreached;

use crate::components::PlayerCar;
use crate::raw;
use crate::resources::ColliderContainer;
use crate::resources::PhysicsResource;
use crate::resources::RigidBodyContainer;
use crate::store::EntityStore;

verus! {

/// The grounded flag the Step System derives for entity `e` of `store`: the
/// entity's primary collider (the first of its link's collider list) has at
/// least one active contact in the narrow phase — actual touching, not mere
/// bounding-volume overlap.
pub open spec fn derived_grounded(
    store: EntityStore,
    e: int,
    colliders: ColliderContainer,
    physics: PhysicsResource,
) -> bool {
    raw::active_contact_colliders_of(physics.narrow_spec()).contains(
        colliders.raw_handles()[store.link_at(e)->Some_0.colliders@[0] as int],
    )
}

/// The Step System.
pub struct PhysicsSystem {}

impl PhysicsSystem {
    /// One step pass: advances the simulation by exactly one fixed timestep,
    /// then, for every entity carrying both a player tag and a link, fully
    /// overwrites its grounded flag with whether its primary collider has at
    /// least one contact pair — no accumulation, no debouncing. Fixed bodies
    /// never move; names, links, and the tags of other entities are
    /// untouched.
    pub fn run(
        &mut self,
        physics: &mut PhysicsResource,
        bodies: &mut RigidBodyContainer,
        colliders: &mut ColliderContainer,
        store: &mut EntityStore,
    )
        requires
            old(store).wf(),
            old(bodies).wf(),
            old(colliders).wf(),
            old(store).links_in_bounds(old(bodies).spec_len(), old(colliders).spec_len()),
            old(store).players_have_primary(),
        ensures
            final(store).wf(),
            final(bodies).wf(),
            final(colliders).wf(),
            final(store).spec_len() == old(store).spec_len(),
            final(bodies).raw_handles() == old(bodies).raw_handles(),
            final(colliders).raw_handles() == old(colliders).raw_handles(),
            raw::body_handles_of(final(bodies).rapier_set()) == raw::body_handles_of(
                old(bodies).rapier_set(),
            ),
            raw::fixed_handles_of(final(bodies).rapier_set()) == raw::fixed_handles_of(
                old(bodies).rapier_set(),
            ),
            raw::dynamic_handles_of(final(bodies).rapier_set()) == raw::dynamic_handles_of(
                old(bodies).rapier_set(),
            ),
            raw::body_mass_bits_of(final(bodies).rapier_set()) == raw::body_mass_bits_of(
                old(bodies).rapier_set(),
            ),
            raw::body_damping_bits_of(final(bodies).rapier_set()) == raw::body_damping_bits_of(
                old(bodies).rapier_set(),
            ),
            raw::collider_handles_of(final(colliders).rapier_set()) == raw::collider_handles_of(
                old(colliders).rapier_set(),
            ),
            raw::collider_shape_bits_of(final(colliders).rapier_set())
                == raw::collider_shape_bits_of(old(colliders).rapier_set()),
            raw::collider_parent_of(final(colliders).rapier_set()) == raw::collider_parent_of(
                old(colliders).rapier_set(),
            ),
            final(physics).gravity_spec() == old(physics).gravity_spec(),
            forall|i: int|
                0 <= i < old(bodies).spec_len() && old(bodies).is_fixed(i)
                    ==> final(bodies).pose_bits(i) == old(bodies).pose_bits(i),
            forall|e: int|
                0 <= e < old(store).spec_len() ==> final(store).name_at(e) == old(store).name_at(
                    e,
                ) && final(store).link_at(e) == old(store).link_at(e),
            forall|e: int|
                0 <= e < old(store).spec_len() ==> final(store).player_at(e) == (
                if old(store).player_at(e) is Some && old(store).link_at(e) is Some {
                    Some(
                        PlayerCar {
                            touching_ground: derived_grounded(
                                *old(store),
                                e,
                                *final(colliders),
                                *final(physics),
                            ),
                        },
                    )
                } else {
                    old(store).player_at(e)
                }),
    {
        physics.step(bodies, colliders);
        let n = store.len();
        let mut e: usize = 0;
        while e < n
            invariant
                store.wf(),
                n == store.spec_len(),
                n == old(store).spec_len(),
                0 <= e <= n,
                colliders.wf(),
                old(store).links_in_bounds(old(bodies).spec_len(), old(colliders).spec_len()),
                old(store).players_have_primary(),
                colliders.spec_len() == old(colliders).spec_len(),
                forall|i: int|
                    0 <= i < n ==> store.name_at(i) == old(store).name_at(i) && store.link_at(i)
                        == old(store).link_at(i),
                forall|i: int|
                    e <= i < n ==> store.player_at(i) == old(store).player_at(i),
                forall|i: int|
                    0 <= i < e ==> store.player_at(i) == (
                    if old(store).player_at(i) is Some && old(store).link_at(i) is Some {
                        Some(
                            PlayerCar {
                                touching_ground: derived_grounded(
                                    *old(store),
                                    i,
                                    *colliders,
                                    *physics,
                                ),
                            },
                        )
                    } else {
                        old(store).player_at(i)
                    }),
            decreases n - e,
        {
            let has_player = store.player(e).is_some();
            let has_link = store.link(e).is_some();
            if has_player && has_link {
                proof {
                    assert(store.player_at(e as int) == old(store).player_at(e as int));
                    assert(store.link_at(e as int) == old(store).link_at(e as int));
                    assert(old(store).player_at(e as int) is Some);
                    assert(old(store).link_at(e as int) is Some);
                }
                let primary: usize = match store.link(e) {
                    Some(l) => {
                        assert(l.colliders@.len() >= 1);
                        l.colliders[0]
                    },
                    None => unreached(),
                };
                let touching = physics.collider_touches_anything(colliders, primary);
                store.set_player(e, PlayerCar { touching_ground: touching });
            }
            e = e + 1;
        }
    }
}

} // verus!

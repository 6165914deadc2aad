//! The Control System: converts the tick's input flags into forces and
//! torques on grounded player vehicles.
//!
//! Policy for simultaneous opposite inputs (the flags are independent
//! booleans): the later flag in source order wins outright — brake overrides
//! accelerate, steering right overrides steering left. Neither pair is ever
//! summed.

use vstd::prelude::*;
use vstd::pervasive::unreached;

use crate::GameKeys;
use crate::GameKeysContainer;
use crate::components::MilliVec3;
use crate::raw;
use crate::resources::RigidBodyContainer;
use crate::store::EntityStore;

verus! {

/// Forward impulse while accelerating: 320 units.
pub const FORWARD_IMPULSE_MILLI: i64 = 320_000;

/// Reverse impulse while braking: 120 units, applied backwards.
pub const REVERSE_IMPULSE_MILLI: i64 = 120_000;

/// Steering torque impulse about the vertical axis: 630 units.
pub const STEER_TORQUE_MILLI: i64 = 630_000;

/// Traction decay: the fraction (out of 1000) of its linear velocity a
/// grounded vehicle keeps each tick, 0.97.
pub const TRACTION_FACTOR_MILLI: i64 = 970;

/// The forward impulse one tick's throttle flags produce, along the
/// vehicle's local forward axis. Brake, if set, supersedes accelerate.
pub open spec fn throttle_impulse_milli(accelerate: bool, brake: bool) -> int {
    if brake {
        -(REVERSE_IMPULSE_MILLI as int)
    } else if accelerate {
        FORWARD_IMPULSE_MILLI as int
    } else {
        0
    }
}

/// The torque impulse one tick's steering flags produce, about the vertical
/// axis: positive steers left, negative right. Right, if set, supersedes
/// left.
pub open spec fn steer_torque_milli(left: bool, right: bool) -> int {
    if right {
        -(STEER_TORQUE_MILLI as int)
    } else if left {
        STEER_TORQUE_MILLI as int
    } else {
        0
    }
}

/// This tick's forward impulse vector, along the vehicle's local forward
/// (+x) axis, for the given flags.
pub open spec fn controls_impulse(keys: GameKeysContainer) -> MilliVec3 {
    MilliVec3 {
        x: throttle_impulse_milli(keys.view_spec()[0], keys.view_spec()[1]) as i64,
        y: 0i64,
        z: 0i64,
    }
}

/// This tick's steering torque impulse vector, about the vertical (+y)
/// axis, for the given flags.
pub open spec fn controls_torque(keys: GameKeysContainer) -> MilliVec3 {
    MilliVec3 {
        x: 0i64,
        y: steer_torque_milli(keys.view_spec()[2], keys.view_spec()[3]) as i64,
        z: 0i64,
    }
}

/// Entity `e` is a vehicle the Control System acts on this tick: it carries
/// both a link and a player tag, and is grounded.
pub open spec fn grounded_vehicle(store: EntityStore, e: int) -> bool {
    &&& store.player_at(e) is Some
    &&& store.link_at(e) is Some
    &&& store.player_at(e)->Some_0.touching_ground
}

/// No entity carries both a link and a player tag whose grounded flag is
/// set: every vehicle is airborne.
pub open spec fn all_players_airborne(store: EntityStore) -> bool {
    forall|e: int|
        0 <= e < store.spec_len() && (#[trigger] store.player_at(e)) is Some && store.link_at(
            e,
        ) is Some ==> !store.player_at(e)->Some_0.touching_ground
}

/// No two entities that both carry a link and a player tag share a body.
pub open spec fn vehicle_bodies_distinct(store: EntityStore) -> bool {
    forall|e1: int, e2: int|
        0 <= e1 < store.spec_len() && 0 <= e2 < store.spec_len() && e1 != e2
            && (#[trigger] store.player_at(e1)) is Some && store.link_at(e1) is Some
            && (#[trigger] store.player_at(e2)) is Some && store.link_at(e2) is Some
            ==> store.link_at(e1)->Some_0.rigidbody != store.link_at(e2)->Some_0.rigidbody
}

/// The velocity a grounded vehicle's body ends the control pass with, from
/// the modeled state it began it with: first the traction scaling of its
/// linear velocity, then this tick's forward impulse rotated into world
/// space by its orientation, then this tick's steering torque impulse.
pub open spec fn controlled_velocity(
    bodies: RigidBodyContainer,
    b: int,
    keys: GameKeysContainer,
) -> Seq<u32> {
    raw::torque_velocity_of(
        raw::impulse_velocity_of(
            raw::scaled_linvel_of(bodies.velocity_bits(b), TRACTION_FACTOR_MILLI),
            bodies.rotation_bits(b),
            bodies.mass_bits(b),
            controls_impulse(keys),
        ),
        bodies.rotation_bits(b),
        bodies.mass_bits(b),
        controls_torque(keys),
    )
}

/// With no throttle or steering input, the Control System contributes no
/// impulse and no torque: only the traction decay acts on a grounded
/// vehicle, and the decay factor never exceeds one, so it never speeds the
/// vehicle up.
pub proof fn lemma_coasting_applies_no_force()
    ensures
        throttle_impulse_milli(false, false) == 0,
        steer_torque_milli(false, false) == 0,
        0 <= TRACTION_FACTOR_MILLI <= 1000,
{
}

/// Turns the four input flags into this tick's forward impulse (along the
/// vehicle's local forward axis) and steering torque impulse.
pub fn decide_controls(keys: &GameKeysContainer) -> (r: (MilliVec3, MilliVec3))
    ensures
        r.0 == controls_impulse(*keys),
        r.1 == controls_torque(*keys),
{
    let mut forward: i64 = 0;
    let mut torque: i64 = 0;
    if keys.get(GameKeys::Acceleration.index()) {
        forward = FORWARD_IMPULSE_MILLI;
    }
    if keys.get(GameKeys::Brakes.index()) {
        forward = -REVERSE_IMPULSE_MILLI;
    }
    if keys.get(GameKeys::Left.index()) {
        torque = STEER_TORQUE_MILLI;
    }
    if keys.get(GameKeys::Right.index()) {
        torque = -STEER_TORQUE_MILLI;
    }
    (MilliVec3 { x: forward, y: 0, z: 0 }, MilliVec3 { x: 0, y: torque, z: 0 })
}

/// The Control System.
pub struct MovementSystem {}

impl MovementSystem {
    /// One control pass. For every entity carrying both a link and a player
    /// tag: when grounded, applies the traction decay (always, input or
    /// not), then this tick's forward impulse rotated into world space, then
    /// its steering torque impulse — so, when no two vehicles share a body,
    /// each grounded vehicle's body ends the pass with exactly
    /// `controlled_velocity` of its starting state; when airborne, touches
    /// nothing, whatever the flags — so if every vehicle is airborne the
    /// whole physics state is left exactly as it was. The body of every
    /// entity that is no grounded vehicle keeps its exact velocity.
    ///
    /// Forces change only velocities: every body keeps its handle, its kind,
    /// its pose, its orientation, its mass and its damping.
    pub fn run(
        &mut self,
        store: &EntityStore,
        bodies: &mut RigidBodyContainer,
        keys: &GameKeysContainer,
    )
        requires
            store.wf(),
            old(bodies).wf(),
            store.links_body_bound(old(bodies).spec_len()),
            store.player_bodies_dynamic(*old(bodies)),
        ensures
            final(bodies).wf(),
            final(bodies).raw_handles() == old(bodies).raw_handles(),
            raw::body_handles_of(final(bodies).rapier_set()) == raw::body_handles_of(
                old(bodies).rapier_set(),
            ),
            raw::fixed_handles_of(final(bodies).rapier_set()) == raw::fixed_handles_of(
                old(bodies).rapier_set(),
            ),
            raw::dynamic_handles_of(final(bodies).rapier_set()) == raw::dynamic_handles_of(
                old(bodies).rapier_set(),
            ),
            raw::body_pose_bits_of(final(bodies).rapier_set()) == raw::body_pose_bits_of(
                old(bodies).rapier_set(),
            ),
            raw::body_rotation_bits_of(final(bodies).rapier_set()) == raw::body_rotation_bits_of(
                old(bodies).rapier_set(),
            ),
            raw::body_mass_bits_of(final(bodies).rapier_set()) == raw::body_mass_bits_of(
                old(bodies).rapier_set(),
            ),
            raw::body_damping_bits_of(final(bodies).rapier_set()) == raw::body_damping_bits_of(
                old(bodies).rapier_set(),
            ),
            forall|i: int|
                0 <= i < old(bodies).spec_len() && (forall|e: int|
                    0 <= e < store.spec_len() && grounded_vehicle(*store, e)
                        ==> store.link_at(e)->Some_0.rigidbody != i)
                    ==> #[trigger] final(bodies).velocity_bits(i) == old(bodies).velocity_bits(i),
            vehicle_bodies_distinct(*store) ==> forall|e: int|
                0 <= e < store.spec_len() && #[trigger] grounded_vehicle(*store, e)
                    ==> final(bodies).velocity_bits(store.link_at(e)->Some_0.rigidbody as int)
                    == controlled_velocity(
                    *old(bodies),
                    store.link_at(e)->Some_0.rigidbody as int,
                    *keys,
                ),
            all_players_airborne(*store) ==> final(bodies).rapier_set() == old(
                bodies,
            ).rapier_set(),
    {
        let n = store.len();
        let mut e: usize = 0;
        while e < n
            invariant
                store.wf(),
                n == store.spec_len(),
                0 <= e <= n,
                bodies.wf(),
                store.links_body_bound(old(bodies).spec_len()),
                store.player_bodies_dynamic(*old(bodies)),
                bodies.raw_handles() == old(bodies).raw_handles(),
                raw::body_handles_of(bodies.rapier_set()) == raw::body_handles_of(
                    old(bodies).rapier_set(),
                ),
                raw::fixed_handles_of(bodies.rapier_set()) == raw::fixed_handles_of(
                    old(bodies).rapier_set(),
                ),
                raw::dynamic_handles_of(bodies.rapier_set()) == raw::dynamic_handles_of(
                    old(bodies).rapier_set(),
                ),
                raw::body_pose_bits_of(bodies.rapier_set()) == raw::body_pose_bits_of(
                    old(bodies).rapier_set(),
                ),
                raw::body_rotation_bits_of(bodies.rapier_set()) == raw::body_rotation_bits_of(
                    old(bodies).rapier_set(),
                ),
                raw::body_mass_bits_of(bodies.rapier_set()) == raw::body_mass_bits_of(
                    old(bodies).rapier_set(),
                ),
                raw::body_damping_bits_of(bodies.rapier_set()) == raw::body_damping_bits_of(
                    old(bodies).rapier_set(),
                ),
                forall|i: int|
                    0 <= i < old(bodies).spec_len() && (forall|j: int|
                        0 <= j < e && grounded_vehicle(*store, j)
                            ==> store.link_at(j)->Some_0.rigidbody != i)
                        ==> #[trigger] bodies.velocity_bits(i) == old(bodies).velocity_bits(i),
                vehicle_bodies_distinct(*store) ==> forall|j: int|
                    0 <= j < e && #[trigger] grounded_vehicle(*store, j)
                        ==> bodies.velocity_bits(store.link_at(j)->Some_0.rigidbody as int)
                        == controlled_velocity(
                        *old(bodies),
                        store.link_at(j)->Some_0.rigidbody as int,
                        *keys,
                    ),
                all_players_airborne(*store) ==> bodies.rapier_set() == old(bodies).rapier_set(),
            decreases n - e,
        {
            let is_grounded_player: bool = match (store.link(e), store.player(e)) {
                (Some(_), Some(p)) => p.touching_ground,
                _ => false,
            };
            if is_grounded_player {
                let link = match store.link(e) {
                    Some(l) => l,
                    None => unreached(),
                };
                let body_handle = link.rigidbody;
                let ghost at_entry = *bodies;
                proof {
                    assert(grounded_vehicle(*store, e as int));
                    assert(store.player_at(e as int) is Some);
                    assert(old(bodies).is_dynamic(body_handle as int));
                    assert(bodies.is_dynamic(body_handle as int));
                }
                let (impulse, torque) = decide_controls(keys);
                bodies.scale_linear_velocity(body_handle, TRACTION_FACTOR_MILLI);
                bodies.apply_local_impulse(body_handle, impulse);
                bodies.apply_torque_impulse(body_handle, torque);
                proof {
                    let bh = body_handle as int;
                    if vehicle_bodies_distinct(*store) {
                        assert forall|j: int|
                            0 <= j < e && #[trigger] grounded_vehicle(*store, j) implies store
                            .link_at(j)->Some_0.rigidbody != bh by {
                            assert(store.player_at(j) is Some && store.player_at(
                                e as int,
                            ) is Some);
                        }
                        assert(at_entry.velocity_bits(bh) == old(bodies).velocity_bits(bh));
                        assert(bodies.velocity_bits(bh) == controlled_velocity(
                            *old(bodies),
                            bh,
                            *keys,
                        ));
                        assert forall|j: int|
                            0 <= j < e + 1 && #[trigger] grounded_vehicle(*store, j) implies bodies
                            .velocity_bits(store.link_at(j)->Some_0.rigidbody as int)
                            == controlled_velocity(
                            *old(bodies),
                            store.link_at(j)->Some_0.rigidbody as int,
                            *keys,
                        ) by {
                            if j < e {
                                let bj = store.link_at(j)->Some_0.rigidbody as int;
                                assert(bj != bh);
                                assert(at_entry.velocity_bits(bj) == controlled_velocity(
                                    *old(bodies),
                                    bj,
                                    *keys,
                                ));
                                assert(bodies.velocity_bits(bj) == at_entry.velocity_bits(bj));
                            }
                        }
                    }
                    assert forall|i: int|
                        0 <= i < old(bodies).spec_len() && (forall|j: int|
                            0 <= j < e + 1 && grounded_vehicle(*store, j)
                                ==> store.link_at(j)->Some_0.rigidbody != i) implies #[trigger]
                    bodies.velocity_bits(i) == old(bodies).velocity_bits(i) by {
                        assert(grounded_vehicle(*store, e as int));
                        assert(store.link_at(e as int)->Some_0.rigidbody != i);
                        assert(forall|j: int|
                            0 <= j < e && grounded_vehicle(*store, j)
                                ==> store.link_at(j)->Some_0.rigidbody != i);
                        assert(at_entry.velocity_bits(i) == old(bodies).velocity_bits(i));
                        assert(i != bh);
                        assert(bodies.velocity_bits(i) == at_entry.velocity_bits(i));
                    }
                    assert(!all_players_airborne(*store)) by {
                        assert(0 <= e < store.spec_len() && store.player_at(e as int) is Some
                            && store.link_at(e as int) is Some && store.player_at(
                            e as int,
                        )->Some_0.touching_ground);
                    }
                }
            }
            e = e + 1;
        }
    }
}

} // verus!

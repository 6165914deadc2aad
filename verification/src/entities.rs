//! The spawner: builds the course geometry and the player vehicle.
//!
//! Every operation keeps the insert-before-link discipline: the backing body
//! and colliders go into the handle containers first, and only then is the
//! entity recorded, referencing the returned handles — so no link ever holds
//! a dangling handle. Each operation's contract pins what was handed to the
//! engine: the body's kind and decoded position, its rest state, and the
//! attached collider's shape, material and parent.
//!
//! All tuning constants are in integer thousandths (milli units).

use vstd::prelude::*;
use vstd::pervasive::unreached;

use crate::components::MilliVec3;
use crate::components::ModelName;
use crate::components::PhysicsObject;
use crate::components::PhysicsType;
use crate::components::PlayerCar;
use crate::raw;
use crate::resources::ColliderContainer;
use crate::resources::PhysicsError;
use crate::resources::RigidBodyContainer;
use crate::store::EntityProto;
use crate::store::PendingEntities;

verus! {

/// Additional mass of the vehicle body: 120 units.
pub const PLAYER_MASS_MILLI: i64 = 120_000;

/// Linear damping of the vehicle body: 1.0.
pub const PLAYER_LINEAR_DAMPING_MILLI: i64 = 1_000;

/// Angular damping of the vehicle body: 0.2.
pub const PLAYER_ANGULAR_DAMPING_MILLI: i64 = 200;

/// Restitution of the vehicle's box collider: 0.2.
pub const PLAYER_RESTITUTION_MILLI: i64 = 200;

/// Friction of the floor's box collider: 1.0.
pub const FLOOR_FRICTION_MILLI: i64 = 1_000;

/// The engine's default friction, 0.5, for colliders whose friction the
/// course does not tune.
pub const DEFAULT_FRICTION_MILLI: i64 = 500;

/// The engine's default restitution, 0, for colliders whose restitution the
/// course does not tune.
pub const DEFAULT_RESTITUTION_MILLI: i64 = 0;

/// The vehicle's box collider half-extents: 4 x 1 x 2 units.
pub open spec fn player_half_extents_milli() -> MilliVec3 {
    MilliVec3 { x: 4000i64, y: 1000i64, z: 2000i64 }
}

/// The floor's box collider half-extents: 100 x 0.1 x 100 units.
pub open spec fn floor_half_extents_milli() -> MilliVec3 {
    MilliVec3 { x: 100_000i64, y: 100i64, z: 100_000i64 }
}

/// The world-space scale of every heightfield terrain: (1000, 100, 1000)
/// units, applied uniformly regardless of sample count.
pub open spec fn terrain_scale_milli() -> MilliVec3 {
    MilliVec3 { x: 1_000_000i64, y: 100_000i64, z: 1_000_000i64 }
}

/// The default terrain's 5 x 5 elevation samples in column-major order:
/// every column reads (0, 0, 0, 1, 1) units from its first to its last row —
/// three flat rows, then two raised by one unit.
pub open spec fn ground_heights_spec() -> Seq<i64> {
    seq![
        0i64, 0i64, 0i64, 1000i64, 1000i64,
        0i64, 0i64, 0i64, 1000i64, 1000i64,
        0i64, 0i64, 0i64, 1000i64, 1000i64,
        0i64, 0i64, 0i64, 1000i64, 1000i64,
        0i64, 0i64, 0i64, 1000i64, 1000i64,
    ]
}

/// The fixed 6-point wedge profile of a ramp: 4 base corners and 2 raised
/// corners, in milli units.
pub open spec fn ramp_profile_spec() -> Seq<MilliVec3> {
    seq![
        MilliVec3 { x: 5000i64, y: 0i64, z: 6000i64 },
        MilliVec3 { x: -5000i64, y: 0i64, z: 6000i64 },
        MilliVec3 { x: 5000i64, y: 0i64, z: -6000i64 },
        MilliVec3 { x: -5000i64, y: 0i64, z: -6000i64 },
        MilliVec3 { x: 5000i64, y: 5000i64, z: 6000i64 },
        MilliVec3 { x: -5000i64, y: 5000i64, z: 6000i64 },
    ]
}

/// The ramp profile as a vector, for callers and tests.
pub fn ramp_profile_points() -> (v: Vec<MilliVec3>)
    ensures
        v@ =~= ramp_profile_spec(),
{
    let mut v: Vec<MilliVec3> = Vec::new();
    v.push(MilliVec3 { x: 5000, y: 0, z: 6000 });
    v.push(MilliVec3 { x: -5000, y: 0, z: 6000 });
    v.push(MilliVec3 { x: 5000, y: 0, z: -6000 });
    v.push(MilliVec3 { x: -5000, y: 0, z: -6000 });
    v.push(MilliVec3 { x: 5000, y: 5000, z: 6000 });
    v.push(MilliVec3 { x: -5000, y: 5000, z: 6000 });
    v
}

/// What a spawner operation did: one new body of the given kind, at rest,
/// whose translation decodes `pos`, at handle `old(bodies).spec_len()`; one
/// new collider with the given shape description attached to that body, at
/// handle `old(colliders).spec_len()`; one proto appended to `pending`
/// referencing exactly those handles; everything that existed before, in
/// either container or the buffer, untouched.
pub open spec fn spawned_one_entity(
    pending_old: PendingEntities,
    pending_new: PendingEntities,
    bodies_old: RigidBodyContainer,
    bodies_new: RigidBodyContainer,
    colliders_old: ColliderContainer,
    colliders_new: ColliderContainer,
    name: Seq<char>,
    kind: PhysicsType,
    player: Option<PlayerCar>,
    pos: MilliVec3,
    shape: Seq<u32>,
) -> bool {
    &&& pending_new.spec_len() == pending_old.spec_len() + 1
    &&& (forall|i: int|
        0 <= i < pending_old.spec_len() ==> pending_new.at(i) == pending_old.at(i))
    &&& {
        let p = pending_new.at(pending_old.spec_len() as int);
        &&& p.name matches Some(n) && n.name@ =~= name
        &&& p.player == player
        &&& p.link matches Some(l) && l.object_type == kind && l.rigidbody
            == bodies_old.spec_len() && l.colliders@ =~= seq![colliders_old.spec_len() as usize]
    }
    &&& bodies_new.wf()
    &&& bodies_new.spec_len() == bodies_old.spec_len() + 1
    &&& bodies_old.bodies_preserved(bodies_new, bodies_old.spec_len())
    &&& (kind == PhysicsType::Static ==> bodies_new.is_fixed(bodies_old.spec_len() as int)
        && !bodies_new.is_dynamic(bodies_old.spec_len() as int))
    &&& (kind == PhysicsType::Dynamic ==> !bodies_new.is_fixed(bodies_old.spec_len() as int)
        && bodies_new.is_dynamic(bodies_old.spec_len() as int))
    &&& bodies_new.pose_bits(bodies_old.spec_len() as int).subrange(0, 3)
        == raw::translation_bits_of(pos)
    &&& bodies_new.velocity_bits(bodies_old.spec_len() as int) == raw::zero_velocity_bits()
    &&& colliders_new.wf()
    &&& colliders_new.spec_len() == colliders_old.spec_len() + 1
    &&& colliders_old.colliders_preserved(colliders_new, colliders_old.spec_len())
    &&& colliders_new.shape_bits(colliders_old.spec_len() as int) == shape
    &&& colliders_new.parent_raw(colliders_old.spec_len() as int)
        == bodies_new.raw_handles()[bodies_old.spec_len() as int]
}

/// Preservation composes: inserting a body keeps everything below the old
/// length, and attaching a collider to the new body keeps every old body's
/// modeled state too.
pub proof fn lemma_preserved_through_attach(
    b0: RigidBodyContainer,
    n: nat,
    c_old: ColliderContainer,
    c_new: ColliderContainer,
    b_mid: RigidBodyContainer,
    b1: RigidBodyContainer,
    h: nat,
    parent: nat,
)
    requires
        b0.bodies_preserved(b_mid, n),
        n <= parent,
        parent < b_mid.spec_len(),
        c_old.attached_one(c_new, b_mid, b1, h, parent),
    ensures
        b0.bodies_preserved(b1, n),
{
    assert forall|i: int| 0 <= i < n implies #[trigger] b1.raw_handles()[i] == b0.raw_handles()[i]
        && b1.is_fixed(i) == b0.is_fixed(i) && b1.is_dynamic(i) == b0.is_dynamic(i)
        && b1.pose_bits(i) == b0.pose_bits(i) && b1.velocity_bits(i) == b0.velocity_bits(i)
        && b1.rotation_bits(i) == b0.rotation_bits(i) && b1.mass_bits(i) == b0.mass_bits(i)
        && b1.damping_bits(i) == b0.damping_bits(i) by {
        assert(b_mid.raw_handles()[i] == b0.raw_handles()[i]);
        assert(b_mid.mass_bits(i) == b0.mass_bits(i));
        assert(b1.mass_bits(i) == b_mid.mass_bits(i));
    }
}

/// Spawns the player vehicle: a dynamic body at rest at `pos` with
/// additional mass 120 and linear/angular damping 1.0/0.2, one 4 x 1 x 2 box
/// collider with restitution 0.2 attached to it, and an entity named `car00`
/// carrying a `PlayerCar` that starts airborne (`touching_ground == false`).
pub fn create_player(
    pending: &mut PendingEntities,
    pos: MilliVec3,
    bodies: &mut RigidBodyContainer,
    colliders: &mut ColliderContainer,
)
    requires
        old(bodies).wf(),
        old(colliders).wf(),
    ensures
        spawned_one_entity(
            *old(pending),
            *final(pending),
            *old(bodies),
            *final(bodies),
            *old(colliders),
            *final(colliders),
            seq!['c', 'a', 'r', '0', '0'],
            PhysicsType::Dynamic,
            Some(PlayerCar { touching_ground: false }),
            pos,
            raw::cuboid_shape_bits(
                player_half_extents_milli(),
                DEFAULT_FRICTION_MILLI,
                PLAYER_RESTITUTION_MILLI,
            ),
        ),
        final(bodies).damping_bits(old(bodies).spec_len() as int) == raw::damping_bits_of_milli(
            PLAYER_LINEAR_DAMPING_MILLI,
            PLAYER_ANGULAR_DAMPING_MILLI,
        ),
        final(bodies).mass_bits(old(bodies).spec_len() as int) == raw::attached_mass_bits(
            raw::additional_mass_bits(PLAYER_MASS_MILLI),
            raw::cuboid_shape_bits(
                player_half_extents_milli(),
                DEFAULT_FRICTION_MILLI,
                PLAYER_RESTITUTION_MILLI,
            ),
        ),
{
    let body_handle = bodies.insert_dynamic_body(
        pos,
        PLAYER_MASS_MILLI,
        PLAYER_LINEAR_DAMPING_MILLI,
        PLAYER_ANGULAR_DAMPING_MILLI,
    );
    let ghost bodies_mid = *bodies;
    let collider_handle = match colliders.insert_cuboid(
        MilliVec3 { x: 4000, y: 1000, z: 2000 },
        DEFAULT_FRICTION_MILLI,
        PLAYER_RESTITUTION_MILLI,
        body_handle,
        bodies,
    ) {
        Ok(h) => h,
        Err(_) => unreached(),
    };
    proof {
        lemma_preserved_through_attach(
            *old(bodies),
            old(bodies).spec_len(),
            *old(colliders),
            *colliders,
            bodies_mid,
            *bodies,
            collider_handle as nat,
            body_handle as nat,
        );
    }
    let mut collider_list: Vec<usize> = Vec::new();
    collider_list.push(collider_handle);
    pending.push(
        EntityProto {
            name: Some(ModelName { name: ['c', 'a', 'r', '0', '0'] }),
            link: Some(
                PhysicsObject {
                    object_type: PhysicsType::Dynamic,
                    rigidbody: body_handle,
                    colliders: collider_list,
                },
            ),
            player: Some(PlayerCar { touching_ground: false }),
        },
    );
}

/// Spawns the floor: a fixed body at `pos` with one 100 x 0.1 x 100 box
/// collider of friction 1.0 attached, and an entity named `floor`.
pub fn create_floor(
    pending: &mut PendingEntities,
    pos: MilliVec3,
    bodies: &mut RigidBodyContainer,
    colliders: &mut ColliderContainer,
)
    requires
        old(bodies).wf(),
        old(colliders).wf(),
    ensures
        spawned_one_entity(
            *old(pending),
            *final(pending),
            *old(bodies),
            *final(bodies),
            *old(colliders),
            *final(colliders),
            seq!['f', 'l', 'o', 'o', 'r'],
            PhysicsType::Static,
            None::<PlayerCar>,
            pos,
            raw::cuboid_shape_bits(
                floor_half_extents_milli(),
                FLOOR_FRICTION_MILLI,
                DEFAULT_RESTITUTION_MILLI,
            ),
        ),
{
    let body_handle = bodies.insert_fixed_body(pos, MilliVec3 { x: 0, y: 0, z: 0 });
    let ghost bodies_mid = *bodies;
    let collider_handle = match colliders.insert_cuboid(
        MilliVec3 { x: 100_000, y: 100, z: 100_000 },
        FLOOR_FRICTION_MILLI,
        DEFAULT_RESTITUTION_MILLI,
        body_handle,
        bodies,
    ) {
        Ok(h) => h,
        Err(_) => unreached(),
    };
    proof {
        lemma_preserved_through_attach(
            *old(bodies),
            old(bodies).spec_len(),
            *old(colliders),
            *colliders,
            bodies_mid,
            *bodies,
            collider_handle as nat,
            body_handle as nat,
        );
    }
    let mut collider_list: Vec<usize> = Vec::new();
    collider_list.push(collider_handle);
    pending.push(
        EntityProto {
            name: Some(ModelName { name: ['f', 'l', 'o', 'o', 'r'] }),
            link: Some(
                PhysicsObject {
                    object_type: PhysicsType::Static,
                    rigidbody: body_handle,
                    colliders: collider_list,
                },
            ),
            player: None,
        },
    );
}

/// Spawns a ramp: a fixed body at `pos` with orientation `rot`, one
/// convex-hull collider over the fixed 6-point wedge profile attached, and
/// an entity named `ramp0`. The documented profile admits a hull, so the
/// operation always succeeds; the `Result` carries the construction-error
/// taxonomy for callers that treat spawning uniformly.
pub fn create_ramp(
    pending: &mut PendingEntities,
    pos: MilliVec3,
    rot: MilliVec3,
    bodies: &mut RigidBodyContainer,
    colliders: &mut ColliderContainer,
) -> (r: Result<(), PhysicsError>)
    requires
        old(bodies).wf(),
        old(colliders).wf(),
    ensures
        r is Ok,
        spawned_one_entity(
            *old(pending),
            *final(pending),
            *old(bodies),
            *final(bodies),
            *old(colliders),
            *final(colliders),
            seq!['r', 'a', 'm', 'p', '0'],
            PhysicsType::Static,
            None::<PlayerCar>,
            pos,
            raw::hull_shape_bits(ramp_profile_spec()),
        ),
{
    let points = ramp_profile_points();
    let body_handle = bodies.insert_fixed_body(pos, rot);
    let ghost bodies_mid = *bodies;
    let collider_handle = match colliders.insert_hull(&points, body_handle, bodies) {
        Ok(h) => h,
        Err(_) => unreached(),
    };
    proof {
        lemma_preserved_through_attach(
            *old(bodies),
            old(bodies).spec_len(),
            *old(colliders),
            *colliders,
            bodies_mid,
            *bodies,
            collider_handle as nat,
            body_handle as nat,
        );
    }
    let mut collider_list: Vec<usize> = Vec::new();
    collider_list.push(collider_handle);
    pending.push(
        EntityProto {
            name: Some(ModelName { name: ['r', 'a', 'm', 'p', '0'] }),
            link: Some(
                PhysicsObject {
                    object_type: PhysicsType::Static,
                    rigidbody: body_handle,
                    colliders: collider_list,
                },
            ),
            player: None,
        },
    );
    Ok(())
}

/// Spawns the default terrain: a fixed body at the origin with one
/// heightfield collider over the fixed 5 x 5 grid (three flat rows, two
/// raised by one unit) at the standard terrain scale attached, and an entity
/// named `map00`.
pub fn create_ground_mesh(
    pending: &mut PendingEntities,
    bodies: &mut RigidBodyContainer,
    colliders: &mut ColliderContainer,
)
    requires
        old(bodies).wf(),
        old(colliders).wf(),
    ensures
        spawned_one_entity(
            *old(pending),
            *final(pending),
            *old(bodies),
            *final(bodies),
            *old(colliders),
            *final(colliders),
            seq!['m', 'a', 'p', '0', '0'],
            PhysicsType::Static,
            None::<PlayerCar>,
            MilliVec3 { x: 0i64, y: 0i64, z: 0i64 },
            raw::heightfield_shape_bits(5, 5, ground_heights_spec(), terrain_scale_milli()),
        ),
{
    let mut heights: Vec<i64> = Vec::new();
    let mut j: usize = 0;
    while j < 5
        invariant
            0 <= j <= 5,
            heights@ =~= ground_heights_spec().take(5 * j),
        decreases 5 - j,
    {
        heights.push(0);
        heights.push(0);
        heights.push(0);
        heights.push(1000);
        heights.push(1000);
        proof {
            assert(heights@ =~= ground_heights_spec().take(5 * (j + 1)));
        }
        j = j + 1;
    }
    proof {
        assert(heights@ =~= ground_heights_spec());
    }
    let body_handle = bodies.insert_fixed_body(
        MilliVec3 { x: 0, y: 0, z: 0 },
        MilliVec3 { x: 0, y: 0, z: 0 },
    );
    let ghost bodies_mid = *bodies;
    let collider_handle = match colliders.insert_heightfield(
        5,
        5,
        &heights,
        MilliVec3 { x: 1_000_000, y: 100_000, z: 1_000_000 },
        body_handle,
        bodies,
    ) {
        Ok(h) => h,
        Err(_) => unreached(),
    };
    proof {
        lemma_preserved_through_attach(
            *old(bodies),
            old(bodies).spec_len(),
            *old(colliders),
            *colliders,
            bodies_mid,
            *bodies,
            collider_handle as nat,
            body_handle as nat,
        );
    }
    let mut collider_list: Vec<usize> = Vec::new();
    collider_list.push(collider_handle);
    pending.push(
        EntityProto {
            name: Some(ModelName { name: ['m', 'a', 'p', '0', '0'] }),
            link: Some(
                PhysicsObject {
                    object_type: PhysicsType::Static,
                    rigidbody: body_handle,
                    colliders: collider_list,
                },
            ),
            player: None,
        },
    );
}

} // verus!

//! The init system: populates a fresh world with the default course — the
//! heightfield terrain and the player — plus any number of ramps at
//! placements the host chose (a typical host draws them at random, so the
//! placements are inputs here, not library logic).

use vstd::prelude::*;

use crate::components::MilliVec3;
use crate::components::PhysicsType;
use crate::components::PlayerCar;
use crate::entities::DEFAULT_FRICTION_MILLI;
use crate::entities::PLAYER_ANGULAR_DAMPING_MILLI;
use crate::entities::PLAYER_LINEAR_DAMPING_MILLI;
use crate::entities::PLAYER_MASS_MILLI;
use crate::entities::PLAYER_RESTITUTION_MILLI;
use crate::entities::create_ground_mesh;
use crate::entities::create_player;
use crate::entities::create_ramp;
use crate::entities::ground_heights_spec;
use crate::entities::player_half_extents_milli;
use crate::entities::ramp_profile_spec;
use crate::entities::spawned_one_entity;
use crate::entities::terrain_scale_milli;
use crate::raw;
use crate::resources::ColliderContainer;
use crate::resources::PhysicsError;
use crate::resources::RigidBodyContainer;
use crate::store::EntityProto;
use crate::store::PendingEntities;

verus! {

/// Where the player vehicle first appears: five units above the origin.
pub open spec fn player_start_milli() -> MilliVec3 {
    MilliVec3 { x: 0i64, y: 5000i64, z: 0i64 }
}

/// Position and orientation for one ramp.
#[derive(Clone, Copy, PartialEq, Eq, Structural, Debug)]
pub struct RampPlacement {
    pub pos: MilliVec3,
    pub rot: MilliVec3,
}

/// One recorded entity has exactly these components: the given name and
/// player tag, and a link of the given kind referencing body handle `body`
/// and the single collider handle `collider`.
pub open spec fn proto_matches(
    p: EntityProto,
    name: Seq<char>,
    kind: PhysicsType,
    player: Option<PlayerCar>,
    body: int,
    collider: int,
) -> bool {
    &&& p.name matches Some(n) && n.name@ =~= name
    &&& p.player == player
    &&& p.link matches Some(l) && l.object_type == kind && l.rigidbody == body && l.colliders@
        =~= seq![collider as usize]
}

/// What the containers hold for one spawned entity with body handle `b` and
/// collider handle `c`: a body of the given kind whose translation decodes
/// `pos`, and a collider with the given shape description attached to it.
pub open spec fn entity_physics_pinned(
    b1: RigidBodyContainer,
    c1: ColliderContainer,
    b: int,
    c: int,
    kind: PhysicsType,
    pos: MilliVec3,
    shape: Seq<u32>,
) -> bool {
    &&& (kind == PhysicsType::Static ==> b1.is_fixed(b) && !b1.is_dynamic(b))
    &&& (kind == PhysicsType::Dynamic ==> !b1.is_fixed(b) && b1.is_dynamic(b))
    &&& b1.pose_bits(b).subrange(0, 3) == raw::translation_bits_of(pos)
    &&& c1.shape_bits(c) == shape
    &&& c1.parent_raw(c) == b1.raw_handles()[b]
}

/// The shape description of the player's box collider.
pub open spec fn player_collider_shape() -> Seq<u32> {
    raw::cuboid_shape_bits(
        player_half_extents_milli(),
        DEFAULT_FRICTION_MILLI,
        PLAYER_RESTITUTION_MILLI,
    )
}

/// The world the init pass builds on top of state `p0`/`b0`/`c0`, with `k`
/// ramps spawned: first the terrain (`map00`, static, at the origin, with
/// the default heightfield), then the player (`car00`, dynamic, at rest at
/// the start position, with its tuned box collider, mass and damping,
/// starting airborne), then `k` ramps (`ramp0`, static, at the given
/// placements, each with the wedge-profile hull), each entity with one body
/// and one collider, handles issued densely in that order; everything that
/// existed before is untouched.
pub open spec fn init_world(
    p0: PendingEntities,
    p1: PendingEntities,
    b0: RigidBodyContainer,
    b1: RigidBodyContainer,
    c0: ColliderContainer,
    c1: ColliderContainer,
    ramps: Seq<RampPlacement>,
    k: nat,
) -> bool {
    &&& p1.spec_len() == p0.spec_len() + 2 + k
    &&& (forall|i: int| 0 <= i < p0.spec_len() ==> p1.at(i) == p0.at(i))
    &&& proto_matches(
        p1.at(p0.spec_len() as int),
        seq!['m', 'a', 'p', '0', '0'],
        PhysicsType::Static,
        None,
        b0.spec_len() as int,
        c0.spec_len() as int,
    )
    &&& proto_matches(
        p1.at(p0.spec_len() as int + 1),
        seq!['c', 'a', 'r', '0', '0'],
        PhysicsType::Dynamic,
        Some(PlayerCar { touching_ground: false }),
        b0.spec_len() as int + 1,
        c0.spec_len() as int + 1,
    )
    &&& (forall|i: int|
        0 <= i < k ==> proto_matches(
            #[trigger] p1.at(p0.spec_len() + 2 + i),
            seq!['r', 'a', 'm', 'p', '0'],
            PhysicsType::Static,
            None,
            b0.spec_len() + 2 + i,
            c0.spec_len() + 2 + i,
        ))
    &&& b1.wf()
    &&& b1.spec_len() == b0.spec_len() + 2 + k
    &&& c1.wf()
    &&& c1.spec_len() == c0.spec_len() + 2 + k
    &&& b0.bodies_preserved(b1, b0.spec_len())
    &&& c0.colliders_preserved(c1, c0.spec_len())
    &&& entity_physics_pinned(
        b1,
        c1,
        b0.spec_len() as int,
        c0.spec_len() as int,
        PhysicsType::Static,
        MilliVec3 { x: 0i64, y: 0i64, z: 0i64 },
        raw::heightfield_shape_bits(5, 5, ground_heights_spec(), terrain_scale_milli()),
    )
    &&& entity_physics_pinned(
        b1,
        c1,
        b0.spec_len() as int + 1,
        c0.spec_len() as int + 1,
        PhysicsType::Dynamic,
        player_start_milli(),
        player_collider_shape(),
    )
    &&& b1.velocity_bits(b0.spec_len() as int + 1) == raw::zero_velocity_bits()
    &&& b1.damping_bits(b0.spec_len() as int + 1) == raw::damping_bits_of_milli(
        PLAYER_LINEAR_DAMPING_MILLI,
        PLAYER_ANGULAR_DAMPING_MILLI,
    )
    &&& b1.mass_bits(b0.spec_len() as int + 1) == raw::attached_mass_bits(
        raw::additional_mass_bits(PLAYER_MASS_MILLI),
        player_collider_shape(),
    )
    &&& (forall|i: int|
        0 <= i < k ==> #[trigger] entity_physics_pinned(
            b1,
            c1,
            b0.spec_len() + 2 + i,
            c0.spec_len() + 2 + i,
            PhysicsType::Static,
            ramps[i].pos,
            raw::hull_shape_bits(ramp_profile_spec()),
        ))
}

/// Spawns the world's starting entities at game start.
pub struct InitSystem {}

impl InitSystem {
    /// Records the default course and the player, in order: terrain, player
    /// at the start position, then one ramp per placement. The fixed ramp
    /// profile admits a hull, so the pass always succeeds.
    pub fn run(
        &mut self,
        pending: &mut PendingEntities,
        bodies: &mut RigidBodyContainer,
        colliders: &mut ColliderContainer,
        ramps: &Vec<RampPlacement>,
    ) -> (r: Result<(), PhysicsError>)
        requires
            old(bodies).wf(),
            old(colliders).wf(),
        ensures
            r is Ok,
            init_world(
                *old(pending),
                *final(pending),
                *old(bodies),
                *final(bodies),
                *old(colliders),
                *final(colliders),
                ramps@,
                ramps@.len(),
            ),
    {
        create_ground_mesh(pending, bodies, colliders);
        create_player(pending, player_start_milli_vec(), bodies, colliders);
        let n = ramps.len();
        let mut j: usize = 0;
        while j < n
            invariant
                n == ramps@.len(),
                0 <= j <= n,
                bodies.wf(),
                colliders.wf(),
                init_world(
                    *old(pending),
                    *pending,
                    *old(bodies),
                    *bodies,
                    *old(colliders),
                    *colliders,
                    ramps@,
                    j as nat,
                ),
            decreases n - j,
        {
            let ghost pending_mid = *pending;
            let ghost bodies_mid = *bodies;
            let ghost colliders_mid = *colliders;
            let placement = ramps[j];
            let r = create_ramp(pending, placement.pos, placement.rot, bodies, colliders);
            proof {
                assert(r is Ok);
                assert(spawned_one_entity(
                    pending_mid,
                    *pending,
                    bodies_mid,
                    *bodies,
                    colliders_mid,
                    *colliders,
                    seq!['r', 'a', 'm', 'p', '0'],
                    PhysicsType::Static,
                    None::<PlayerCar>,
                    placement.pos,
                    raw::hull_shape_bits(ramp_profile_spec()),
                ));
                assert forall|i: int| 0 <= i < old(bodies).spec_len() implies #[trigger] bodies
                    .raw_handles()[i] == old(bodies).raw_handles()[i] && bodies.is_fixed(i) == old(
                    bodies,
                ).is_fixed(i) && bodies.is_dynamic(i) == old(bodies).is_dynamic(i)
                    && bodies.pose_bits(i) == old(bodies).pose_bits(i) && bodies.velocity_bits(i)
                    == old(bodies).velocity_bits(i) && bodies.rotation_bits(i) == old(
                    bodies,
                ).rotation_bits(i) && bodies.mass_bits(i) == old(bodies).mass_bits(i)
                    && bodies.damping_bits(i) == old(bodies).damping_bits(i) by {
                    assert(bodies_mid.raw_handles()[i] == old(bodies).raw_handles()[i]);
                    assert(bodies_mid.is_fixed(i) == old(bodies).is_fixed(i));
                    assert(bodies_mid.mass_bits(i) == old(bodies).mass_bits(i));
                    assert(bodies.raw_handles()[i] == bodies_mid.raw_handles()[i]);
                    assert(bodies.mass_bits(i) == bodies_mid.mass_bits(i));
                }
                assert forall|i: int| 0 <= i < old(colliders).spec_len() implies #[trigger]
                colliders.raw_handles()[i] == old(colliders).raw_handles()[i]
                    && colliders.shape_bits(i) == old(colliders).shape_bits(i)
                    && colliders.parent_raw(i) == old(colliders).parent_raw(i) by {
                    assert(colliders_mid.raw_handles()[i] == old(colliders).raw_handles()[i]);
                    assert(colliders_mid.shape_bits(i) == old(colliders).shape_bits(i));
                    assert(colliders.raw_handles()[i] == colliders_mid.raw_handles()[i]);
                    assert(colliders.shape_bits(i) == colliders_mid.shape_bits(i));
                }
                let nb0 = old(bodies).spec_len() as int;
                let nc0 = old(colliders).spec_len() as int;
                assert(bodies_mid.spec_len() == nb0 + 2 + j);
                assert(entity_physics_pinned(
                    *bodies,
                    *colliders,
                    nb0,
                    nc0,
                    PhysicsType::Static,
                    MilliVec3 { x: 0i64, y: 0i64, z: 0i64 },
                    raw::heightfield_shape_bits(5, 5, ground_heights_spec(), terrain_scale_milli()),
                )) by {
                    assert(bodies_mid.raw_handles()[nb0] == bodies.raw_handles()[nb0]);
                    assert(colliders_mid.raw_handles()[nc0] == colliders.raw_handles()[nc0]);
                }
                assert(entity_physics_pinned(
                    *bodies,
                    *colliders,
                    nb0 + 1,
                    nc0 + 1,
                    PhysicsType::Dynamic,
                    player_start_milli(),
                    player_collider_shape(),
                )) by {
                    assert(bodies_mid.raw_handles()[nb0 + 1] == bodies.raw_handles()[nb0 + 1]);
                    assert(colliders_mid.raw_handles()[nc0 + 1] == colliders.raw_handles()[nc0
                        + 1]);
                }
                assert forall|i: int| 0 <= i < j + 1 implies #[trigger] entity_physics_pinned(
                    *bodies,
                    *colliders,
                    nb0 + 2 + i,
                    nc0 + 2 + i,
                    PhysicsType::Static,
                    ramps@[i].pos,
                    raw::hull_shape_bits(ramp_profile_spec()),
                ) by {
                    if i < j {
                        assert(entity_physics_pinned(
                            bodies_mid,
                            colliders_mid,
                            nb0 + 2 + i,
                            nc0 + 2 + i,
                            PhysicsType::Static,
                            ramps@[i].pos,
                            raw::hull_shape_bits(ramp_profile_spec()),
                        ));
                        assert(bodies_mid.raw_handles()[nb0 + 2 + i] == bodies.raw_handles()[nb0 + 2
                            + i]);
                        assert(colliders_mid.raw_handles()[nc0 + 2 + i]
                            == colliders.raw_handles()[nc0 + 2 + i]);
                    }
                }
                assert(init_world(
                    *old(pending),
                    *pending,
                    *old(bodies),
                    *bodies,
                    *old(colliders),
                    *colliders,
                    ramps@,
                    (j + 1) as nat,
                ));
            }
            j = j + 1;
        }
        Ok(())
    }
}

/// The player start position as a value.
pub fn player_start_milli_vec() -> (v: MilliVec3)
    ensures
        v == player_start_milli(),
{
    MilliVec3 { x: 0, y: 5000, z: 0 }
}

} // verus!

//! The trusted boundary around the rapier3d physics engine.
//!
//! Everything in this module is either a declaration of an engine type (opaque
//! to the verifier), a name for a piece of state an engine collection holds or
//! for the result an engine computation produces, or an `external_body`
//! wrapper whose contract states what the wrapped engine call does. Nothing
//! here is proved; everything else in the crate is proved against these
//! contracts.
//!
//! Conventions. A body or collider handle crosses the boundary as its raw
//! `(index, generation)` pair, the form rapier3d itself exposes through
//! `into_raw_parts` / `from_raw_parts`. Scalars cross as integer thousandths
//! ("milli" units) and are divided by 1000 after a cast to the engine's `Real`
//! scalar, the only place such a conversion happens. Engine-side floating
//! point state is modeled as IEEE-754 bit patterns: per-handle maps give each
//! body's pose, velocity, orientation quaternion, mass properties and damping
//! coefficients, and each collider's shape description and parent, as opaque
//! words; names such as `scaled_linvel_of` stand for the results of the
//! engine's trigonometry-free velocity arithmetic, which depend on their
//! arguments alone.

use vstd::prelude::*;

use crate::components::MilliVec3;
use crate::entities::ramp_profile_spec;
use rapier3d::math::Real;
use rapier3d::math::Vector;

verus! {

#[verifier::external_type_specification]
#[verifier::external_body]
pub struct ExRigidBodySet(rapier3d::dynamics::RigidBodySet);

#[verifier::external_type_specification]
#[verifier::external_body]
pub struct ExRigidBody(rapier3d::dynamics::RigidBody);

#[verifier::external_type_specification]
#[verifier::external_body]
pub struct ExColliderSet(rapier3d::geometry::ColliderSet);

#[verifier::external_type_specification]
#[verifier::external_body]
pub struct ExCollider(rapier3d::geometry::Collider);

#[verifier::external_type_specification]
#[verifier::external_body]
pub struct ExPhysicsPipeline(rapier3d::pipeline::PhysicsPipeline);

#[verifier::external_type_specification]
#[verifier::external_body]
pub struct ExIslandManager(rapier3d::dynamics::IslandManager);

#[verifier::external_type_specification]
#[verifier::external_body]
pub struct ExBroadPhaseBvh(rapier3d::geometry::BroadPhaseBvh);

#[verifier::external_type_specification]
#[verifier::external_body]
pub struct ExNarrowPhase(rapier3d::geometry::NarrowPhase);

#[verifier::external_type_specification]
#[verifier::external_body]
pub struct ExImpulseJointSet(rapier3d::dynamics::ImpulseJointSet);

#[verifier::external_type_specification]
#[verifier::external_body]
pub struct ExMultibodyJointSet(rapier3d::dynamics::MultibodyJointSet);

#[verifier::external_type_specification]
#[verifier::external_body]
pub struct ExSoftBodySet(rapier3d::dynamics::SoftBodySet);

#[verifier::external_type_specification]
#[verifier::external_body]
pub struct ExCCDSolver(rapier3d::dynamics::CCDSolver);

#[verifier::external_type_specification]
#[verifier::external_body]
pub struct ExIntegrationParameters(rapier3d::dynamics::IntegrationParameters);

/// The raw handles under which a body set currently holds a body.
pub uninterp spec fn body_handles_of(s: rapier3d::dynamics::RigidBodySet) -> Set<(u32, u32)>;

/// The raw handles of the bodies a set holds as fixed (static) bodies.
pub uninterp spec fn fixed_handles_of(s: rapier3d::dynamics::RigidBodySet) -> Set<(u32, u32)>;

/// The raw handles of the bodies a set holds as dynamic bodies.
pub uninterp spec fn dynamic_handles_of(s: rapier3d::dynamics::RigidBodySet) -> Set<(u32, u32)>;

/// The pose a body set holds for each body, as the six IEEE-754 bit patterns
/// of its translation (x, y, z) followed by its orientation as Euler angles
/// (roll, pitch, yaw).
pub uninterp spec fn body_pose_bits_of(s: rapier3d::dynamics::RigidBodySet) -> Map<
    (u32, u32),
    Seq<u32>,
>;

/// The velocity a body set holds for each body, as the six IEEE-754 bit
/// patterns of its linear velocity (x, y, z) followed by its angular
/// velocity (x, y, z).
pub uninterp spec fn body_velocity_bits_of(s: rapier3d::dynamics::RigidBodySet) -> Map<
    (u32, u32),
    Seq<u32>,
>;

/// The orientation quaternion a body set holds for each body, as bit
/// patterns. Used only as an opaque token: the engine's velocity arithmetic
/// depends on it.
pub uninterp spec fn body_rotation_bits_of(s: rapier3d::dynamics::RigidBodySet) -> Map<
    (u32, u32),
    Seq<u32>,
>;

/// The mass properties (center of mass, inverse mass, inertia) a body set
/// holds for each body, as bit patterns.
pub uninterp spec fn body_mass_bits_of(s: rapier3d::dynamics::RigidBodySet) -> Map<
    (u32, u32),
    Seq<u32>,
>;

/// The linear and angular damping coefficients a body set holds for each
/// body, as bit patterns.
pub uninterp spec fn body_damping_bits_of(s: rapier3d::dynamics::RigidBodySet) -> Map<
    (u32, u32),
    Seq<u32>,
>;

/// The raw handles under which a collider set currently holds a collider.
pub uninterp spec fn collider_handles_of(s: rapier3d::geometry::ColliderSet) -> Set<(u32, u32)>;

/// The shape and material description (geometry, friction, restitution) a
/// collider set holds for each collider, as bit patterns.
pub uninterp spec fn collider_shape_bits_of(s: rapier3d::geometry::ColliderSet) -> Map<
    (u32, u32),
    Seq<u32>,
>;

/// The parent body handle a collider set records for each collider attached
/// to a body.
pub uninterp spec fn collider_parent_of(s: rapier3d::geometry::ColliderSet) -> Map<
    (u32, u32),
    (u32, u32),
>;

/// The raw handles of the colliders involved in at least one contact pair
/// that has an active contact (actual touching, not mere bounding-volume
/// overlap) in a narrow phase's contact graph.
pub uninterp spec fn active_contact_colliders_of(n: rapier3d::geometry::NarrowPhase) -> Set<
    (u32, u32),
>;

/// The IEEE-754 bit pattern of a milli-unit scalar decoded to the engine's
/// `Real`: `v` cast to `Real`, divided by 1000.
pub uninterp spec fn real_bits_of_milli(v: i64) -> u32;

/// A milli-unit 3-vector decoded to engine scalars, as three bit patterns.
pub open spec fn translation_bits_of(v: MilliVec3) -> Seq<u32> {
    seq![real_bits_of_milli(v.x), real_bits_of_milli(v.y), real_bits_of_milli(v.z)]
}

/// The velocity bits of a body at rest: every component is positive IEEE
/// zero.
pub open spec fn zero_velocity_bits() -> Seq<u32> {
    seq![0u32, 0u32, 0u32, 0u32, 0u32, 0u32]
}

/// The mass-properties bits of a fresh dynamic body with additional mass
/// `mass_milli / 1000` and no colliders attached yet.
pub uninterp spec fn additional_mass_bits(mass_milli: i64) -> Seq<u32>;

/// The damping-coefficient bits of a body built with the given linear and
/// angular damping, in milli units.
pub uninterp spec fn damping_bits_of_milli(linear_milli: i64, angular_milli: i64) -> Seq<u32>;

/// The mass-properties bits of a body after a collider with the given shape
/// description is attached to it (the engine folds the collider's mass
/// contribution into the body's).
pub uninterp spec fn attached_mass_bits(old_mass: Seq<u32>, shape: Seq<u32>) -> Seq<u32>;

/// The shape description of a box collider with the given half-extents,
/// friction and restitution, all in milli units.
pub uninterp spec fn cuboid_shape_bits(half: MilliVec3, friction_milli: i64, restitution_milli: i64) -> Seq<u32>;

/// The shape description of a convex-hull collider over the given points (in
/// milli units), with the engine's default friction and restitution.
pub uninterp spec fn hull_shape_bits(points: Seq<MilliVec3>) -> Seq<u32>;

/// The shape description of a heightfield collider over a column-major
/// `nrows` x `ncols` grid of milli-unit elevation samples, scaled by the
/// given milli-unit factor along each axis.
pub uninterp spec fn heightfield_shape_bits(
    nrows: int,
    ncols: int,
    heights_milli: Seq<i64>,
    scale: MilliVec3,
) -> Seq<u32>;

/// The velocity bits of a body after its linear velocity is scaled by
/// `factor_milli / 1000` (a single IEEE multiply per component; the angular
/// part is untouched).
pub uninterp spec fn scaled_linvel_of(velocity: Seq<u32>, factor_milli: i64) -> Seq<u32>;

/// The velocity bits of a dynamic body after an impulse given in its local
/// frame is rotated by its orientation quaternion and applied: linear
/// velocity gains the world impulse times the effective inverse mass
/// (IEEE multiply-adds only); the angular part is untouched.
pub uninterp spec fn impulse_velocity_of(
    velocity: Seq<u32>,
    rotation: Seq<u32>,
    mass: Seq<u32>,
    impulse_milli: MilliVec3,
) -> Seq<u32>;

/// The velocity bits of a dynamic body after a world-frame torque impulse is
/// applied: angular velocity gains the torque times the effective world
/// inverse inertia, which depends on the orientation (IEEE multiply-adds
/// only); the linear part is untouched.
pub uninterp spec fn torque_velocity_of(
    velocity: Seq<u32>,
    rotation: Seq<u32>,
    mass: Seq<u32>,
    torque_milli: MilliVec3,
) -> Seq<u32>;

/// Relies on rapier3d's `RigidBodySet::new`: a fresh set holds no bodies.
#[verifier::external_body]
pub(crate) fn new_rigid_body_set() -> (s: rapier3d::dynamics::RigidBodySet)
    ensures
        body_handles_of(s) == Set::<(u32, u32)>::empty(),
        fixed_handles_of(s) == Set::<(u32, u32)>::empty(),
        dynamic_handles_of(s) == Set::<(u32, u32)>::empty(),
{
    rapier3d::dynamics::RigidBodySet::new()
}

/// Relies on rapier3d's `ColliderSet::new`: a fresh set holds no colliders.
#[verifier::external_body]
pub(crate) fn new_collider_set() -> (s: rapier3d::geometry::ColliderSet)
    ensures
        collider_handles_of(s) == Set::<(u32, u32)>::empty(),
{
    rapier3d::geometry::ColliderSet::new()
}

/// Relies on rapier3d's `PhysicsPipeline::new`.
#[verifier::external_body]
pub(crate) fn new_physics_pipeline() -> rapier3d::pipeline::PhysicsPipeline {
    rapier3d::pipeline::PhysicsPipeline::new()
}

/// Relies on rapier3d's `IslandManager::new`.
#[verifier::external_body]
pub(crate) fn new_island_manager() -> rapier3d::dynamics::IslandManager {
    rapier3d::dynamics::IslandManager::new()
}

/// Relies on rapier3d's `BroadPhaseBvh::new`.
#[verifier::external_body]
pub(crate) fn new_broad_phase() -> rapier3d::geometry::BroadPhaseBvh {
    rapier3d::geometry::BroadPhaseBvh::new()
}

/// Relies on rapier3d's `NarrowPhase::new`: a fresh narrow phase has an empty
/// contact graph, so no collider has any active contact.
#[verifier::external_body]
pub(crate) fn new_narrow_phase() -> (n: rapier3d::geometry::NarrowPhase)
    ensures
        active_contact_colliders_of(n) == Set::<(u32, u32)>::empty(),
{
    rapier3d::geometry::NarrowPhase::new()
}

/// Relies on rapier3d's `ImpulseJointSet::new`.
#[verifier::external_body]
pub(crate) fn new_impulse_joint_set() -> rapier3d::dynamics::ImpulseJointSet {
    rapier3d::dynamics::ImpulseJointSet::new()
}

/// Relies on rapier3d's `MultibodyJointSet::new`.
#[verifier::external_body]
pub(crate) fn new_multibody_joint_set() -> rapier3d::dynamics::MultibodyJointSet {
    rapier3d::dynamics::MultibodyJointSet::new()
}

/// Relies on rapier3d's `SoftBodySet::new`.
#[verifier::external_body]
pub(crate) fn new_soft_body_set() -> rapier3d::dynamics::SoftBodySet {
    rapier3d::dynamics::SoftBodySet::new()
}

/// Relies on rapier3d's `CCDSolver::new`.
#[verifier::external_body]
pub(crate) fn new_ccd_solver() -> rapier3d::dynamics::CCDSolver {
    rapier3d::dynamics::CCDSolver::new()
}

/// Relies on rapier3d's `IntegrationParameters::default`: the engine's
/// standard fixed-timestep tuning.
#[verifier::external_body]
pub(crate) fn default_integration_parameters() -> rapier3d::dynamics::IntegrationParameters {
    rapier3d::dynamics::IntegrationParameters::default()
}

/// Relies on rapier3d's `RigidBodyBuilder::fixed` and `RigidBodySet::insert`:
/// the set now also holds, under the returned fresh handle, a fixed body at
/// the given pose — its translation is the decoded milli position — at rest;
/// every other body is untouched in every modeled respect.
#[verifier::external_body]
pub(crate) fn insert_fixed_body(
    s: &mut rapier3d::dynamics::RigidBodySet,
    pos: MilliVec3,
    rot: MilliVec3,
) -> (h: (u32, u32))
    ensures
        body_handles_of(*final(s)) == body_handles_of(*old(s)).insert(h),
        !body_handles_of(*old(s)).contains(h),
        fixed_handles_of(*final(s)) == fixed_handles_of(*old(s)).insert(h),
        dynamic_handles_of(*final(s)) == dynamic_handles_of(*old(s)),
        !dynamic_handles_of(*final(s)).contains(h),
        body_pose_bits_of(*final(s))[h].len() == 6,
        body_pose_bits_of(*final(s))[h][0] == real_bits_of_milli(pos.x),
        body_pose_bits_of(*final(s))[h].subrange(0, 3) == translation_bits_of(pos),
        body_velocity_bits_of(*final(s))[h] == zero_velocity_bits(),
        forall|k: (u32, u32)|
            k != h ==> body_pose_bits_of(*final(s))[k] == body_pose_bits_of(*old(s))[k]
                && body_velocity_bits_of(*final(s))[k] == body_velocity_bits_of(*old(s))[k]
                && body_rotation_bits_of(*final(s))[k] == body_rotation_bits_of(*old(s))[k]
                && body_mass_bits_of(*final(s))[k] == body_mass_bits_of(*old(s))[k]
                && body_damping_bits_of(*final(s))[k] == body_damping_bits_of(*old(s))[k],
{
    let m = 1000 as Real;
    let rb = rapier3d::dynamics::RigidBodyBuilder::fixed()
        .translation(Vector::new(pos.x as Real / m, pos.y as Real / m, pos.z as Real / m))
        .rotation(Vector::new(rot.x as Real / m, rot.y as Real / m, rot.z as Real / m))
        .build();
    s.insert(rb).into_raw_parts()
}

/// Relies on rapier3d's `RigidBodyBuilder::dynamic` and `RigidBodySet::insert`:
/// the set now also holds, under the returned fresh handle, a dynamic body at
/// rest whose translation is the decoded milli position, with the given
/// additional mass and linear/angular damping; every other body is untouched
/// in every modeled respect.
#[verifier::external_body]
pub(crate) fn insert_dynamic_body(
    s: &mut rapier3d::dynamics::RigidBodySet,
    pos: MilliVec3,
    mass_milli: i64,
    linear_damping_milli: i64,
    angular_damping_milli: i64,
) -> (h: (u32, u32))
    ensures
        body_handles_of(*final(s)) == body_handles_of(*old(s)).insert(h),
        !body_handles_of(*old(s)).contains(h),
        fixed_handles_of(*final(s)) == fixed_handles_of(*old(s)),
        !fixed_handles_of(*final(s)).contains(h),
        dynamic_handles_of(*final(s)) == dynamic_handles_of(*old(s)).insert(h),
        body_pose_bits_of(*final(s))[h].len() == 6,
        body_pose_bits_of(*final(s))[h].subrange(0, 3) == translation_bits_of(pos),
        body_velocity_bits_of(*final(s))[h] == zero_velocity_bits(),
        body_mass_bits_of(*final(s))[h] == additional_mass_bits(mass_milli),
        body_damping_bits_of(*final(s))[h] == damping_bits_of_milli(
            linear_damping_milli,
            angular_damping_milli,
        ),
        forall|k: (u32, u32)|
            k != h ==> body_pose_bits_of(*final(s))[k] == body_pose_bits_of(*old(s))[k]
                && body_velocity_bits_of(*final(s))[k] == body_velocity_bits_of(*old(s))[k]
                && body_rotation_bits_of(*final(s))[k] == body_rotation_bits_of(*old(s))[k]
                && body_mass_bits_of(*final(s))[k] == body_mass_bits_of(*old(s))[k]
                && body_damping_bits_of(*final(s))[k] == body_damping_bits_of(*old(s))[k],
{
    let m = 1000 as Real;
    let rb = rapier3d::dynamics::RigidBodyBuilder::dynamic()
        .translation(Vector::new(pos.x as Real / m, pos.y as Real / m, pos.z as Real / m))
        .additional_mass(mass_milli as Real / m)
        .linear_damping(linear_damping_milli as Real / m)
        .angular_damping(angular_damping_milli as Real / m)
        .build();
    s.insert(rb).into_raw_parts()
}

/// What attaching one collider does to the two sets, shared by the shape
/// wrappers below: the collider set gains the new entry, the parent map
/// records the attachment, the body set keeps the same bodies and the parent
/// only has the collider's mass contribution folded in — pose, velocity,
/// orientation and damping of every body are untouched.
pub open spec fn attach_effect(
    cs_old: rapier3d::geometry::ColliderSet,
    cs_new: rapier3d::geometry::ColliderSet,
    bs_old: rapier3d::dynamics::RigidBodySet,
    bs_new: rapier3d::dynamics::RigidBodySet,
    h: (u32, u32),
    parent: (u32, u32),
) -> bool {
    &&& collider_handles_of(cs_new) == collider_handles_of(cs_old).insert(h)
    &&& !collider_handles_of(cs_old).contains(h)
    &&& collider_parent_of(cs_new) == collider_parent_of(cs_old).insert(h, parent)
    &&& (forall|k: (u32, u32)|
        k != h ==> collider_shape_bits_of(cs_new)[k] == collider_shape_bits_of(cs_old)[k])
    &&& body_handles_of(bs_new) == body_handles_of(bs_old)
    &&& fixed_handles_of(bs_new) == fixed_handles_of(bs_old)
    &&& dynamic_handles_of(bs_new) == dynamic_handles_of(bs_old)
    &&& body_pose_bits_of(bs_new) == body_pose_bits_of(bs_old)
    &&& body_velocity_bits_of(bs_new) == body_velocity_bits_of(bs_old)
    &&& body_rotation_bits_of(bs_new) == body_rotation_bits_of(bs_old)
    &&& body_damping_bits_of(bs_new) == body_damping_bits_of(bs_old)
    &&& (forall|k: (u32, u32)|
        k != parent ==> body_mass_bits_of(bs_new)[k] == body_mass_bits_of(bs_old)[k])
    &&& body_mass_bits_of(bs_new)[parent] == attached_mass_bits(
        body_mass_bits_of(bs_old)[parent],
        collider_shape_bits_of(cs_new)[h],
    )
}

/// Relies on rapier3d's `ColliderBuilder::cuboid` and
/// `ColliderSet::insert_with_parent`: attaches a box collider with the given
/// half-extents, friction and restitution to the parent body, which must
/// exist.
#[verifier::external_body]
pub(crate) fn insert_cuboid_collider(
    cs: &mut rapier3d::geometry::ColliderSet,
    half: MilliVec3,
    friction_milli: i64,
    restitution_milli: i64,
    parent: (u32, u32),
    bs: &mut rapier3d::dynamics::RigidBodySet,
) -> (h: (u32, u32))
    requires
        0 < half.x,
        0 < half.y,
        0 < half.z,
        0 <= friction_milli,
        0 <= restitution_milli,
        body_handles_of(*old(bs)).contains(parent),
    ensures
        attach_effect(*old(cs), *final(cs), *old(bs), *final(bs), h, parent),
        collider_shape_bits_of(*final(cs))[h] == cuboid_shape_bits(
            half,
            friction_milli,
            restitution_milli,
        ),
        body_mass_bits_of(*final(bs))[parent] == attached_mass_bits(
            body_mass_bits_of(*old(bs))[parent],
            collider_shape_bits_of(*final(cs))[h],
        ),
{
    let m = 1000 as Real;
    let collider = rapier3d::geometry::ColliderBuilder::cuboid(
        half.x as Real / m,
        half.y as Real / m,
        half.z as Real / m,
    ).friction(friction_milli as Real / m).restitution(restitution_milli as Real / m).build();
    cs.insert_with_parent(
        collider,
        rapier3d::dynamics::RigidBodyHandle::from_raw_parts(parent.0, parent.1),
        bs,
    ).into_raw_parts()
}

/// Relies on rapier3d's `ColliderBuilder::convex_hull` and
/// `ColliderSet::insert_with_parent`: `Some` attaches the collider over the
/// minimal convex cover of the points to the parent body; `None` means the
/// points are degenerate and admit no hull, and nothing changed. On the
/// fixed 6-point wedge profile the hull construction succeeds.
#[verifier::external_body]
pub(crate) fn insert_hull_collider(
    cs: &mut rapier3d::geometry::ColliderSet,
    points: &Vec<MilliVec3>,
    parent: (u32, u32),
    bs: &mut rapier3d::dynamics::RigidBodySet,
) -> (r: Option<(u32, u32)>)
    requires
        body_handles_of(*old(bs)).contains(parent),
    ensures
        points@ =~= ramp_profile_spec() ==> r is Some,
        match r {
            Some(h) => {
                &&& attach_effect(*old(cs), *final(cs), *old(bs), *final(bs), h, parent)
                &&& collider_shape_bits_of(*final(cs))[h] == hull_shape_bits(points@)
            },
            None => {
                &&& *final(cs) == *old(cs)
                &&& *final(bs) == *old(bs)
            },
        },
{
    let m = 1000 as Real;
    let pts: Vec<Vector> = points.iter().map(
        |p| Vector::new(p.x as Real / m, p.y as Real / m, p.z as Real / m),
    ).collect();
    match rapier3d::geometry::ColliderBuilder::convex_hull(&pts) {
        Some(builder) => Some(
            cs.insert_with_parent(
                builder.build(),
                rapier3d::dynamics::RigidBodyHandle::from_raw_parts(parent.0, parent.1),
                bs,
            ).into_raw_parts(),
        ),
        None => None,
    }
}

/// Relies on rapier3d's `ColliderBuilder::heightfield` and
/// `ColliderSet::insert_with_parent`: attaches a heightfield collider over a
/// column-major `nrows` x `ncols` grid of elevation samples, scaled by the
/// given factor along each axis, to the parent body. The engine requires at
/// least a 2 x 2 grid and exactly `nrows * ncols` samples.
#[verifier::external_body]
pub(crate) fn insert_heightfield_collider(
    cs: &mut rapier3d::geometry::ColliderSet,
    nrows: usize,
    ncols: usize,
    heights_milli: &Vec<i64>,
    scale: MilliVec3,
    parent: (u32, u32),
    bs: &mut rapier3d::dynamics::RigidBodySet,
) -> (h: (u32, u32))
    requires
        2 <= nrows,
        2 <= ncols,
        heights_milli@.len() == nrows * ncols,
        body_handles_of(*old(bs)).contains(parent),
    ensures
        attach_effect(*old(cs), *final(cs), *old(bs), *final(bs), h, parent),
        collider_shape_bits_of(*final(cs))[h] == heightfield_shape_bits(
            nrows as int,
            ncols as int,
            heights_milli@,
            scale,
        ),
{
    let m = 1000 as Real;
    let data: Vec<Real> = heights_milli.iter().map(|v| *v as Real / m).collect();
    let grid = rapier3d::geometry::Array2::new(nrows, ncols, data);
    let collider = rapier3d::geometry::ColliderBuilder::heightfield(
        grid,
        Vector::new(scale.x as Real / m, scale.y as Real / m, scale.z as Real / m),
    ).build();
    cs.insert_with_parent(
        collider,
        rapier3d::dynamics::RigidBodyHandle::from_raw_parts(parent.0, parent.1),
        bs,
    ).into_raw_parts()
}

/// Relies on rapier3d's `ColliderSet::insert_with_parent`: attaches an
/// already-built collider (whose shape description is then whatever that
/// collider holds) to the parent body, which must exist.
#[verifier::external_body]
pub(crate) fn insert_collider_with_parent(
    cs: &mut rapier3d::geometry::ColliderSet,
    collider: rapier3d::geometry::Collider,
    parent: (u32, u32),
    bs: &mut rapier3d::dynamics::RigidBodySet,
) -> (h: (u32, u32))
    requires
        body_handles_of(*old(bs)).contains(parent),
    ensures
        attach_effect(*old(cs), *final(cs), *old(bs), *final(bs), h, parent),
        collider_parent_of(*final(cs))[h] == parent,
{
    cs.insert_with_parent(
        collider,
        rapier3d::dynamics::RigidBodyHandle::from_raw_parts(parent.0, parent.1),
        bs,
    ).into_raw_parts()
}

/// Relies on rapier3d's `RigidBodySet::get`: a handle the set holds resolves
/// to its body.
#[verifier::external_body]
pub(crate) fn get_body<'a>(
    s: &'a rapier3d::dynamics::RigidBodySet,
    h: (u32, u32),
) -> &'a rapier3d::dynamics::RigidBody
    requires
        body_handles_of(*s).contains(h),
{
    s.get(rapier3d::dynamics::RigidBodyHandle::from_raw_parts(h.0, h.1)).unwrap()
}

/// Relies on rapier3d's `ColliderSet::get`: a handle the set holds resolves
/// to its collider.
#[verifier::external_body]
pub(crate) fn get_collider<'a>(
    s: &'a rapier3d::geometry::ColliderSet,
    h: (u32, u32),
) -> &'a rapier3d::geometry::Collider
    requires
        collider_handles_of(*s).contains(h),
{
    s.get(rapier3d::geometry::ColliderHandle::from_raw_parts(h.0, h.1)).unwrap()
}

/// What the three velocity operations below leave untouched: the sets'
/// handles and kinds, and every body's pose, orientation, mass properties
/// and damping; the velocity of every body but the target.
pub open spec fn velocity_op_effect(
    s_old: rapier3d::dynamics::RigidBodySet,
    s_new: rapier3d::dynamics::RigidBodySet,
    h: (u32, u32),
) -> bool {
    &&& body_handles_of(s_new) == body_handles_of(s_old)
    &&& fixed_handles_of(s_new) == fixed_handles_of(s_old)
    &&& dynamic_handles_of(s_new) == dynamic_handles_of(s_old)
    &&& body_pose_bits_of(s_new) == body_pose_bits_of(s_old)
    &&& body_rotation_bits_of(s_new) == body_rotation_bits_of(s_old)
    &&& body_mass_bits_of(s_new) == body_mass_bits_of(s_old)
    &&& body_damping_bits_of(s_new) == body_damping_bits_of(s_old)
    &&& (forall|k: (u32, u32)|
        k != h ==> body_velocity_bits_of(s_new)[k] == body_velocity_bits_of(s_old)[k])
}

/// Relies on rapier3d's `RigidBody::rotation` and `RigidBody::apply_impulse`:
/// rotates the given local-frame impulse into world space by the dynamic
/// body's current orientation and applies it, changing its linear velocity
/// by the world impulse times the effective inverse mass and nothing else.
#[verifier::external_body]
pub(crate) fn apply_local_impulse(
    s: &mut rapier3d::dynamics::RigidBodySet,
    h: (u32, u32),
    impulse_milli: MilliVec3,
)
    requires
        body_handles_of(*old(s)).contains(h),
        dynamic_handles_of(*old(s)).contains(h),
    ensures
        velocity_op_effect(*old(s), *final(s), h),
        body_velocity_bits_of(*final(s))[h] == impulse_velocity_of(
            body_velocity_bits_of(*old(s))[h],
            body_rotation_bits_of(*old(s))[h],
            body_mass_bits_of(*old(s))[h],
            impulse_milli,
        ),
        body_velocity_bits_of(*final(s))[h].subrange(3, 6) == body_velocity_bits_of(*old(s))[h]
            .subrange(3, 6),
{
    let m = 1000 as Real;
    let rb = s.get_mut(rapier3d::dynamics::RigidBodyHandle::from_raw_parts(h.0, h.1)).unwrap();
    let local = Vector::new(
        impulse_milli.x as Real / m,
        impulse_milli.y as Real / m,
        impulse_milli.z as Real / m,
    );
    let world = *rb.rotation() * local;
    rb.apply_impulse(world, true);
}

/// Relies on rapier3d's `RigidBody::apply_torque_impulse`: applies the given
/// world-frame torque impulse to the dynamic body, changing its angular
/// velocity by the torque times the effective world inverse inertia and
/// nothing else.
#[verifier::external_body]
pub(crate) fn apply_torque_impulse(
    s: &mut rapier3d::dynamics::RigidBodySet,
    h: (u32, u32),
    torque_milli: MilliVec3,
)
    requires
        body_handles_of(*old(s)).contains(h),
        dynamic_handles_of(*old(s)).contains(h),
    ensures
        velocity_op_effect(*old(s), *final(s), h),
        body_velocity_bits_of(*final(s))[h] == torque_velocity_of(
            body_velocity_bits_of(*old(s))[h],
            body_rotation_bits_of(*old(s))[h],
            body_mass_bits_of(*old(s))[h],
            torque_milli,
        ),
        body_velocity_bits_of(*final(s))[h].subrange(0, 3) == body_velocity_bits_of(*old(s))[h]
            .subrange(0, 3),
{
    let m = 1000 as Real;
    let rb = s.get_mut(rapier3d::dynamics::RigidBodyHandle::from_raw_parts(h.0, h.1)).unwrap();
    rb.apply_torque_impulse(
        Vector::new(
            torque_milli.x as Real / m,
            torque_milli.y as Real / m,
            torque_milli.z as Real / m,
        ),
        true,
    );
}

/// Relies on rapier3d's `RigidBody::linvel` and `RigidBody::set_linvel`:
/// scales the dynamic body's linear velocity by `factor_milli / 1000`, one
/// IEEE multiply per component; its angular velocity and everything else are
/// untouched.
#[verifier::external_body]
pub(crate) fn scale_linear_velocity(
    s: &mut rapier3d::dynamics::RigidBodySet,
    h: (u32, u32),
    factor_milli: i64,
)
    requires
        body_handles_of(*old(s)).contains(h),
        dynamic_handles_of(*old(s)).contains(h),
        0 <= factor_milli <= 1000,
    ensures
        velocity_op_effect(*old(s), *final(s), h),
        body_velocity_bits_of(*final(s))[h] == scaled_linvel_of(
            body_velocity_bits_of(*old(s))[h],
            factor_milli,
        ),
        body_velocity_bits_of(*final(s))[h].subrange(3, 6) == body_velocity_bits_of(*old(s))[h]
            .subrange(3, 6),
{
    let m = 1000 as Real;
    let rb = s.get_mut(rapier3d::dynamics::RigidBodyHandle::from_raw_parts(h.0, h.1)).unwrap();
    rb.set_linvel(rb.linvel() * (factor_milli as Real / m), true);
}

/// Relies on rapier3d's `PhysicsPipeline::step`: advances the simulation by
/// one fixed timestep under the given gravity. The step integrates dynamic
/// bodies and rebuilds the contact information; it inserts and removes
/// nothing and never changes a body's kind, mass properties, damping, or a
/// collider's shape or parent — and a fixed body is never moved by it, so
/// every fixed body keeps its pose.
#[verifier::external_body]
pub(crate) fn step_pipeline(
    pipeline: &mut rapier3d::pipeline::PhysicsPipeline,
    gravity_milli: MilliVec3,
    params: &rapier3d::dynamics::IntegrationParameters,
    islands: &mut rapier3d::dynamics::IslandManager,
    broad_phase: &mut rapier3d::geometry::BroadPhaseBvh,
    narrow_phase: &mut rapier3d::geometry::NarrowPhase,
    bodies: &mut rapier3d::dynamics::RigidBodySet,
    colliders: &mut rapier3d::geometry::ColliderSet,
    impulse_joints: &mut rapier3d::dynamics::ImpulseJointSet,
    multibody_joints: &mut rapier3d::dynamics::MultibodyJointSet,
    soft_bodies: &mut rapier3d::dynamics::SoftBodySet,
    ccd_solver: &mut rapier3d::dynamics::CCDSolver,
)
    ensures
        body_handles_of(*final(bodies)) == body_handles_of(*old(bodies)),
        fixed_handles_of(*final(bodies)) == fixed_handles_of(*old(bodies)),
        dynamic_handles_of(*final(bodies)) == dynamic_handles_of(*old(bodies)),
        body_mass_bits_of(*final(bodies)) == body_mass_bits_of(*old(bodies)),
        body_damping_bits_of(*final(bodies)) == body_damping_bits_of(*old(bodies)),
        collider_handles_of(*final(colliders)) == collider_handles_of(*old(colliders)),
        collider_shape_bits_of(*final(colliders)) == collider_shape_bits_of(*old(colliders)),
        collider_parent_of(*final(colliders)) == collider_parent_of(*old(colliders)),
        forall|k: (u32, u32)|
            fixed_handles_of(*old(bodies)).contains(k) ==> body_pose_bits_of(*final(bodies))[k]
                == body_pose_bits_of(*old(bodies))[k],
{
    let m = 1000 as Real;
    let gravity = Vector::new(
        gravity_milli.x as Real / m,
        gravity_milli.y as Real / m,
        gravity_milli.z as Real / m,
    );
    pipeline.step(
        gravity, params, islands, broad_phase, narrow_phase, bodies, colliders,
        impulse_joints, multibody_joints, soft_bodies, ccd_solver, &(), &(),
    );
}

/// Relies on rapier3d's `NarrowPhase::contact_pairs_with` and
/// `ContactPair::has_any_active_contact`: whether the given collider is
/// involved in at least one contact pair with an active contact — actual
/// touching, not mere bounding-volume overlap.
#[verifier::external_body]
pub(crate) fn collider_has_active_contacts(
    n: &rapier3d::geometry::NarrowPhase,
    h: (u32, u32),
) -> (r: bool)
    ensures
        r == active_contact_colliders_of(*n).contains(h),
{
    n.contact_pairs_with(rapier3d::geometry::ColliderHandle::from_raw_parts(h.0, h.1))
        .any(|pair| pair.has_any_active_contact())
}

/// Relies on rapier3d's `RigidBody::position` and glam's `Quat::to_euler`:
/// reads the body's pose as the six IEEE-754 bit patterns of its translation
/// and of its orientation's Euler angles (roll, pitch, yaw).
#[verifier::external_body]
pub(crate) fn read_body_pose_bits(s: &rapier3d::dynamics::RigidBodySet, h: (u32, u32)) -> (r: Vec<
    u32,
>)
    requires
        body_handles_of(*s).contains(h),
    ensures
        r@ == body_pose_bits_of(*s)[h],
        r@.len() == 6,
{
    let rb = s.get(rapier3d::dynamics::RigidBodyHandle::from_raw_parts(h.0, h.1)).unwrap();
    let t = rb.position().translation;
    let (yaw, pitch, roll) = rb.rotation().to_euler(rapier3d::math::glamx::EulerRot::ZYX);
    vec![t.x.to_bits(), t.y.to_bits(), t.z.to_bits(), roll.to_bits(), pitch.to_bits(), yaw.to_bits()]
}

/// Relies on std's `String::push`: appends one character.
pub assume_specification[ String::push ](s: &mut String, ch: char)
    ensures
        final(s)@ == old(s)@.push(ch),
;

} // verus!

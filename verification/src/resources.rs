//! The shared simulation resources: the two handle containers owning every
//! body and collider, and the physics resource owning the solver state.
//!
//! A library handle is a dense index into the container that issued it; the
//! container keeps, per index, the raw engine handle under which the engine
//! set holds the object. Objects are never removed, so a handle below the
//! container's length is valid forever — the well-formedness predicates below
//! say exactly that (and that raw handles are never shared between indices),
//! and every operation preserves them.

use vstd::prelude::*;

use crate::components::MilliVec3;
use crate::entities::ramp_profile_spec;
use crate::raw;

verus! {

/// The errors of this core. `InvalidParent` and `DanglingHandle` report a
/// broken handle and are fatal invariant violations for callers that keep the
/// spawner's insert-before-link discipline; `ColliderConstruction` reports
/// degenerate geometry handed to a convex-hull collider.
#[derive(Clone, Copy, PartialEq, Eq, Structural, Debug)]
pub enum PhysicsError {
    InvalidParent,
    DanglingHandle,
    ColliderConstruction,
}

/// Owns every rigid body of the simulation, keyed by dense library handles.
pub struct RigidBodyContainer {
    set: rapier3d::dynamics::RigidBodySet,
    handles: Vec<(u32, u32)>,
}

impl RigidBodyContainer {
    /// The engine body set this container owns.
    pub closed spec fn rapier_set(self) -> rapier3d::dynamics::RigidBodySet {
        self.set
    }

    /// The raw engine handle behind each library handle.
    pub closed spec fn raw_handles(self) -> Seq<(u32, u32)> {
        self.handles@
    }

    /// How many bodies the container holds.
    pub open spec fn spec_len(self) -> nat {
        self.raw_handles().len()
    }

    /// Every issued handle resolves in the engine set, and no two handles
    /// resolve to the same body.
    pub open spec fn wf(self) -> bool {
        &&& forall|i: int|
            0 <= i < self.raw_handles().len() ==> raw::body_handles_of(self.rapier_set()).contains(
                #[trigger] self.raw_handles()[i],
            )
        &&& forall|i: int, j: int|
            0 <= i < self.raw_handles().len() && 0 <= j < self.raw_handles().len() && i != j
                ==> #[trigger] self.raw_handles()[i] != #[trigger] self.raw_handles()[j]
    }

    /// The body behind handle `h` is fixed (static).
    pub open spec fn is_fixed(self, h: int) -> bool {
        raw::fixed_handles_of(self.rapier_set()).contains(self.raw_handles()[h])
    }

    /// The body behind handle `h` is dynamic.
    pub open spec fn is_dynamic(self, h: int) -> bool {
        raw::dynamic_handles_of(self.rapier_set()).contains(self.raw_handles()[h])
    }

    /// The pose of the body behind handle `h`, as its six IEEE-754 bit
    /// patterns (translation, then Euler angles).
    pub open spec fn pose_bits(self, h: int) -> Seq<u32> {
        raw::body_pose_bits_of(self.rapier_set())[self.raw_handles()[h]]
    }

    /// The velocity of the body behind handle `h`, as its six IEEE-754 bit
    /// patterns (linear, then angular).
    pub open spec fn velocity_bits(self, h: int) -> Seq<u32> {
        raw::body_velocity_bits_of(self.rapier_set())[self.raw_handles()[h]]
    }

    /// The orientation quaternion bits of the body behind handle `h`.
    pub open spec fn rotation_bits(self, h: int) -> Seq<u32> {
        raw::body_rotation_bits_of(self.rapier_set())[self.raw_handles()[h]]
    }

    /// The mass-properties bits of the body behind handle `h`.
    pub open spec fn mass_bits(self, h: int) -> Seq<u32> {
        raw::body_mass_bits_of(self.rapier_set())[self.raw_handles()[h]]
    }

    /// The damping-coefficient bits of the body behind handle `h`.
    pub open spec fn damping_bits(self, h: int) -> Seq<u32> {
        raw::body_damping_bits_of(self.rapier_set())[self.raw_handles()[h]]
    }

    /// All modeled per-body state of every handle below `n` is the same in
    /// both containers (the handles themselves included).
    pub open spec fn bodies_preserved(self, other: RigidBodyContainer, n: nat) -> bool {
        forall|i: int|
            0 <= i < n ==> #[trigger] other.raw_handles()[i] == self.raw_handles()[i]
                && other.is_fixed(i) == self.is_fixed(i) && other.is_dynamic(i) == self.is_dynamic(
                i,
            ) && other.pose_bits(i) == self.pose_bits(i) && other.velocity_bits(i)
                == self.velocity_bits(i) && other.rotation_bits(i) == self.rotation_bits(i)
                && other.mass_bits(i) == self.mass_bits(i) && other.damping_bits(i)
                == self.damping_bits(i)
    }

    pub fn len(&self) -> (n: usize)
        ensures
            n == self.spec_len(),
    {
        self.handles.len()
    }

    /// The raw engine handle behind a library handle, for embedding layers
    /// that query the engine directly.
    pub fn raw_handle(&self, h: usize) -> (r: (u32, u32))
        requires
            h < self.spec_len(),
        ensures
            r == self.raw_handles()[h as int],
    {
        self.handles[h]
    }

    /// A shared view of the engine set, for embedding layers and diagnostics.
    pub fn rapier(&self) -> (s: &rapier3d::dynamics::RigidBodySet)
        ensures
            *s == self.rapier_set(),
    {
        &self.set
    }

    /// Inserts a fixed (static) body at the given pose and returns its
    /// handle: a new body at rest whose translation decodes `pos`.
    pub fn insert_fixed_body(&mut self, pos: MilliVec3, rot: MilliVec3) -> (h: usize)
        requires
            old(self).wf(),
        ensures
            final(self).wf(),
            h == old(self).spec_len(),
            final(self).spec_len() == old(self).spec_len() + 1,
            old(self).bodies_preserved(*final(self), old(self).spec_len()),
            final(self).is_fixed(h as int),
            !final(self).is_dynamic(h as int),
            final(self).pose_bits(h as int).len() == 6,
            final(self).pose_bits(h as int).subrange(0, 3) == raw::translation_bits_of(pos),
            final(self).velocity_bits(h as int) == raw::zero_velocity_bits(),
            raw::fixed_handles_of(final(self).rapier_set()) == raw::fixed_handles_of(
                old(self).rapier_set(),
            ).insert(final(self).raw_handles()[h as int]),
            raw::dynamic_handles_of(final(self).rapier_set()) == raw::dynamic_handles_of(
                old(self).rapier_set(),
            ),
            raw::body_handles_of(final(self).rapier_set()) == raw::body_handles_of(
                old(self).rapier_set(),
            ).insert(final(self).raw_handles()[h as int]),
    {
        let h = self.handles.len();
        let r = raw::insert_fixed_body(&mut self.set, pos, rot);
        self.handles.push(r);
        proof {
            assert(self.raw_handles() == old(self).raw_handles().push(r));
            assert(self.raw_handles()[h as int] == r);
            self.lemma_insert_wf(*old(self), r);
        }
        h
    }

    /// Inserts a dynamic body at the given position, at rest, with the given
    /// additional mass and linear/angular damping, and returns its handle.
    pub fn insert_dynamic_body(
        &mut self,
        pos: MilliVec3,
        mass_milli: i64,
        linear_damping_milli: i64,
        angular_damping_milli: i64,
    ) -> (h: usize)
        requires
            old(self).wf(),
        ensures
            final(self).wf(),
            h == old(self).spec_len(),
            final(self).spec_len() == old(self).spec_len() + 1,
            old(self).bodies_preserved(*final(self), old(self).spec_len()),
            !final(self).is_fixed(h as int),
            final(self).is_dynamic(h as int),
            final(self).pose_bits(h as int).len() == 6,
            final(self).pose_bits(h as int).subrange(0, 3) == raw::translation_bits_of(pos),
            final(self).velocity_bits(h as int) == raw::zero_velocity_bits(),
            final(self).mass_bits(h as int) == raw::additional_mass_bits(mass_milli),
            final(self).damping_bits(h as int) == raw::damping_bits_of_milli(
                linear_damping_milli,
                angular_damping_milli,
            ),
            raw::fixed_handles_of(final(self).rapier_set()) == raw::fixed_handles_of(
                old(self).rapier_set(),
            ),
            raw::body_handles_of(final(self).rapier_set()) == raw::body_handles_of(
                old(self).rapier_set(),
            ).insert(final(self).raw_handles()[h as int]),
    {
        let h = self.handles.len();
        let r = raw::insert_dynamic_body(
            &mut self.set,
            pos,
            mass_milli,
            linear_damping_milli,
            angular_damping_milli,
        );
        self.handles.push(r);
        proof {
            assert(self.raw_handles() == old(self).raw_handles().push(r));
            assert(self.raw_handles()[h as int] == r);
            self.lemma_insert_wf(*old(self), r);
        }
        h
    }

    /// After pushing the fresh raw handle `r` — absent from the old engine
    /// set, which held every old handle — the container is well-formed again.
    proof fn lemma_insert_wf(self, prev: RigidBodyContainer, r: (u32, u32))
        requires
            prev.wf(),
            self.raw_handles() == prev.raw_handles().push(r),
            !raw::body_handles_of(prev.rapier_set()).contains(r),
            raw::body_handles_of(self.rapier_set()) == raw::body_handles_of(
                prev.rapier_set(),
            ).insert(r),
        ensures
            self.wf(),
    {
        assert forall|i: int| 0 <= i < self.raw_handles().len() implies raw::body_handles_of(
            self.rapier_set(),
        ).contains(self.raw_handles()[i]) by {
            if i < prev.spec_len() {
                assert(self.raw_handles()[i] == prev.raw_handles()[i]);
                assert(raw::body_handles_of(prev.rapier_set()).contains(prev.raw_handles()[i]));
            }
        }
        assert forall|i: int, j: int|
            0 <= i < self.raw_handles().len() && 0 <= j < self.raw_handles().len() && i != j implies
            self.raw_handles()[i] != self.raw_handles()[j] by {
            if i < prev.spec_len() && j < prev.spec_len() {
                assert(prev.raw_handles()[i] != prev.raw_handles()[j]);
            } else if i < prev.spec_len() {
                assert(raw::body_handles_of(prev.rapier_set()).contains(prev.raw_handles()[i]));
            } else {
                assert(raw::body_handles_of(prev.rapier_set()).contains(prev.raw_handles()[j]));
            }
        }
    }

    /// Resolves a handle to its body. A handle below the container's length
    /// always resolves; any other handle is dangling, an invariant violation
    /// reported as such to the caller.
    pub fn get(&self, h: usize) -> (r: Result<&rapier3d::dynamics::RigidBody, PhysicsError>)
        requires
            self.wf(),
        ensures
            r is Ok <==> h < self.spec_len(),
            r is Err ==> r == Err::<&rapier3d::dynamics::RigidBody, PhysicsError>(
                PhysicsError::DanglingHandle,
            ),
    {
        if h < self.handles.len() {
            proof {
                assert(raw::body_handles_of(self.rapier_set()).contains(
                    self.raw_handles()[h as int],
                ));
            }
            Ok(raw::get_body(&self.set, self.handles[h]))
        } else {
            Err(PhysicsError::DanglingHandle)
        }
    }

    /// Reads the pose of the body behind a handle as six IEEE-754 bit
    /// patterns: translation x, y, z, then Euler angles roll, pitch, yaw.
    pub fn read_pose_bits(&self, h: usize) -> (r: Vec<u32>)
        requires
            self.wf(),
            h < self.spec_len(),
        ensures
            r@ == self.pose_bits(h as int),
            r@.len() == 6,
    {
        proof {
            assert(raw::body_handles_of(self.rapier_set()).contains(self.raw_handles()[h as int]));
        }
        raw::read_body_pose_bits(&self.set, self.handles[h])
    }

    /// What the three velocity operations below leave of the container: the
    /// handles, every body's kind, pose, orientation, mass and damping, and
    /// the velocity of every body but the target.
    pub open spec fn velocity_op_preserved(self, other: RigidBodyContainer, h: int) -> bool {
        &&& other.raw_handles() == self.raw_handles()
        &&& raw::body_handles_of(other.rapier_set()) == raw::body_handles_of(self.rapier_set())
        &&& raw::fixed_handles_of(other.rapier_set()) == raw::fixed_handles_of(self.rapier_set())
        &&& raw::dynamic_handles_of(other.rapier_set()) == raw::dynamic_handles_of(
            self.rapier_set(),
        )
        &&& raw::body_pose_bits_of(other.rapier_set()) == raw::body_pose_bits_of(self.rapier_set())
        &&& raw::body_rotation_bits_of(other.rapier_set()) == raw::body_rotation_bits_of(
            self.rapier_set(),
        )
        &&& raw::body_mass_bits_of(other.rapier_set()) == raw::body_mass_bits_of(self.rapier_set())
        &&& raw::body_damping_bits_of(other.rapier_set()) == raw::body_damping_bits_of(
            self.rapier_set(),
        )
        &&& (forall|i: int|
            0 <= i < self.spec_len() && i != h ==> #[trigger] other.velocity_bits(i)
                == self.velocity_bits(i))
    }

    /// Rotates the given local-frame impulse into the world frame by the
    /// dynamic body's current orientation and applies it to the body behind
    /// `h`: its linear velocity gains the world impulse times the effective
    /// inverse mass; nothing else changes.
    pub fn apply_local_impulse(&mut self, h: usize, impulse_milli: MilliVec3)
        requires
            old(self).wf(),
            h < old(self).spec_len(),
            old(self).is_dynamic(h as int),
        ensures
            final(self).wf(),
            old(self).velocity_op_preserved(*final(self), h as int),
            final(self).velocity_bits(h as int) == raw::impulse_velocity_of(
                old(self).velocity_bits(h as int),
                old(self).rotation_bits(h as int),
                old(self).mass_bits(h as int),
                impulse_milli,
            ),
            final(self).velocity_bits(h as int).subrange(3, 6) == old(self).velocity_bits(
                h as int,
            ).subrange(3, 6),
    {
        proof {
            assert(raw::body_handles_of(self.rapier_set()).contains(self.raw_handles()[h as int]));
        }
        raw::apply_local_impulse(&mut self.set, self.handles[h], impulse_milli);
        proof {
            self.lemma_velocity_op(*old(self), h as int);
        }
    }

    /// Applies the given world-frame torque impulse to the dynamic body
    /// behind `h`: its angular velocity gains the torque times the effective
    /// world inverse inertia; nothing else changes.
    pub fn apply_torque_impulse(&mut self, h: usize, torque_milli: MilliVec3)
        requires
            old(self).wf(),
            h < old(self).spec_len(),
            old(self).is_dynamic(h as int),
        ensures
            final(self).wf(),
            old(self).velocity_op_preserved(*final(self), h as int),
            final(self).velocity_bits(h as int) == raw::torque_velocity_of(
                old(self).velocity_bits(h as int),
                old(self).rotation_bits(h as int),
                old(self).mass_bits(h as int),
                torque_milli,
            ),
            final(self).velocity_bits(h as int).subrange(0, 3) == old(self).velocity_bits(
                h as int,
            ).subrange(0, 3),
    {
        proof {
            assert(raw::body_handles_of(self.rapier_set()).contains(self.raw_handles()[h as int]));
        }
        raw::apply_torque_impulse(&mut self.set, self.handles[h], torque_milli);
        proof {
            self.lemma_velocity_op(*old(self), h as int);
        }
    }

    /// Scales the linear velocity of the dynamic body behind `h` by
    /// `factor_milli / 1000`, a damping factor at most one; its angular
    /// velocity and everything else are untouched.
    pub fn scale_linear_velocity(&mut self, h: usize, factor_milli: i64)
        requires
            old(self).wf(),
            h < old(self).spec_len(),
            old(self).is_dynamic(h as int),
            0 <= factor_milli <= 1000,
        ensures
            final(self).wf(),
            old(self).velocity_op_preserved(*final(self), h as int),
            final(self).velocity_bits(h as int) == raw::scaled_linvel_of(
                old(self).velocity_bits(h as int),
                factor_milli,
            ),
            final(self).velocity_bits(h as int).subrange(3, 6) == old(self).velocity_bits(
                h as int,
            ).subrange(3, 6),
    {
        proof {
            assert(raw::body_handles_of(self.rapier_set()).contains(self.raw_handles()[h as int]));
        }
        raw::scale_linear_velocity(&mut self.set, self.handles[h], factor_milli);
        proof {
            self.lemma_velocity_op(*old(self), h as int);
        }
    }

    /// After an engine call that satisfies `raw::velocity_op_effect` on the
    /// raw handle behind `h`, the container-level preservation facts hold.
    proof fn lemma_velocity_op(self, prev: RigidBodyContainer, h: int)
        requires
            prev.wf(),
            0 <= h < prev.spec_len(),
            self.raw_handles() == prev.raw_handles(),
            raw::velocity_op_effect(prev.rapier_set(), self.rapier_set(), prev.raw_handles()[h]),
        ensures
            self.wf(),
            prev.velocity_op_preserved(self, h),
    {
        assert forall|i: int| 0 <= i < self.raw_handles().len() implies raw::body_handles_of(
            self.rapier_set(),
        ).contains(self.raw_handles()[i]) by {
            assert(raw::body_handles_of(prev.rapier_set()).contains(prev.raw_handles()[i]));
        }
        assert forall|i: int| 0 <= i < prev.spec_len() && i != h implies #[trigger] self
            .velocity_bits(i) == prev.velocity_bits(i) by {
            assert(prev.raw_handles()[i] != prev.raw_handles()[h]);
        }
    }
}

impl Default for RigidBodyContainer {
    /// An empty container.
    fn default() -> (c: Self)
        ensures
            c.wf(),
            c.spec_len() == 0,
            raw::fixed_handles_of(c.rapier_set()) == Set::<(u32, u32)>::empty(),
            raw::dynamic_handles_of(c.rapier_set()) == Set::<(u32, u32)>::empty(),
    {
        RigidBodyContainer { set: raw::new_rigid_body_set(), handles: Vec::new() }
    }
}

/// Owns every collider of the simulation, keyed by dense library handles.
/// A collider is attached to its parent body at insertion, for good.
pub struct ColliderContainer {
    set: rapier3d::geometry::ColliderSet,
    handles: Vec<(u32, u32)>,
}

impl ColliderContainer {
    /// The engine collider set this container owns.
    pub closed spec fn rapier_set(self) -> rapier3d::geometry::ColliderSet {
        self.set
    }

    /// The raw engine handle behind each library handle.
    pub closed spec fn raw_handles(self) -> Seq<(u32, u32)> {
        self.handles@
    }

    /// How many colliders the container holds.
    pub open spec fn spec_len(self) -> nat {
        self.raw_handles().len()
    }

    /// Every issued handle resolves in the engine set, and no two handles
    /// resolve to the same collider.
    pub open spec fn wf(self) -> bool {
        &&& forall|i: int|
            0 <= i < self.raw_handles().len() ==> raw::collider_handles_of(
                self.rapier_set(),
            ).contains(#[trigger] self.raw_handles()[i])
        &&& forall|i: int, j: int|
            0 <= i < self.raw_handles().len() && 0 <= j < self.raw_handles().len() && i != j
                ==> #[trigger] self.raw_handles()[i] != #[trigger] self.raw_handles()[j]
    }

    /// The shape and material description of the collider behind handle `h`.
    pub open spec fn shape_bits(self, h: int) -> Seq<u32> {
        raw::collider_shape_bits_of(self.rapier_set())[self.raw_handles()[h]]
    }

    /// The raw handle of the body the collider behind `h` is attached to.
    pub open spec fn parent_raw(self, h: int) -> (u32, u32) {
        raw::collider_parent_of(self.rapier_set())[self.raw_handles()[h]]
    }

    /// Shape and parent of every handle below `n` are the same in both
    /// containers (the handles themselves included).
    pub open spec fn colliders_preserved(self, other: ColliderContainer, n: nat) -> bool {
        forall|i: int|
            0 <= i < n ==> #[trigger] other.raw_handles()[i] == self.raw_handles()[i]
                && other.shape_bits(i) == self.shape_bits(i) && other.parent_raw(i)
                == self.parent_raw(i)
    }

    pub fn len(&self) -> (n: usize)
        ensures
            n == self.spec_len(),
    {
        self.handles.len()
    }

    /// The raw engine handle behind a library handle, for embedding layers
    /// that query the engine directly.
    pub fn raw_handle(&self, h: usize) -> (r: (u32, u32))
        requires
            h < self.spec_len(),
        ensures
            r == self.raw_handles()[h as int],
    {
        self.handles[h]
    }

    /// A shared view of the engine set, for embedding layers and diagnostics.
    pub fn rapier(&self) -> (s: &rapier3d::geometry::ColliderSet)
        ensures
            *s == self.rapier_set(),
    {
        &self.set
    }

    /// What every successful attachment guarantees: the new collider stands
    /// at the end of the container, parented to `parent`'s body, everything
    /// already in either container untouched.
    pub open spec fn attached_one(
        self,  // old colliders
        colliders_new: ColliderContainer,
        bodies_old: RigidBodyContainer,
        bodies_new: RigidBodyContainer,
        h: nat,
        parent: nat,
    ) -> bool {
        &&& h == self.spec_len()
        &&& colliders_new.spec_len() == self.spec_len() + 1
        &&& self.colliders_preserved(colliders_new, self.spec_len())
        &&& colliders_new.parent_raw(h as int) == bodies_old.raw_handles()[parent as int]
        &&& bodies_new.raw_handles() == bodies_old.raw_handles()
        &&& raw::body_handles_of(bodies_new.rapier_set()) == raw::body_handles_of(
            bodies_old.rapier_set(),
        )
        &&& raw::fixed_handles_of(bodies_new.rapier_set()) == raw::fixed_handles_of(
            bodies_old.rapier_set(),
        )
        &&& raw::dynamic_handles_of(bodies_new.rapier_set()) == raw::dynamic_handles_of(
            bodies_old.rapier_set(),
        )
        &&& raw::body_pose_bits_of(bodies_new.rapier_set()) == raw::body_pose_bits_of(
            bodies_old.rapier_set(),
        )
        &&& raw::body_velocity_bits_of(bodies_new.rapier_set()) == raw::body_velocity_bits_of(
            bodies_old.rapier_set(),
        )
        &&& raw::body_rotation_bits_of(bodies_new.rapier_set()) == raw::body_rotation_bits_of(
            bodies_old.rapier_set(),
        )
        &&& raw::body_damping_bits_of(bodies_new.rapier_set()) == raw::body_damping_bits_of(
            bodies_old.rapier_set(),
        )
        &&& (forall|i: int|
            0 <= i < bodies_old.spec_len() && i != parent ==> #[trigger] bodies_new.mass_bits(i)
                == bodies_old.mass_bits(i))
        &&& bodies_new.mass_bits(parent as int) == raw::attached_mass_bits(
            bodies_old.mass_bits(parent as int),
            colliders_new.shape_bits(h as int),
        )
    }

    /// The attachment bookkeeping shared by the shaped inserts below.
    proof fn lemma_attach(
        self,
        prev: ColliderContainer,
        bodies: RigidBodyContainer,
        bodies_prev: RigidBodyContainer,
        r: (u32, u32),
        parent: int,
    )
        requires
            prev.wf(),
            bodies_prev.wf(),
            0 <= parent < bodies_prev.spec_len(),
            self.raw_handles() == prev.raw_handles().push(r),
            bodies.raw_handles() == bodies_prev.raw_handles(),
            raw::attach_effect(
                prev.rapier_set(),
                self.rapier_set(),
                bodies_prev.rapier_set(),
                bodies.rapier_set(),
                r,
                bodies_prev.raw_handles()[parent],
            ),
        ensures
            self.wf(),
            bodies.wf(),
            prev.attached_one(self, bodies_prev, bodies, prev.spec_len(), parent as nat),
    {
        assert(self.raw_handles()[prev.spec_len() as int] == r);
        assert forall|i: int| 0 <= i < self.raw_handles().len() implies raw::collider_handles_of(
            self.rapier_set(),
        ).contains(self.raw_handles()[i]) by {
            if i < prev.spec_len() {
                assert(self.raw_handles()[i] == prev.raw_handles()[i]);
                assert(raw::collider_handles_of(prev.rapier_set()).contains(
                    prev.raw_handles()[i],
                ));
            }
        }
        assert forall|i: int, j: int|
            0 <= i < self.raw_handles().len() && 0 <= j < self.raw_handles().len() && i != j implies
            self.raw_handles()[i] != self.raw_handles()[j] by {
            if i < prev.spec_len() && j < prev.spec_len() {
                assert(prev.raw_handles()[i] != prev.raw_handles()[j]);
            } else if i < prev.spec_len() {
                assert(raw::collider_handles_of(prev.rapier_set()).contains(
                    prev.raw_handles()[i],
                ));
            } else {
                assert(raw::collider_handles_of(prev.rapier_set()).contains(
                    prev.raw_handles()[j],
                ));
            }
        }
        assert forall|i: int| 0 <= i < bodies.raw_handles().len() implies raw::body_handles_of(
            bodies.rapier_set(),
        ).contains(bodies.raw_handles()[i]) by {
            assert(raw::body_handles_of(bodies_prev.rapier_set()).contains(
                bodies_prev.raw_handles()[i],
            ));
        }
        assert forall|i: int| 0 <= i < prev.spec_len() implies #[trigger] self.raw_handles()[i]
            == prev.raw_handles()[i] && self.shape_bits(i) == prev.shape_bits(i) && self.parent_raw(
            i,
        ) == prev.parent_raw(i) by {
            assert(raw::collider_handles_of(prev.rapier_set()).contains(prev.raw_handles()[i]));
        }
        assert forall|i: int|
            0 <= i < bodies_prev.spec_len() && i != parent implies #[trigger] bodies.mass_bits(i)
            == bodies_prev.mass_bits(i) by {
            assert(bodies_prev.raw_handles()[i] != bodies_prev.raw_handles()[parent]);
        }
    }

    /// Attaches a box collider with the given half-extents, friction and
    /// restitution to the body behind `parent`. Fails with `InvalidParent`,
    /// changing nothing, exactly when no such body exists.
    pub fn insert_cuboid(
        &mut self,
        half: MilliVec3,
        friction_milli: i64,
        restitution_milli: i64,
        parent: usize,
        bodies: &mut RigidBodyContainer,
    ) -> (r: Result<usize, PhysicsError>)
        requires
            old(self).wf(),
            old(bodies).wf(),
            0 < half.x && 0 < half.y && 0 < half.z,
            0 <= friction_milli,
            0 <= restitution_milli,
        ensures
            final(self).wf(),
            final(bodies).wf(),
            r is Ok <==> parent < old(bodies).spec_len(),
            match r {
                Ok(h) => {
                    &&& old(self).attached_one(
                        *final(self),
                        *old(bodies),
                        *final(bodies),
                        h as nat,
                        parent as nat,
                    )
                    &&& final(self).shape_bits(h as int) == raw::cuboid_shape_bits(
                        half,
                        friction_milli,
                        restitution_milli,
                    )
                },
                Err(e) => {
                    &&& e == PhysicsError::InvalidParent
                    &&& *final(self) == *old(self)
                    &&& *final(bodies) == *old(bodies)
                },
            },
    {
        if parent < bodies.handles.len() {
            proof {
                assert(raw::body_handles_of(bodies.rapier_set()).contains(
                    bodies.raw_handles()[parent as int],
                ));
            }
            let h = self.handles.len();
            let r = raw::insert_cuboid_collider(
                &mut self.set,
                half,
                friction_milli,
                restitution_milli,
                bodies.handles[parent],
                &mut bodies.set,
            );
            self.handles.push(r);
            proof {
                self.lemma_attach(*old(self), *bodies, *old(bodies), r, parent as int);
            }
            Ok(h)
        } else {
            Err(PhysicsError::InvalidParent)
        }
    }

    /// Attaches a convex-hull collider over the given points to the body
    /// behind `parent`. Fails with `InvalidParent` when no such body exists,
    /// and with `ColliderConstruction` when the points admit no hull — on
    /// the fixed ramp wedge profile it always succeeds. On failure nothing
    /// changes.
    pub fn insert_hull(
        &mut self,
        points: &Vec<MilliVec3>,
        parent: usize,
        bodies: &mut RigidBodyContainer,
    ) -> (r: Result<usize, PhysicsError>)
        requires
            old(self).wf(),
            old(bodies).wf(),
        ensures
            final(self).wf(),
            final(bodies).wf(),
            parent < old(bodies).spec_len() && points@ =~= ramp_profile_spec() ==> r is Ok,
            match r {
                Ok(h) => {
                    &&& parent < old(bodies).spec_len()
                    &&& old(self).attached_one(
                        *final(self),
                        *old(bodies),
                        *final(bodies),
                        h as nat,
                        parent as nat,
                    )
                    &&& final(self).shape_bits(h as int) == raw::hull_shape_bits(points@)
                },
                Err(e) => {
                    &&& (e == PhysicsError::InvalidParent <==> parent >= old(bodies).spec_len())
                    &&& (e == PhysicsError::InvalidParent || e
                        == PhysicsError::ColliderConstruction)
                    &&& *final(self) == *old(self)
                    &&& *final(bodies) == *old(bodies)
                },
            },
    {
        if parent < bodies.handles.len() {
            proof {
                assert(raw::body_handles_of(bodies.rapier_set()).contains(
                    bodies.raw_handles()[parent as int],
                ));
            }
            let h = self.handles.len();
            match raw::insert_hull_collider(
                &mut self.set,
                points,
                bodies.handles[parent],
                &mut bodies.set,
            ) {
                Some(r) => {
                    self.handles.push(r);
                    proof {
                        self.lemma_attach(*old(self), *bodies, *old(bodies), r, parent as int);
                    }
                    Ok(h)
                },
                None => Err(PhysicsError::ColliderConstruction),
            }
        } else {
            Err(PhysicsError::InvalidParent)
        }
    }

    /// Attaches a heightfield collider over a column-major `nrows` x `ncols`
    /// grid of milli-unit elevation samples, at the given scale, to the body
    /// behind `parent`. Fails with `InvalidParent`, changing nothing,
    /// exactly when no such body exists.
    pub fn insert_heightfield(
        &mut self,
        nrows: usize,
        ncols: usize,
        heights_milli: &Vec<i64>,
        scale: MilliVec3,
        parent: usize,
        bodies: &mut RigidBodyContainer,
    ) -> (r: Result<usize, PhysicsError>)
        requires
            old(self).wf(),
            old(bodies).wf(),
            2 <= nrows,
            2 <= ncols,
            heights_milli@.len() == nrows * ncols,
        ensures
            final(self).wf(),
            final(bodies).wf(),
            r is Ok <==> parent < old(bodies).spec_len(),
            match r {
                Ok(h) => {
                    &&& old(self).attached_one(
                        *final(self),
                        *old(bodies),
                        *final(bodies),
                        h as nat,
                        parent as nat,
                    )
                    &&& final(self).shape_bits(h as int) == raw::heightfield_shape_bits(
                        nrows as int,
                        ncols as int,
                        heights_milli@,
                        scale,
                    )
                },
                Err(e) => {
                    &&& e == PhysicsError::InvalidParent
                    &&& *final(self) == *old(self)
                    &&& *final(bodies) == *old(bodies)
                },
            },
    {
        if parent < bodies.handles.len() {
            proof {
                assert(raw::body_handles_of(bodies.rapier_set()).contains(
                    bodies.raw_handles()[parent as int],
                ));
            }
            let h = self.handles.len();
            let r = raw::insert_heightfield_collider(
                &mut self.set,
                nrows,
                ncols,
                heights_milli,
                scale,
                bodies.handles[parent],
                &mut bodies.set,
            );
            self.handles.push(r);
            proof {
                self.lemma_attach(*old(self), *bodies, *old(bodies), r, parent as int);
            }
            Ok(h)
        } else {
            Err(PhysicsError::InvalidParent)
        }
    }

    /// Inserts an already-built collider attached to the body behind
    /// `parent` (its shape description is then whatever that collider
    /// holds). Fails with `InvalidParent`, changing nothing, exactly when no
    /// such body exists.
    pub fn insert_collider(
        &mut self,
        collider: rapier3d::geometry::Collider,
        parent: usize,
        bodies: &mut RigidBodyContainer,
    ) -> (r: Result<usize, PhysicsError>)
        requires
            old(self).wf(),
            old(bodies).wf(),
        ensures
            final(self).wf(),
            final(bodies).wf(),
            r is Ok <==> parent < old(bodies).spec_len(),
            match r {
                Ok(h) => old(self).attached_one(
                    *final(self),
                    *old(bodies),
                    *final(bodies),
                    h as nat,
                    parent as nat,
                ),
                Err(e) => {
                    &&& e == PhysicsError::InvalidParent
                    &&& *final(self) == *old(self)
                    &&& *final(bodies) == *old(bodies)
                },
            },
    {
        if parent < bodies.handles.len() {
            proof {
                assert(raw::body_handles_of(bodies.rapier_set()).contains(
                    bodies.raw_handles()[parent as int],
                ));
            }
            let h = self.handles.len();
            let r = raw::insert_collider_with_parent(
                &mut self.set,
                collider,
                bodies.handles[parent],
                &mut bodies.set,
            );
            self.handles.push(r);
            proof {
                self.lemma_attach(*old(self), *bodies, *old(bodies), r, parent as int);
            }
            Ok(h)
        } else {
            Err(PhysicsError::InvalidParent)
        }
    }

    /// Resolves a handle to its collider. A handle below the container's
    /// length always resolves; any other handle is dangling.
    pub fn get(&self, h: usize) -> (r: Result<&rapier3d::geometry::Collider, PhysicsError>)
        requires
            self.wf(),
        ensures
            r is Ok <==> h < self.spec_len(),
            r is Err ==> r == Err::<&rapier3d::geometry::Collider, PhysicsError>(
                PhysicsError::DanglingHandle,
            ),
    {
        if h < self.handles.len() {
            proof {
                assert(raw::collider_handles_of(self.rapier_set()).contains(
                    self.raw_handles()[h as int],
                ));
            }
            Ok(raw::get_collider(&self.set, self.handles[h]))
        } else {
            Err(PhysicsError::DanglingHandle)
        }
    }
}

impl Default for ColliderContainer {
    /// An empty container.
    fn default() -> (c: Self)
        ensures
            c.wf(),
            c.spec_len() == 0,
    {
        ColliderContainer { set: raw::new_collider_set(), handles: Vec::new() }
    }
}

/// Owns the numerical solver state: integration parameters, gravity, and the
/// engine's broad-phase, narrow-phase, island, joint, and CCD structures. It
/// holds no entity or component data and lives for the whole simulation.
pub struct PhysicsResource {
    pipeline: rapier3d::pipeline::PhysicsPipeline,
    islands: rapier3d::dynamics::IslandManager,
    broad_phase: rapier3d::geometry::BroadPhaseBvh,
    narrow_phase: rapier3d::geometry::NarrowPhase,
    impulse_joints: rapier3d::dynamics::ImpulseJointSet,
    multibody_joints: rapier3d::dynamics::MultibodyJointSet,
    soft_bodies: rapier3d::dynamics::SoftBodySet,
    ccd_solver: rapier3d::dynamics::CCDSolver,
    params: rapier3d::dynamics::IntegrationParameters,
    gravity_milli: MilliVec3,
}

/// The world's gravity, in milli units per second squared: straight down at
/// 9.822 m/s^2.
pub open spec fn standard_gravity_milli() -> MilliVec3 {
    MilliVec3 { x: 0i64, y: -9822i64, z: 0i64 }
}

impl PhysicsResource {
    /// The narrow phase holding the current contact information.
    pub closed spec fn narrow_spec(self) -> rapier3d::geometry::NarrowPhase {
        self.narrow_phase
    }

    /// The gravity this resource steps under, in milli units.
    pub closed spec fn gravity_spec(self) -> MilliVec3 {
        self.gravity_milli
    }

    /// Advances every dynamic body by exactly one fixed timestep and rebuilds
    /// the contact information, which stays valid until the next step. Fixed
    /// bodies never move; no body or collider is created or removed, and no
    /// body's kind, mass, damping, or collider's shape or parent changes.
    pub fn step(&mut self, bodies: &mut RigidBodyContainer, colliders: &mut ColliderContainer)
        requires
            old(bodies).wf(),
            old(colliders).wf(),
        ensures
            final(bodies).wf(),
            final(colliders).wf(),
            final(bodies).raw_handles() == old(bodies).raw_handles(),
            final(colliders).raw_handles() == old(colliders).raw_handles(),
            raw::body_handles_of(final(bodies).rapier_set()) == raw::body_handles_of(
                old(bodies).rapier_set(),
            ),
            raw::fixed_handles_of(final(bodies).rapier_set()) == raw::fixed_handles_of(
                old(bodies).rapier_set(),
            ),
            raw::dynamic_handles_of(final(bodies).rapier_set()) == raw::dynamic_handles_of(
                old(bodies).rapier_set(),
            ),
            raw::body_mass_bits_of(final(bodies).rapier_set()) == raw::body_mass_bits_of(
                old(bodies).rapier_set(),
            ),
            raw::body_damping_bits_of(final(bodies).rapier_set()) == raw::body_damping_bits_of(
                old(bodies).rapier_set(),
            ),
            raw::collider_handles_of(final(colliders).rapier_set()) == raw::collider_handles_of(
                old(colliders).rapier_set(),
            ),
            raw::collider_shape_bits_of(final(colliders).rapier_set())
                == raw::collider_shape_bits_of(old(colliders).rapier_set()),
            raw::collider_parent_of(final(colliders).rapier_set()) == raw::collider_parent_of(
                old(colliders).rapier_set(),
            ),
            forall|i: int|
                0 <= i < old(bodies).spec_len() && old(bodies).is_fixed(i)
                    ==> final(bodies).pose_bits(i) == old(bodies).pose_bits(i),
            final(self).gravity_spec() == old(self).gravity_spec(),
    {
        raw::step_pipeline(
            &mut self.pipeline,
            self.gravity_milli,
            &self.params,
            &mut self.islands,
            &mut self.broad_phase,
            &mut self.narrow_phase,
            &mut bodies.set,
            &mut colliders.set,
            &mut self.impulse_joints,
            &mut self.multibody_joints,
            &mut self.soft_bodies,
            &mut self.ccd_solver,
        );
        proof {
            assert forall|i: int| 0 <= i < bodies.raw_handles().len() implies raw::body_handles_of(
                bodies.rapier_set(),
            ).contains(bodies.raw_handles()[i]) by {
                assert(raw::body_handles_of(old(bodies).rapier_set()).contains(
                    old(bodies).raw_handles()[i],
                ));
            }
            assert forall|i: int| 0 <= i < colliders.raw_handles().len() implies
                raw::collider_handles_of(colliders.rapier_set()).contains(
                colliders.raw_handles()[i],
            ) by {
                assert(raw::collider_handles_of(old(colliders).rapier_set()).contains(
                    old(colliders).raw_handles()[i],
                ));
            }
            assert forall|i: int, j: int|
                0 <= i < bodies.raw_handles().len() && 0 <= j < bodies.raw_handles().len() && i
                    != j implies #[trigger] bodies.raw_handles()[i] != #[trigger] bodies
                .raw_handles()[j] by {
                assert(old(bodies).raw_handles()[i] != old(bodies).raw_handles()[j]);
            }
            assert forall|i: int, j: int|
                0 <= i < colliders.raw_handles().len() && 0 <= j < colliders.raw_handles().len()
                    && i != j implies #[trigger] colliders.raw_handles()[i] != #[trigger] colliders
                .raw_handles()[j] by {
                assert(old(colliders).raw_handles()[i] != old(colliders).raw_handles()[j]);
            }
        }
    }

    /// Whether the collider behind `h` currently has at least one active
    /// contact — actual touching, not mere bounding-volume proximity.
    pub fn collider_touches_anything(&self, colliders: &ColliderContainer, h: usize) -> (r: bool)
        requires
            h < colliders.spec_len(),
        ensures
            r == raw::active_contact_colliders_of(self.narrow_spec()).contains(
                colliders.raw_handles()[h as int],
            ),
    {
        raw::collider_has_active_contacts(&self.narrow_phase, colliders.handles[h])
    }
}

impl Default for PhysicsResource {
    /// A fresh solver context under standard gravity, with empty contact
    /// information.
    fn default() -> (r: Self)
        ensures
            r.gravity_spec() == standard_gravity_milli(),
            raw::active_contact_colliders_of(r.narrow_spec()) == Set::<(u32, u32)>::empty(),
    {
        PhysicsResource {
            pipeline: raw::new_physics_pipeline(),
            islands: raw::new_island_manager(),
            broad_phase: raw::new_broad_phase(),
            narrow_phase: raw::new_narrow_phase(),
            impulse_joints: raw::new_impulse_joint_set(),
            multibody_joints: raw::new_multibody_joint_set(),
            soft_bodies: raw::new_soft_body_set(),
            ccd_solver: raw::new_ccd_solver(),
            params: raw::default_integration_parameters(),
            gravity_milli: MilliVec3 { x: 0, y: -9822, z: 0 },
        }
    }
}

/// Creates the three simulation resources a fresh world starts from.
pub fn insert_resources() -> (r: (RigidBodyContainer, ColliderContainer, PhysicsResource))
    ensures
        r.0.wf(),
        r.0.spec_len() == 0,
        raw::fixed_handles_of(r.0.rapier_set()) == Set::<(u32, u32)>::empty(),
        raw::dynamic_handles_of(r.0.rapier_set()) == Set::<(u32, u32)>::empty(),
        r.1.wf(),
        r.1.spec_len() == 0,
        r.2.gravity_spec() == standard_gravity_milli(),
        raw::active_contact_colliders_of(r.2.narrow_spec()) == Set::<(u32, u32)>::empty(),
{
    (RigidBodyContainer::default(), ColliderContainer::default(), PhysicsResource::default())
}

} // verus!

//! The component records attached to entities, and the integer 3-vector in
//! which the library keeps every world-space quantity.

use vstd::prelude::*;

verus! {

/// A 3-vector in integer thousandths of a world unit. The trusted boundary
/// converts such values to the physics engine's floating-point scalars; the
/// verified code never handles a float.
#[derive(Clone, Copy, PartialEq, Eq, Structural, Debug)]
pub struct MilliVec3 {
    pub x: i64,
    pub y: i64,
    pub z: i64,
}

impl MilliVec3 {
    pub fn new(x: i64, y: i64, z: i64) -> (v: MilliVec3)
        ensures
            v == (MilliVec3 { x, y, z }),
    {
        MilliVec3 { x, y, z }
    }

    /// The origin.
    pub fn zero() -> (v: MilliVec3)
        ensures
            v == (MilliVec3 { x: 0i64, y: 0i64, z: 0i64 }),
    {
        MilliVec3 { x: 0, y: 0, z: 0 }
    }
}

/// Whether a body's position is expected to change every frame (`Dynamic`) or
/// never (`Static`). Read by consumers presenting state, not by the simulation.
#[derive(Clone, Copy, PartialEq, Eq, Structural, Debug)]
pub enum PhysicsType {
    Static,
    Dynamic,
}

/// Links an entity to its physics objects: one body handle and the handles of
/// the colliders attached to that body, all keys into the handle containers.
/// The component never owns the physics objects, only references them.
#[derive(Clone, Debug)]
pub struct PhysicsObject {
    pub object_type: PhysicsType,
    pub rigidbody: usize,
    pub colliders: Vec<usize>,
}

impl PhysicsObject {
    /// Every handle of this link resolves inside containers holding
    /// `n_bodies` bodies and `n_colliders` colliders.
    pub open spec fn in_bounds(self, n_bodies: nat, n_colliders: nat) -> bool {
        &&& self.rigidbody < n_bodies
        &&& forall|j: int| 0 <= j < self.colliders@.len() ==> self.colliders@[j] < n_colliders
    }
}

/// Marks the user-controlled vehicle and carries its latest grounded state.
#[derive(Clone, Copy, PartialEq, Eq, Structural, Debug)]
pub struct PlayerCar {
    pub touching_ground: bool,
}

/// Collider handles of a purely static decoration; registered for parity with
/// the other components though nothing attaches it yet.
#[derive(Clone, Debug)]
pub struct StaticObject {
    pub colliders: Vec<usize>,
}

/// A short fixed-capacity label identifying an entity for diagnostics/UI.
#[derive(Clone, Copy, Debug)]
pub struct ModelName {
    pub name: [char; 5],
}

} // verus!

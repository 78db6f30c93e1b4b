use vstd::prelude::*;

use crate::config::Config;

verus! {

/// Linear and angular velocity.
#[derive(Clone, Copy, Debug, PartialEq)]
pub struct Velocity<C: Config> {
    pub linear: C::Lin,
    pub angular: C::Ang,
}

/// Position and orientation.
#[derive(Clone, Copy, Debug, PartialEq)]
pub struct Pose<C: Config> {
    pub position: C::Lin,
    pub rotation: C::Rot,
}

/// Inverse mass and inverse inertia of a body. A well-formed body has a
/// positive mass and an invertible inertia; that is the creator's duty and is
/// not checked here.
#[derive(Clone, Copy, Debug, PartialEq)]
pub struct Mass<C: Config> {
    pub inverse_mass: i64,
    pub inverse_inertia: C::InvInertia,
}

/// Force and torque gathered against a body during the current tick.
#[derive(Clone, Copy, Debug, PartialEq)]
pub struct ForceAccumulator<C: Config> {
    pub force: C::Lin,
    pub torque: C::Ang,
}

/// Simulation-wide parameters, read-only during a tick. The ambient
/// acceleration is the only world-wide term: no damping is applied.
#[derive(Clone, Copy, Debug, PartialEq)]
pub struct WorldParameters<C: Config> {
    pub gravity: C::Lin,
}

/// An empty accumulator.
pub open spec fn zero_forces<C: Config>() -> ForceAccumulator<C> {
    ForceAccumulator { force: C::lin_zero(), torque: C::ang_zero() }
}

/// Per-entity storages: entity `e` owns slot `e` of each one, and a `None`
/// slot is a component that the entity does not carry.
pub struct World<C: Config> {
    /// Whether the entity is a dynamic body.
    pub dynamic: Vec<bool>,
    pub masses: Vec<Option<Mass<C>>>,
    /// Current, committed poses.
    pub poses: Vec<Option<Pose<C>>>,
    pub next_velocities: Vec<Option<Velocity<C>>>,
    pub next_poses: Vec<Option<Pose<C>>>,
    pub forces: Vec<Option<ForceAccumulator<C>>>,
}

impl<C: Config> World<C> {
    /// Number of entity slots.
    pub open spec fn len(&self) -> nat {
        self.dynamic@.len()
    }

    /// Every storage has one slot per entity.
    pub open spec fn wf(&self) -> bool {
        &&& self.masses@.len() == self.len()
        &&& self.poses@.len() == self.len()
        &&& self.next_velocities@.len() == self.len()
        &&& self.next_poses@.len() == self.len()
        &&& self.forces@.len() == self.len()
    }

    /// Entity `i` takes part in force integration.
    pub open spec fn force_eligible(&self, i: int) -> bool {
        &&& self.dynamic@[i]
        &&& self.masses@[i] is Some
        &&& self.poses@[i] is Some
        &&& self.next_velocities@[i] is Some
        &&& self.forces@[i] is Some
    }

    /// Entity `i` takes part in pose integration.
    pub open spec fn pose_eligible(&self, i: int) -> bool {
        &&& self.dynamic@[i]
        &&& self.next_velocities@[i] is Some
        &&& self.poses@[i] is Some
        &&& self.next_poses@[i] is Some
    }

    /// A world with `n` entities and no components.
    pub fn new(n: usize) -> (w: Self)
        ensures
            w.wf(),
            w.len() == n,
            forall|i: int| 0 <= i < n ==> !w.dynamic@[i] && w.masses@[i] is None && w.poses@[i] is None
                && w.next_velocities@[i] is None && w.next_poses@[i] is None && w.forces@[i] is None,
    {
        let mut w = World {
            dynamic: Vec::new(),
            masses: Vec::new(),
            poses: Vec::new(),
            next_velocities: Vec::new(),
            next_poses: Vec::new(),
            forces: Vec::new(),
        };
        let mut k: usize = 0;
        while k < n
            invariant
                k <= n,
                w.wf(),
                w.len() == k,
                forall|i: int| 0 <= i < k ==> !w.dynamic@[i] && w.masses@[i] is None && w.poses@[i] is None
                    && w.next_velocities@[i] is None && w.next_poses@[i] is None && w.forces@[i] is None,
            decreases n - k,
        {
            w.dynamic.push(false);
            w.masses.push(None);
            w.poses.push(None);
            w.next_velocities.push(None);
            w.next_poses.push(None);
            w.forces.push(None);
            k = k + 1;
        }
        w
    }
}

} // verus!

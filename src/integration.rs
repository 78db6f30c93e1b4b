use vstd::prelude::*;

use crate::components::{zero_forces, ForceAccumulator, Pose, Velocity, World, WorldParameters};
use crate::config::Config;

verus! {

/// The next-frame velocity of force-eligible entity `i` after one
/// semi-implicit Euler step: force over mass plus ambient acceleration, and
/// inverse inertia applied to torque, each over `dt`, added to the velocity
/// last written in its next-frame slot.
pub open spec fn stepped_velocity<C: Config>(
    w: World<C>,
    i: int,
    params: WorldParameters<C>,
    dt: i64,
) -> Velocity<C> {
    let v = w.next_velocities@[i].unwrap();
    let f = w.forces@[i].unwrap();
    let m = w.masses@[i].unwrap();
    Velocity {
        linear: C::lin_step(v.linear, f.force, m.inverse_mass, params.gravity, dt),
        angular: C::ang_step(v.angular, m.inverse_inertia, f.torque, dt),
    }
}

/// The force step of entity `i` fits the machine integers.
pub open spec fn force_fits<C: Config>(w: World<C>, i: int, params: WorldParameters<C>, dt: i64) -> bool {
    let v = w.next_velocities@[i].unwrap();
    let f = w.forces@[i].unwrap();
    let m = w.masses@[i].unwrap();
    &&& C::lin_step_fits(v.linear, f.force, m.inverse_mass, params.gravity, dt)
    &&& C::ang_step_fits(v.angular, m.inverse_inertia, f.torque, dt)
}

/// The next-frame pose of pose-eligible entity `i`: its current pose advanced
/// by its next-frame velocity over `dt`.
pub open spec fn advanced_pose<C: Config>(w: World<C>, i: int, dt: i64) -> Pose<C> {
    let v = w.next_velocities@[i].unwrap();
    let p = w.poses@[i].unwrap();
    Pose { position: C::advance(p.position, v.linear, dt), rotation: C::turn(p.rotation, v.angular, dt) }
}

/// The pose step of entity `i` fits the machine integers.
pub open spec fn pose_fits<C: Config>(w: World<C>, i: int, dt: i64) -> bool {
    let v = w.next_velocities@[i].unwrap();
    let p = w.poses@[i].unwrap();
    C::advance_fits(p.position, v.linear, dt) && C::turn_fits(p.rotation, v.angular, dt)
}

/// Every force-eligible entity's step fits.
pub open spec fn forces_fit<C: Config>(w: World<C>, params: WorldParameters<C>, dt: i64) -> bool {
    forall|i: int| 0 <= i < w.len() && #[trigger] w.force_eligible(i) ==> force_fits(w, i, params, dt)
}

/// Every pose-eligible entity's step fits.
pub open spec fn poses_fit<C: Config>(w: World<C>, dt: i64) -> bool {
    forall|i: int| 0 <= i < w.len() && #[trigger] w.pose_eligible(i) ==> pose_fits(w, i, dt)
}

/// What the force phase leaves: `post` is `pre` with every force-eligible
/// entity's next-frame velocity stepped and its accumulator emptied, and
/// nothing else changed.
pub open spec fn force_phase_done<C: Config>(
    pre: World<C>,
    post: World<C>,
    params: WorldParameters<C>,
    dt: i64,
) -> bool {
    &&& post.wf()
    &&& post.dynamic@ == pre.dynamic@
    &&& post.masses@ == pre.masses@
    &&& post.poses@ == pre.poses@
    &&& post.next_poses@ == pre.next_poses@
    &&& post.next_velocities@.len() == pre.len()
    &&& post.forces@.len() == pre.len()
    &&& forall|i: int|
        0 <= i < pre.len() ==> if #[trigger] pre.force_eligible(i) {
            &&& post.next_velocities@[i] == Some(stepped_velocity(pre, i, params, dt))
            &&& post.forces@[i] == Some(zero_forces::<C>())
        } else {
            &&& post.next_velocities@[i] == pre.next_velocities@[i]
            &&& post.forces@[i] == pre.forces@[i]
        }
}

/// What the pose phase leaves: `post` is `pre` with every pose-eligible
/// entity's next-frame pose advanced, and nothing else changed.
pub open spec fn pose_phase_done<C: Config>(pre: World<C>, post: World<C>, dt: i64) -> bool {
    &&& post.wf()
    &&& post.dynamic@ == pre.dynamic@
    &&& post.masses@ == pre.masses@
    &&& post.poses@ == pre.poses@
    &&& post.next_velocities@ == pre.next_velocities@
    &&& post.forces@ == pre.forces@
    &&& post.next_poses@.len() == pre.len()
    &&& forall|i: int|
        0 <= i < pre.len() ==> if #[trigger] pre.pose_eligible(i) {
            post.next_poses@[i] == Some(advanced_pose(pre, i, dt))
        } else {
            post.next_poses@[i] == pre.next_poses@[i]
        }
}

/// Force phase: folds each eligible entity's accumulated force and torque,
/// its mass and inertia, and the ambient acceleration into its next-frame
/// velocity, then empties its accumulator. Other entities are left alone.
pub fn next_frame_integration<C: Config>(world: &mut World<C>, params: &WorldParameters<C>, dt: i64)
    requires
        old(world).wf(),
        forces_fit(*old(world), *params, dt),
    ensures
        force_phase_done(*old(world), *final(world), *params, dt),
{
    let n = world.dynamic.len();
    let mut i: usize = 0;
    while i < n
        invariant
            n == old(world).len(),
            i <= n,
            world.wf(),
            world.dynamic@ == old(world).dynamic@,
            world.masses@ == old(world).masses@,
            world.poses@ == old(world).poses@,
            world.next_poses@ == old(world).next_poses@,
            forces_fit(*old(world), *params, dt),
            forall|j: int|
                0 <= j < i ==> if #[trigger] old(world).force_eligible(j) {
                    &&& world.next_velocities@[j] == Some(stepped_velocity(*old(world), j, *params, dt))
                    &&& world.forces@[j] == Some(zero_forces::<C>())
                } else {
                    &&& world.next_velocities@[j] == old(world).next_velocities@[j]
                    &&& world.forces@[j] == old(world).forces@[j]
                },
            forall|j: int|
                i <= j < n ==> world.next_velocities@[j] == old(world).next_velocities@[j]
                    && world.forces@[j] == old(world).forces@[j],
        decreases n - i,
    {
        if world.dynamic[i] && world.poses[i].is_some() {
            if let Some(m) = &world.masses[i] {
                if let Some(v) = &world.next_velocities[i] {
                    if let Some(f) = &world.forces[i] {
                        assert(old(world).force_eligible(i as int));
                        let linear = C::integrate_linear(v.linear, f.force, m.inverse_mass, params.gravity, dt);
                        let angular = C::integrate_angular(v.angular, m.inverse_inertia, f.torque, dt);
                        let cleared = ForceAccumulator { force: C::zero_linear(), torque: C::zero_angular() };
                        world.next_velocities.set(i, Some(Velocity { linear, angular }));
                        world.forces.set(i, Some(cleared));
                    }
                }
            }
        }
        i = i + 1;
    }
}

/// Pose phase: advances each eligible entity's current pose by its
/// next-frame velocity over `dt` and writes the result as its next-frame
/// pose. Other entities are left alone.
pub fn next_frame_pose<C: Config>(world: &mut World<C>, dt: i64)
    requires
        old(world).wf(),
        poses_fit(*old(world), dt),
    ensures
        pose_phase_done(*old(world), *final(world), dt),
{
    let n = world.dynamic.len();
    let mut i: usize = 0;
    while i < n
        invariant
            n == old(world).len(),
            i <= n,
            world.wf(),
            world.dynamic@ == old(world).dynamic@,
            world.masses@ == old(world).masses@,
            world.poses@ == old(world).poses@,
            world.next_velocities@ == old(world).next_velocities@,
            world.forces@ == old(world).forces@,
            poses_fit(*old(world), dt),
            forall|j: int|
                0 <= j < i ==> if #[trigger] old(world).pose_eligible(j) {
                    world.next_poses@[j] == Some(advanced_pose(*old(world), j, dt))
                } else {
                    world.next_poses@[j] == old(world).next_poses@[j]
                },
            forall|j: int| i <= j < n ==> world.next_poses@[j] == old(world).next_poses@[j],
        decreases n - i,
    {
        if world.dynamic[i] && world.next_poses[i].is_some() {
            if let Some(v) = &world.next_velocities[i] {
                if let Some(p) = &world.poses[i] {
                    assert(old(world).pose_eligible(i as int));
                    let position = C::advance_position(p.position, v.linear, dt);
                    let rotation = C::advance_orientation(p.rotation, v.angular, dt);
                    world.next_poses.set(i, Some(Pose { position, rotation }));
                }
            }
        }
        i = i + 1;
    }
}

} // verus!

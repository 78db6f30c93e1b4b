use vstd::prelude::*;

use crate::components::{zero_forces, Velocity, World, WorldParameters};
use crate::config::Config;
use crate::integration::{
    advanced_pose, force_fits, next_frame_integration, next_frame_pose, pose_fits, stepped_velocity,
};

verus! {

/// The next-frame velocity that entity `i` holds once the force phase has run.
pub open spec fn velocity_after<C: Config>(
    w: World<C>,
    i: int,
    params: WorldParameters<C>,
    dt: i64,
) -> Velocity<C> {
    if w.force_eligible(i) {
        stepped_velocity(w, i, params, dt)
    } else {
        w.next_velocities@[i].unwrap()
    }
}

/// Every step of entity `i` in a tick fits the machine integers: its force
/// step if it is force-eligible, and its pose step, with the velocity that the
/// force phase leaves it, if it is pose-eligible.
pub open spec fn entity_fits<C: Config>(w: World<C>, i: int, params: WorldParameters<C>, dt: i64) -> bool {
    &&& w.force_eligible(i) ==> force_fits(w, i, params, dt)
    &&& w.pose_eligible(i) ==> {
        let v = velocity_after(w, i, params, dt);
        let p = w.poses@[i].unwrap();
        C::advance_fits(p.position, v.linear, dt) && C::turn_fits(p.rotation, v.angular, dt)
    }
}

/// Every step of a whole tick fits the machine integers.
pub open spec fn tick_fits<C: Config>(w: World<C>, params: WorldParameters<C>, dt: i64) -> bool {
    forall|i: int| 0 <= i < w.len() ==> #[trigger] entity_fits(w, i, params, dt)
}

fn entity_ok<C: Config>(world: &World<C>, i: usize, params: &WorldParameters<C>, dt: i64) -> (r: bool)
    requires
        world.wf(),
        i < world.len(),
    ensures
        r == entity_fits(*world, i as int, *params, dt),
{
    if !world.dynamic[i] {
        return true;
    }
    let p = match &world.poses[i] {
        Some(p) => p,
        None => {
            return true;
        },
    };
    let v = match &world.next_velocities[i] {
        Some(v) => v,
        None => {
            return true;
        },
    };
    let mut linear = v.linear;
    let mut angular = v.angular;
    if let Some(m) = &world.masses[i] {
        if let Some(f) = &world.forces[i] {
            if !C::linear_fits(v.linear, f.force, m.inverse_mass, params.gravity, dt) {
                return false;
            }
            if !C::angular_fits(v.angular, m.inverse_inertia, f.torque, dt) {
                return false;
            }
            linear = C::integrate_linear(v.linear, f.force, m.inverse_mass, params.gravity, dt);
            angular = C::integrate_angular(v.angular, m.inverse_inertia, f.torque, dt);
        }
    }
    if world.next_poses[i].is_none() {
        return true;
    }
    C::position_fits(p.position, linear, dt) && C::orientation_fits(p.rotation, angular, dt)
}

/// Whether a tick on `world` stays within the machine integers, that is,
/// whether `run` may be called.
pub fn fits_tick<C: Config>(world: &World<C>, params: &WorldParameters<C>, dt: i64) -> (r: bool)
    requires
        world.wf(),
    ensures
        r == tick_fits(*world, *params, dt),
{
    let n = world.dynamic.len();
    let mut i: usize = 0;
    while i < n
        invariant
            n == world.len(),
            world.wf(),
            i <= n,
            forall|j: int| 0 <= j < i ==> #[trigger] entity_fits(*world, j, *params, dt),
        decreases n - i,
    {
        if !entity_ok(world, i, params, dt) {
            return false;
        }
        i = i + 1;
    }
    true
}

/// What one tick leaves: each force-eligible entity's next-frame velocity is
/// stepped and its accumulator emptied; then each pose-eligible entity's
/// next-frame pose is its current pose advanced by the next-frame velocity
/// that the force phase left in `post`. Nothing else changes.
pub open spec fn tick_done<C: Config>(
    pre: World<C>,
    post: World<C>,
    params: WorldParameters<C>,
    dt: i64,
) -> bool {
    &&& post.wf()
    &&& post.dynamic@ == pre.dynamic@
    &&& post.masses@ == pre.masses@
    &&& post.poses@ == pre.poses@
    &&& post.next_velocities@.len() == pre.len()
    &&& post.next_poses@.len() == pre.len()
    &&& post.forces@.len() == pre.len()
    &&& forall|i: int|
        0 <= i < pre.len() ==> if #[trigger] pre.force_eligible(i) {
            &&& post.next_velocities@[i] == Some(stepped_velocity(pre, i, params, dt))
            &&& post.forces@[i] == Some(zero_forces::<C>())
        } else {
            &&& post.next_velocities@[i] == pre.next_velocities@[i]
            &&& post.forces@[i] == pre.forces@[i]
        }
    &&& forall|i: int|
        0 <= i < pre.len() ==> if #[trigger] pre.pose_eligible(i) {
            post.next_poses@[i] == Some(advanced_pose(post, i, dt))
        } else {
            post.next_poses@[i] == pre.next_poses@[i]
        }
}

/// Sets up the next frame's velocities and poses. It holds no state: every
/// value lives in the world's storages and in the tick's parameters.
pub struct NextFrameSetupSystem<C: Config> {
    m: core::marker::PhantomData<C>,
}

impl<C: Config> NextFrameSetupSystem<C> {
    /// The system, which holds nothing.
    pub closed spec fn fresh() -> Self {
        NextFrameSetupSystem { m: core::marker::PhantomData }
    }

    /// Create the system.
    pub fn new() -> (r: Self)
        ensures
            r == Self::fresh(),
    {
        NextFrameSetupSystem { m: core::marker::PhantomData }
    }

    /// One tick: the force phase over all its entities, then the pose phase
    /// over all of its own, with the elapsed time `dt`.
    pub fn run(&mut self, world: &mut World<C>, params: &WorldParameters<C>, dt: i64)
        requires
            old(world).wf(),
            tick_fits(*old(world), *params, dt),
        ensures
            *final(self) == *old(self),
            tick_done(*old(world), *final(world), *params, dt),
    {
        let ghost pre = *world;
        assert forall|i: int| 0 <= i < pre.len() && #[trigger] pre.force_eligible(i) implies force_fits(pre, i, *params, dt) by {
            assert(entity_fits(pre, i, *params, dt));
        }
        next_frame_integration(world, params, dt);
        let ghost mid = *world;
        assert forall|i: int| 0 <= i < mid.len() && #[trigger] mid.pose_eligible(i) implies pose_fits(mid, i, dt) by {
            if pre.force_eligible(i) {
                assert(mid.next_velocities@[i] == Some(stepped_velocity(pre, i, *params, dt)));
            } else {
                assert(mid.next_velocities@[i] == pre.next_velocities@[i]);
            }
            assert(pre.pose_eligible(i));
            assert(entity_fits(pre, i, *params, dt));
        }
        next_frame_pose(world, dt);
        assert forall|i: int| 0 <= i < pre.len() implies #[trigger] pre.pose_eligible(i) == mid.pose_eligible(i) by {
            if pre.force_eligible(i) {
                assert(mid.next_velocities@[i] == Some(stepped_velocity(pre, i, *params, dt)));
            }
        }
        assert forall|i: int| 0 <= i < pre.len() && #[trigger] pre.pose_eligible(i) implies advanced_pose(mid, i, dt) == advanced_pose(*world, i, dt) by {
            assert(mid.pose_eligible(i));
        }
    }
}

} // verus!

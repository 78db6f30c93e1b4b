use vstd::prelude::*;

use crate::components::{zero_forces, ForceAccumulator, Mass, Pose, Velocity, World, WorldParameters};
use crate::config::{fits, Config};
use crate::integration::stepped_velocity;
use crate::planar::{Planar, Vec2};
use crate::scalar::{coord_step, lemma_coord_step_still};
use crate::spatial::{dot, lemma_dot_zero, Mat3, Spatial, Vec3};
use crate::system::{entity_fits, tick_done, velocity_after};

verus! {

/// With no accumulated force or torque and no ambient acceleration, a tick
/// keeps an entity's next-frame velocity exactly, and its next-frame pose is
/// its current pose advanced by that same velocity.
pub proof fn law_no_force_invariance<C: Config>(
    pre: World<C>,
    post: World<C>,
    params: WorldParameters<C>,
    dt: i64,
    i: int,
)
    requires
        pre.wf(),
        0 <= i < pre.len(),
        pre.force_eligible(i),
        pre.forces@[i] == Some(zero_forces::<C>()),
        params.gravity == C::lin_zero(),
        tick_done(pre, post, params, dt),
    ensures
        post.next_velocities@[i] == pre.next_velocities@[i],
        pre.pose_eligible(i) ==> post.next_poses@[i] == Some(
            Pose::<C> {
                position: C::advance(
                    pre.poses@[i].unwrap().position,
                    pre.next_velocities@[i].unwrap().linear,
                    dt,
                ),
                rotation: C::turn(pre.poses@[i].unwrap().rotation, pre.next_velocities@[i].unwrap().angular, dt),
            },
        ),
{
    let v = pre.next_velocities@[i].unwrap();
    let m = pre.masses@[i].unwrap();
    C::lemma_lin_step_still(v.linear, m.inverse_mass, dt);
    C::lemma_ang_step_still(v.angular, m.inverse_inertia, dt);
    assert(post.next_velocities@[i] == Some(stepped_velocity(pre, i, params, dt)));
    if pre.pose_eligible(i) {
        assert(post.next_poses@[i] == Some(crate::integration::advanced_pose(post, i, dt)));
    }
}

/// After a tick, every force-eligible entity's accumulator is empty,
/// whatever it held before.
pub proof fn law_accumulator_reset<C: Config>(
    pre: World<C>,
    post: World<C>,
    params: WorldParameters<C>,
    dt: i64,
    i: int,
)
    requires
        0 <= i < pre.len(),
        pre.force_eligible(i),
        tick_done(pre, post, params, dt),
    ensures
        post.forces@[i] == Some(zero_forces::<C>()),
{
}

/// A tick leaves an entity that is not a dynamic body untouched, and leaves
/// the velocity and accumulator of an entity without mass untouched.
pub proof fn law_exclusion<C: Config>(
    pre: World<C>,
    post: World<C>,
    params: WorldParameters<C>,
    dt: i64,
    i: int,
)
    requires
        0 <= i < pre.len(),
        !pre.dynamic@[i] || pre.masses@[i] is None,
        tick_done(pre, post, params, dt),
    ensures
        post.next_velocities@[i] == pre.next_velocities@[i],
        post.forces@[i] == pre.forces@[i],
        !pre.dynamic@[i] ==> post.next_poses@[i] == pre.next_poses@[i],
{
    assert(!pre.force_eligible(i));
    assert(!pre.dynamic@[i] ==> !pre.pose_eligible(i));
}

/// The next-frame pose of an entity that both phases visit is advanced by
/// the velocity that the force phase computed, not by the one it replaced.
pub proof fn law_phase_ordering<C: Config>(
    pre: World<C>,
    post: World<C>,
    params: WorldParameters<C>,
    dt: i64,
    i: int,
)
    requires
        0 <= i < pre.len(),
        pre.force_eligible(i),
        pre.pose_eligible(i),
        tick_done(pre, post, params, dt),
    ensures
        post.next_poses@[i] == Some(
            Pose::<C> {
                position: C::advance(
                    pre.poses@[i].unwrap().position,
                    stepped_velocity(pre, i, params, dt).linear,
                    dt,
                ),
                rotation: C::turn(pre.poses@[i].unwrap().rotation, stepped_velocity(pre, i, params, dt).angular, dt),
            },
        ),
{
    assert(post.next_velocities@[i] == Some(stepped_velocity(pre, i, params, dt)));
}

/// The linear velocity after `n` ticks with no force and ambient
/// acceleration `g`.
pub open spec fn coasted<C: Config>(v: C::Lin, inv_mass: i64, g: C::Lin, dt: i64, n: nat) -> C::Lin
    decreases n,
{
    if n == 0 {
        v
    } else {
        C::lin_step(coasted::<C>(v, inv_mass, g, dt, (n - 1) as nat), C::lin_zero(), inv_mass, g, dt)
    }
}

/// `v + n * g * dt` on one coordinate stays in range for every tick up to `n`.
pub open spec fn coast_fits(v: int, g: int, dt: int, n: nat) -> bool {
    &&& fits(g * dt)
    &&& forall|k: nat| k <= n ==> #[trigger] fits(v + k * (g * dt))
}

proof fn lemma_coast_coord(v: int, m: int, g: int, dt: int, k: nat)
    requires
        fits(g) && fits(g * dt) && fits(v + k * (g * dt)) && fits(v + (k + 1) * (g * dt)),
    ensures
        coord_step(v + k * (g * dt), 0, m, g, dt) == v + (k + 1) * (g * dt),
        crate::scalar::coord_step_fits(v + k * (g * dt), 0, m, g, dt),
{
    assert(0 * m == 0) by (nonlinear_arith);
    assert(v + k * (g * dt) + g * dt == v + (k + 1) * (g * dt)) by (nonlinear_arith);
}

/// In the plane, `n` ticks of a constant ambient acceleration `g` and no
/// force take the linear velocity from `v` to `v + n * g * dt`.
pub proof fn law_constant_gravity(v: Vec2, inv_mass: i64, g: Vec2, dt: i64, n: nat)
    requires
        coast_fits(v.x as int, g.x as int, dt as int, n),
        coast_fits(v.y as int, g.y as int, dt as int, n),
    ensures
        coasted::<Planar>(v, inv_mass, g, dt, n) == (Vec2 {
            x: (v.x + n * (g.x * dt)) as i64,
            y: (v.y + n * (g.y * dt)) as i64,
        }),
    decreases n,
{
    if n == 0 {
        assert(0 * (g.x * dt) == 0 && 0 * (g.y * dt) == 0) by (nonlinear_arith);
    } else {
        let k = (n - 1) as nat;
        assert(fits(v.x + k * (g.x * dt)) && fits(v.y + k * (g.y * dt)));
        assert(fits(v.x + n * (g.x * dt)) && fits(v.y + n * (g.y * dt)));
        law_constant_gravity(v, inv_mass, g, dt, k);
        lemma_coast_coord(v.x as int, inv_mass as int, g.x as int, dt as int, k);
        lemma_coast_coord(v.y as int, inv_mass as int, g.y as int, dt as int, k);
    }
}

/// Ticks `pre[k]` to `post[k]`, for `k < n`, in which entity `i` is
/// force-eligible with an unchanged mass, starts with an empty accumulator,
/// and carries its next-frame velocity and accumulator from one tick to the
/// next (the commit between ticks touches only poses).
pub open spec fn coasting_ticks<C: Config>(
    pre: Seq<World<C>>,
    post: Seq<World<C>>,
    params: WorldParameters<C>,
    dt: i64,
    i: int,
    n: nat,
) -> bool {
    &&& pre.len() == n
    &&& post.len() == n
    &&& n >= 1
    &&& pre[0].forces@[i] == Some(zero_forces::<C>())
    &&& forall|k: int|
        0 <= k < n ==> {
            &&& 0 <= i < (#[trigger] pre[k]).len()
            &&& pre[k].force_eligible(i)
            &&& pre[k].masses@[i] == pre[0].masses@[i]
            &&& tick_done(pre[k], post[k], params, dt)
        }
    &&& forall|k: int|
        0 <= k < n - 1 ==> {
            &&& (#[trigger] pre[k + 1]).next_velocities@[i] == post[k].next_velocities@[i]
            &&& pre[k + 1].forces@[i] == post[k].forces@[i]
        }
}

proof fn lemma_coasting_tick<C: Config>(
    pre: Seq<World<C>>,
    post: Seq<World<C>>,
    params: WorldParameters<C>,
    dt: i64,
    i: int,
    n: nat,
    k: nat,
)
    requires
        coasting_ticks(pre, post, params, dt, i, n),
        k < n,
    ensures
        post[k as int].next_velocities@[i] is Some,
        post[k as int].next_velocities@[i].unwrap().linear == coasted::<C>(
            pre[0].next_velocities@[i].unwrap().linear,
            pre[0].masses@[i].unwrap().inverse_mass,
            params.gravity,
            dt,
            k + 1,
        ),
        post[k as int].forces@[i] == Some(zero_forces::<C>()),
    decreases k,
{
    let kk = k as int;
    let v0 = pre[0].next_velocities@[i].unwrap().linear;
    let m = pre[0].masses@[i].unwrap().inverse_mass;
    assert(pre[kk].force_eligible(i));
    assert(pre[kk].masses@[i] == pre[0].masses@[i]);
    if k > 0 {
        lemma_coasting_tick(pre, post, params, dt, i, n, (k - 1) as nat);
        assert(pre[kk].next_velocities@[i] == post[kk - 1].next_velocities@[i]);
        assert(pre[kk].forces@[i] == post[kk - 1].forces@[i]);
    }
    assert(pre[kk].next_velocities@[i].unwrap().linear == coasted::<C>(v0, m, params.gravity, dt, k));
    assert(pre[kk].forces@[i] == Some(zero_forces::<C>()));
    assert(coasted::<C>(v0, m, params.gravity, dt, k + 1) == C::lin_step(
        coasted::<C>(v0, m, params.gravity, dt, k),
        C::lin_zero(),
        m,
        params.gravity,
        dt,
    ));
    assert(post[kk].next_velocities@[i] == Some(stepped_velocity(pre[kk], i, params, dt)));
}

/// In the plane, `n` successive ticks with no force and a constant ambient
/// acceleration `g` take an entity's next-frame velocity from `v0` to
/// `v0 + n * g * dt`.
pub proof fn law_constant_gravity_ticks(
    pre: Seq<World<Planar>>,
    post: Seq<World<Planar>>,
    params: WorldParameters<Planar>,
    dt: i64,
    i: int,
    n: nat,
)
    requires
        coasting_ticks(pre, post, params, dt, i, n),
        coast_fits(pre[0].next_velocities@[i].unwrap().linear.x as int, params.gravity.x as int, dt as int, n),
        coast_fits(pre[0].next_velocities@[i].unwrap().linear.y as int, params.gravity.y as int, dt as int, n),
    ensures
        ({
            let v0 = pre[0].next_velocities@[i].unwrap().linear;
            let g = params.gravity;
            post[n - 1].next_velocities@[i] is Some && post[n - 1].next_velocities@[i].unwrap().linear == (Vec2 {
                x: (v0.x + n * (g.x * dt)) as i64,
                y: (v0.y + n * (g.y * dt)) as i64,
            })
        }),
{
    let m = pre[0].masses@[i].unwrap().inverse_mass;
    lemma_coasting_tick(pre, post, params, dt, i, n, (n - 1) as nat);
    law_constant_gravity(pre[0].next_velocities@[i].unwrap().linear, m, params.gravity, dt, n);
}

/// A plane vector embedded in the plane `z = 0`.
pub open spec fn lift(v: Vec2) -> Vec3 {
    Vec3 { x: v.x, y: v.y, z: 0 }
}

/// A planar angular quantity as a rotation about the `z` axis.
pub open spec fn lift_angular(w: i64) -> Vec3 {
    Vec3 { x: 0, y: 0, z: w }
}

/// The inverse inertia tensor `t` has `z` as a principal axis with the
/// planar inverse inertia `i` on it: its `z` row and `z` column are
/// `(0, 0, i)`.
pub open spec fn embeds_inertia(t: Mat3, i: i64) -> bool {
    &&& t.z == (Vec3 { x: 0, y: 0, z: i })
    &&& t.x.z == 0
    &&& t.y.z == 0
}

/// Each step of the spatial configuration, on the embedding of a planar
/// scenario, fits wherever the planar step fits and gives the embedding of
/// the planar result.
pub proof fn law_dimension_parity(
    v: Vec2,
    f: Vec2,
    inv_mass: i64,
    g: Vec2,
    w: i64,
    inv_inertia: i64,
    tensor: Mat3,
    torque: i64,
    p: Vec2,
    r: i64,
    dt: i64,
)
    ensures
        Planar::lin_step_fits(v, f, inv_mass, g, dt) ==> Spatial::lin_step_fits(lift(v), lift(f), inv_mass, lift(g), dt)
            && Spatial::lin_step(lift(v), lift(f), inv_mass, lift(g), dt) == lift(Planar::lin_step(v, f, inv_mass, g, dt)),
        embeds_inertia(tensor, inv_inertia) && Planar::ang_step_fits(w, inv_inertia, torque, dt)
            ==> Spatial::ang_step_fits(lift_angular(w), tensor, lift_angular(torque), dt) && Spatial::ang_step(
            lift_angular(w),
            tensor,
            lift_angular(torque),
            dt,
        ) == lift_angular(Planar::ang_step(w, inv_inertia, torque, dt)),
        Planar::advance_fits(p, v, dt) ==> Spatial::advance_fits(lift(p), lift(v), dt)
            && Spatial::advance(lift(p), lift(v), dt) == lift(Planar::advance(p, v, dt)),
        Planar::turn_fits(r, w, dt) ==> Spatial::turn_fits(lift_angular(r), lift_angular(w), dt)
            && Spatial::turn(lift_angular(r), lift_angular(w), dt) == lift_angular(Planar::turn(r, w, dt)),
{
    let (ii, t, d) = (inv_inertia as int, torque as int, dt as int);
    lemma_coord_step_still(0, inv_mass as int, d);
    let zero = Vec3 { x: 0, y: 0, z: 0 };
    assert(0 * d == 0) by (nonlinear_arith);
    if embeds_inertia(tensor, inv_inertia) {
        let (ax, ay, bx, by) = (tensor.x.x as int, tensor.x.y as int, tensor.y.x as int, tensor.y.y as int);
        assert(ax * 0 == 0 && ay * 0 == 0 && bx * 0 == 0 && by * 0 == 0 && 0 * t == 0) by (nonlinear_arith);
        assert(dot(tensor.x, lift_angular(torque)) == 0);
        assert(dot(tensor.y, lift_angular(torque)) == 0);
        assert(dot(tensor.z, lift_angular(torque)) == t * ii) by {
            assert(0 * 0 == 0 && ii * t == t * ii) by (nonlinear_arith);
        }
    }
    lemma_dot_zero(zero);
}

/// A planar velocity embedded in space.
pub open spec fn lift_velocity(v: Velocity<Planar>) -> Velocity<Spatial> {
    Velocity { linear: lift(v.linear), angular: lift_angular(v.angular) }
}

/// A planar pose embedded in space.
pub open spec fn lift_pose(p: Pose<Planar>) -> Pose<Spatial> {
    Pose { position: lift(p.position), rotation: lift_angular(p.rotation) }
}

/// The spatial mass `s` has the planar mass `p`'s inverse mass, and an
/// inverse inertia tensor that embeds `p`'s.
pub open spec fn mass_embeds(p: Mass<Planar>, s: Mass<Spatial>) -> bool {
    s.inverse_mass == p.inverse_mass && embeds_inertia(s.inverse_inertia, p.inverse_inertia)
}

/// A planar accumulator embedded in space.
pub open spec fn lift_forces(f: ForceAccumulator<Planar>) -> ForceAccumulator<Spatial> {
    ForceAccumulator { force: lift(f.force), torque: lift_angular(f.torque) }
}

/// Entity `i` of the spatial world `s` carries the embedding of each
/// component that entity `i` of the planar world `p` carries, and no other;
/// its inverse inertia tensor has `z` as a principal axis.
pub open spec fn lifted_entity(p: World<Planar>, s: World<Spatial>, i: int) -> bool {
    &&& s.dynamic@[i] == p.dynamic@[i]
    &&& match (p.masses@[i], s.masses@[i]) {
        (Some(pm), Some(sm)) => mass_embeds(pm, sm),
        (None, None) => true,
        _ => false,
    }
    &&& s.poses@[i] == match p.poses@[i] {
        Some(x) => Some(lift_pose(x)),
        None => None,
    }
    &&& s.next_velocities@[i] == match p.next_velocities@[i] {
        Some(v) => Some(lift_velocity(v)),
        None => None,
    }
    &&& s.next_poses@[i] == match p.next_poses@[i] {
        Some(x) => Some(lift_pose(x)),
        None => None,
    }
    &&& s.forces@[i] == match p.forces@[i] {
        Some(f) => Some(lift_forces(f)),
        None => None,
    }
}

/// A tick on a planar world and a tick on its spatial embedding agree: an
/// entity that starts embedded, and whose planar steps fit, ends embedded.
pub proof fn law_dimension_parity_tick(
    p: World<Planar>,
    p_post: World<Planar>,
    s: World<Spatial>,
    s_post: World<Spatial>,
    params: WorldParameters<Planar>,
    dt: i64,
    i: int,
)
    requires
        0 <= i < p.len(),
        p.len() == s.len(),
        lifted_entity(p, s, i),
        entity_fits(p, i, params, dt),
        tick_done(p, p_post, params, dt),
        tick_done(s, s_post, WorldParameters { gravity: lift(params.gravity) }, dt),
    ensures
        lifted_entity(p_post, s_post, i),
{
    let sp = WorldParameters::<Spatial> { gravity: lift(params.gravity) };
    assert(s.force_eligible(i) == p.force_eligible(i));
    assert(s.pose_eligible(i) == p.pose_eligible(i));
    if p.force_eligible(i) {
        let v = p.next_velocities@[i].unwrap();
        let f = p.forces@[i].unwrap();
        let m = p.masses@[i].unwrap();
        let sm = s.masses@[i].unwrap();
        law_dimension_parity(
            v.linear,
            f.force,
            m.inverse_mass,
            params.gravity,
            v.angular,
            m.inverse_inertia,
            sm.inverse_inertia,
            f.torque,
            v.linear,
            0,
            dt,
        );
        assert(stepped_velocity(s, i, sp, dt) == lift_velocity(stepped_velocity(p, i, params, dt)));
        assert(zero_forces::<Spatial>() == lift_forces(zero_forces::<Planar>()));
    }
    assert(s_post.next_velocities@[i] == match p_post.next_velocities@[i] {
        Some(v) => Some(lift_velocity(v)),
        None => None,
    });
    if p.pose_eligible(i) {
        let v = velocity_after(p, i, params, dt);
        let x = p.poses@[i].unwrap();
        assert(p_post.next_velocities@[i] == Some(v));
        let t = Mat3 { x: lift_angular(0), y: lift_angular(0), z: lift_angular(0) };
        law_dimension_parity(v.linear, v.linear, 0, v.linear, v.angular, 0, t, 0, x.position, x.rotation, dt);
        assert(crate::integration::advanced_pose(s_post, i, dt) == lift_pose(
            crate::integration::advanced_pose(p_post, i, dt),
        ));
    }
}

} // verus!

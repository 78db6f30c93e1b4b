use vstd::prelude::*;

use crate::config::{fits, Config};
use crate::scalar::{
    advance_coord, coord_advance, coord_advance_fits, coord_advance_ok, coord_step, coord_step_fits,
    coord_step_ok, lemma_coord_step_still, step_coord,
};

verus! {

/// A vector (or point) of space.
#[derive(Clone, Copy, Debug, PartialEq, Eq, Structural)]
pub struct Vec3 {
    pub x: i64,
    pub y: i64,
    pub z: i64,
}

/// A 3x3 matrix, by rows.
#[derive(Clone, Copy, Debug, PartialEq, Eq, Structural)]
pub struct Mat3 {
    pub x: Vec3,
    pub y: Vec3,
    pub z: Vec3,
}

/// The spatial configuration: positions, forces, angular velocities and
/// torques are `Vec3`, inverse inertia is a `Mat3` tensor in world axes, and
/// an orientation is a rotation vector (axis times angle), onto which the
/// increment `w * dt` composes by addition. That composition is exact for
/// rotation about a fixed axis.
#[derive(Clone, Copy, Debug, PartialEq, Eq, Structural)]
pub struct Spatial;

/// The dot product.
pub open spec fn dot(a: Vec3, b: Vec3) -> int {
    a.x * b.x + a.y * b.y + a.z * b.z
}

/// Every intermediate of `dot` fits an `i64`.
pub open spec fn dot_fits(a: Vec3, b: Vec3) -> bool {
    &&& fits(a.x * b.x)
    &&& fits(a.y * b.y)
    &&& fits(a.z * b.z)
    &&& fits(a.x * b.x + a.y * b.y)
    &&& fits(dot(a, b))
}

/// `w + a * dt` on one coordinate, where `a` is a row of the inverse inertia
/// applied to the torque.
pub open spec fn kick_fits(w: int, row: Vec3, t: Vec3, dt: int) -> bool {
    dot_fits(row, t) && coord_advance_fits(w, dot(row, t), dt)
}

/// Any row applied to the zero vector gives zero.
pub proof fn lemma_dot_zero(a: Vec3)
    ensures
        dot_fits(a, Vec3 { x: 0, y: 0, z: 0 }),
        dot(a, Vec3 { x: 0, y: 0, z: 0 }) == 0,
{
    let (x, y, z) = (a.x as int, a.y as int, a.z as int);
    assert(x * 0 == 0 && y * 0 == 0 && z * 0 == 0) by (nonlinear_arith);
}

fn dot_exec(a: Vec3, b: Vec3) -> (r: i64)
    requires
        dot_fits(a, b),
    ensures
        r == dot(a, b),
{
    a.x * b.x + a.y * b.y + a.z * b.z
}

fn dot_ok(a: Vec3, b: Vec3) -> (r: bool)
    ensures
        r == dot_fits(a, b),
{
    match (a.x.checked_mul(b.x), a.y.checked_mul(b.y), a.z.checked_mul(b.z)) {
        (Some(p), Some(q), Some(s)) => match p.checked_add(q) {
            None => false,
            Some(pq) => pq.checked_add(s).is_some(),
        },
        _ => false,
    }
}

fn kick_ok(w: i64, row: Vec3, t: Vec3, dt: i64) -> (r: bool)
    ensures
        r == kick_fits(w as int, row, t, dt as int),
{
    dot_ok(row, t) && coord_advance_ok(w, dot_exec(row, t), dt)
}

impl Config for Spatial {
    type Lin = Vec3;

    type Ang = Vec3;

    type Rot = Vec3;

    type InvInertia = Mat3;

    open spec fn lin_zero() -> Vec3 {
        Vec3 { x: 0, y: 0, z: 0 }
    }

    open spec fn ang_zero() -> Vec3 {
        Vec3 { x: 0, y: 0, z: 0 }
    }

    open spec fn lin_step(v: Vec3, f: Vec3, inv_mass: i64, g: Vec3, dt: i64) -> Vec3 {
        Vec3 {
            x: coord_step(v.x as int, f.x as int, inv_mass as int, g.x as int, dt as int) as i64,
            y: coord_step(v.y as int, f.y as int, inv_mass as int, g.y as int, dt as int) as i64,
            z: coord_step(v.z as int, f.z as int, inv_mass as int, g.z as int, dt as int) as i64,
        }
    }

    open spec fn lin_step_fits(v: Vec3, f: Vec3, inv_mass: i64, g: Vec3, dt: i64) -> bool {
        &&& coord_step_fits(v.x as int, f.x as int, inv_mass as int, g.x as int, dt as int)
        &&& coord_step_fits(v.y as int, f.y as int, inv_mass as int, g.y as int, dt as int)
        &&& coord_step_fits(v.z as int, f.z as int, inv_mass as int, g.z as int, dt as int)
    }

    open spec fn ang_step(w: Vec3, inv_inertia: Mat3, torque: Vec3, dt: i64) -> Vec3 {
        Vec3 {
            x: coord_advance(w.x as int, dot(inv_inertia.x, torque), dt as int) as i64,
            y: coord_advance(w.y as int, dot(inv_inertia.y, torque), dt as int) as i64,
            z: coord_advance(w.z as int, dot(inv_inertia.z, torque), dt as int) as i64,
        }
    }

    open spec fn ang_step_fits(w: Vec3, inv_inertia: Mat3, torque: Vec3, dt: i64) -> bool {
        &&& kick_fits(w.x as int, inv_inertia.x, torque, dt as int)
        &&& kick_fits(w.y as int, inv_inertia.y, torque, dt as int)
        &&& kick_fits(w.z as int, inv_inertia.z, torque, dt as int)
    }

    open spec fn advance(p: Vec3, v: Vec3, dt: i64) -> Vec3 {
        Vec3 {
            x: coord_advance(p.x as int, v.x as int, dt as int) as i64,
            y: coord_advance(p.y as int, v.y as int, dt as int) as i64,
            z: coord_advance(p.z as int, v.z as int, dt as int) as i64,
        }
    }

    open spec fn advance_fits(p: Vec3, v: Vec3, dt: i64) -> bool {
        &&& coord_advance_fits(p.x as int, v.x as int, dt as int)
        &&& coord_advance_fits(p.y as int, v.y as int, dt as int)
        &&& coord_advance_fits(p.z as int, v.z as int, dt as int)
    }

    open spec fn turn(r: Vec3, w: Vec3, dt: i64) -> Vec3 {
        Self::advance(r, w, dt)
    }

    open spec fn turn_fits(r: Vec3, w: Vec3, dt: i64) -> bool {
        Self::advance_fits(r, w, dt)
    }

    fn zero_linear() -> (r: Vec3) {
        Vec3 { x: 0, y: 0, z: 0 }
    }

    fn zero_angular() -> (r: Vec3) {
        Vec3 { x: 0, y: 0, z: 0 }
    }

    fn integrate_linear(v: Vec3, f: Vec3, inv_mass: i64, g: Vec3, dt: i64) -> (r: Vec3) {
        Vec3 {
            x: step_coord(v.x, f.x, inv_mass, g.x, dt),
            y: step_coord(v.y, f.y, inv_mass, g.y, dt),
            z: step_coord(v.z, f.z, inv_mass, g.z, dt),
        }
    }

    fn integrate_angular(w: Vec3, inv_inertia: Mat3, torque: Vec3, dt: i64) -> (r: Vec3) {
        Vec3 {
            x: advance_coord(w.x, dot_exec(inv_inertia.x, torque), dt),
            y: advance_coord(w.y, dot_exec(inv_inertia.y, torque), dt),
            z: advance_coord(w.z, dot_exec(inv_inertia.z, torque), dt),
        }
    }

    fn advance_position(p: Vec3, v: Vec3, dt: i64) -> (r: Vec3) {
        Vec3 { x: advance_coord(p.x, v.x, dt), y: advance_coord(p.y, v.y, dt), z: advance_coord(p.z, v.z, dt) }
    }

    fn advance_orientation(r: Vec3, w: Vec3, dt: i64) -> (out: Vec3) {
        Self::advance_position(r, w, dt)
    }

    fn linear_fits(v: Vec3, f: Vec3, inv_mass: i64, g: Vec3, dt: i64) -> (r: bool) {
        coord_step_ok(v.x, f.x, inv_mass, g.x, dt) && coord_step_ok(v.y, f.y, inv_mass, g.y, dt) && coord_step_ok(
            v.z,
            f.z,
            inv_mass,
            g.z,
            dt,
        )
    }

    fn angular_fits(w: Vec3, inv_inertia: Mat3, torque: Vec3, dt: i64) -> (r: bool) {
        kick_ok(w.x, inv_inertia.x, torque, dt) && kick_ok(w.y, inv_inertia.y, torque, dt) && kick_ok(
            w.z,
            inv_inertia.z,
            torque,
            dt,
        )
    }

    fn position_fits(p: Vec3, v: Vec3, dt: i64) -> (r: bool) {
        coord_advance_ok(p.x, v.x, dt) && coord_advance_ok(p.y, v.y, dt) && coord_advance_ok(p.z, v.z, dt)
    }

    fn orientation_fits(r: Vec3, w: Vec3, dt: i64) -> (out: bool) {
        Self::position_fits(r, w, dt)
    }

    proof fn lemma_lin_step_still(v: Vec3, inv_mass: i64, dt: i64) {
        lemma_coord_step_still(v.x as int, inv_mass as int, dt as int);
        lemma_coord_step_still(v.y as int, inv_mass as int, dt as int);
        lemma_coord_step_still(v.z as int, inv_mass as int, dt as int);
    }

    proof fn lemma_ang_step_still(w: Vec3, inv_inertia: Mat3, dt: i64) {
        lemma_dot_zero(inv_inertia.x);
        lemma_dot_zero(inv_inertia.y);
        lemma_dot_zero(inv_inertia.z);
        assert(0 * (dt as int) == 0) by (nonlinear_arith);
    }
}

} // verus!

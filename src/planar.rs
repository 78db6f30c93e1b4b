use vstd::prelude::*;

use crate::config::Config;
use crate::scalar::{
    advance_coord, coord_advance, coord_advance_fits, coord_advance_ok, coord_step, coord_step_fits,
    coord_step_ok, lemma_coord_step_still, step_coord,
};

verus! {

/// A vector (or point) of the plane.
#[derive(Clone, Copy, Debug, PartialEq, Eq, Structural)]
pub struct Vec2 {
    pub x: i64,
    pub y: i64,
}

/// The planar configuration: positions and forces are `Vec2`, angular
/// velocity, torque and inverse inertia are scalars, and an orientation is an
/// angle, so that rotations compose by adding angles.
#[derive(Clone, Copy, Debug, PartialEq, Eq, Structural)]
pub struct Planar;

impl Config for Planar {
    type Lin = Vec2;

    type Ang = i64;

    type Rot = i64;

    type InvInertia = i64;

    open spec fn lin_zero() -> Vec2 {
        Vec2 { x: 0, y: 0 }
    }

    open spec fn ang_zero() -> i64 {
        0
    }

    open spec fn lin_step(v: Vec2, f: Vec2, inv_mass: i64, g: Vec2, dt: i64) -> Vec2 {
        Vec2 {
            x: coord_step(v.x as int, f.x as int, inv_mass as int, g.x as int, dt as int) as i64,
            y: coord_step(v.y as int, f.y as int, inv_mass as int, g.y as int, dt as int) as i64,
        }
    }

    open spec fn lin_step_fits(v: Vec2, f: Vec2, inv_mass: i64, g: Vec2, dt: i64) -> bool {
        &&& coord_step_fits(v.x as int, f.x as int, inv_mass as int, g.x as int, dt as int)
        &&& coord_step_fits(v.y as int, f.y as int, inv_mass as int, g.y as int, dt as int)
    }

    open spec fn ang_step(w: i64, inv_inertia: i64, torque: i64, dt: i64) -> i64 {
        coord_step(w as int, torque as int, inv_inertia as int, 0, dt as int) as i64
    }

    open spec fn ang_step_fits(w: i64, inv_inertia: i64, torque: i64, dt: i64) -> bool {
        coord_step_fits(w as int, torque as int, inv_inertia as int, 0, dt as int)
    }

    open spec fn advance(p: Vec2, v: Vec2, dt: i64) -> Vec2 {
        Vec2 {
            x: coord_advance(p.x as int, v.x as int, dt as int) as i64,
            y: coord_advance(p.y as int, v.y as int, dt as int) as i64,
        }
    }

    open spec fn advance_fits(p: Vec2, v: Vec2, dt: i64) -> bool {
        coord_advance_fits(p.x as int, v.x as int, dt as int) && coord_advance_fits(
            p.y as int,
            v.y as int,
            dt as int,
        )
    }

    open spec fn turn(r: i64, w: i64, dt: i64) -> i64 {
        coord_advance(r as int, w as int, dt as int) as i64
    }

    open spec fn turn_fits(r: i64, w: i64, dt: i64) -> bool {
        coord_advance_fits(r as int, w as int, dt as int)
    }

    fn zero_linear() -> (r: Vec2) {
        Vec2 { x: 0, y: 0 }
    }

    fn zero_angular() -> (r: i64) {
        0
    }

    fn integrate_linear(v: Vec2, f: Vec2, inv_mass: i64, g: Vec2, dt: i64) -> (r: Vec2) {
        Vec2 { x: step_coord(v.x, f.x, inv_mass, g.x, dt), y: step_coord(v.y, f.y, inv_mass, g.y, dt) }
    }

    fn integrate_angular(w: i64, inv_inertia: i64, torque: i64, dt: i64) -> (r: i64) {
        step_coord(w, torque, inv_inertia, 0, dt)
    }

    fn advance_position(p: Vec2, v: Vec2, dt: i64) -> (r: Vec2) {
        Vec2 { x: advance_coord(p.x, v.x, dt), y: advance_coord(p.y, v.y, dt) }
    }

    fn advance_orientation(r: i64, w: i64, dt: i64) -> (out: i64) {
        advance_coord(r, w, dt)
    }

    fn linear_fits(v: Vec2, f: Vec2, inv_mass: i64, g: Vec2, dt: i64) -> (r: bool) {
        coord_step_ok(v.x, f.x, inv_mass, g.x, dt) && coord_step_ok(v.y, f.y, inv_mass, g.y, dt)
    }

    fn angular_fits(w: i64, inv_inertia: i64, torque: i64, dt: i64) -> (r: bool) {
        coord_step_ok(w, torque, inv_inertia, 0, dt)
    }

    fn position_fits(p: Vec2, v: Vec2, dt: i64) -> (r: bool) {
        coord_advance_ok(p.x, v.x, dt) && coord_advance_ok(p.y, v.y, dt)
    }

    fn orientation_fits(r: i64, w: i64, dt: i64) -> (out: bool) {
        coord_advance_ok(r, w, dt)
    }

    proof fn lemma_lin_step_still(v: Vec2, inv_mass: i64, dt: i64) {
        lemma_coord_step_still(v.x as int, inv_mass as int, dt as int);
        lemma_coord_step_still(v.y as int, inv_mass as int, dt as int);
    }

    proof fn lemma_ang_step_still(w: i64, inv_inertia: i64, dt: i64) {
        lemma_coord_step_still(w as int, inv_inertia as int, dt as int);
    }
}

} // verus!

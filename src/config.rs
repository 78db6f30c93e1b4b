use vstd::prelude::*;

verus! {

/// Whether an integer fits in an `i64`.
pub open spec fn fits(x: int) -> bool {
    i64::MIN <= x <= i64::MAX
}

/// The algebra that one spatial configuration (2D, 3D) supplies to the
/// integration phases.
///
/// - `Lin`: positions, linear velocities, forces and accelerations;
/// - `Ang`: angular velocities and torques;
/// - `Rot`: orientations;
/// - `InvInertia`: inverse inertia, valid for the body's current orientation.
///
/// Scalars (time step, inverse mass) are `i64` in the configuration's units.
pub trait Config: Sized {
    type Lin: Copy + core::fmt::Debug + PartialEq;

    type Ang: Copy + core::fmt::Debug + PartialEq;

    type Rot: Copy + core::fmt::Debug + PartialEq;

    type InvInertia: Copy + core::fmt::Debug + PartialEq;

    /// The zero linear quantity.
    spec fn lin_zero() -> Self::Lin;

    /// The zero angular quantity.
    spec fn ang_zero() -> Self::Ang;

    /// `v + (f * inv_mass + g) * dt`
    spec fn lin_step(v: Self::Lin, f: Self::Lin, inv_mass: i64, g: Self::Lin, dt: i64) -> Self::Lin;

    /// Every intermediate of `lin_step` fits the machine integers.
    spec fn lin_step_fits(v: Self::Lin, f: Self::Lin, inv_mass: i64, g: Self::Lin, dt: i64) -> bool;

    /// `w + (inv_inertia * torque) * dt`
    spec fn ang_step(w: Self::Ang, inv_inertia: Self::InvInertia, torque: Self::Ang, dt: i64) -> Self::Ang;

    /// Every intermediate of `ang_step` fits the machine integers.
    spec fn ang_step_fits(w: Self::Ang, inv_inertia: Self::InvInertia, torque: Self::Ang, dt: i64) -> bool;

    /// `p + v * dt`
    spec fn advance(p: Self::Lin, v: Self::Lin, dt: i64) -> Self::Lin;

    /// Every intermediate of `advance` fits the machine integers.
    spec fn advance_fits(p: Self::Lin, v: Self::Lin, dt: i64) -> bool;

    /// The orientation `r` composed with the rotation that the angular
    /// velocity `w` makes over `dt`.
    spec fn turn(r: Self::Rot, w: Self::Ang, dt: i64) -> Self::Rot;

    /// Every intermediate of `turn` fits the machine integers.
    spec fn turn_fits(r: Self::Rot, w: Self::Ang, dt: i64) -> bool;

    fn zero_linear() -> (r: Self::Lin)
        ensures
            r == Self::lin_zero(),
    ;

    fn zero_angular() -> (r: Self::Ang)
        ensures
            r == Self::ang_zero(),
    ;

    fn integrate_linear(v: Self::Lin, f: Self::Lin, inv_mass: i64, g: Self::Lin, dt: i64) -> (r: Self::Lin)
        requires
            Self::lin_step_fits(v, f, inv_mass, g, dt),
        ensures
            r == Self::lin_step(v, f, inv_mass, g, dt),
    ;

    fn integrate_angular(w: Self::Ang, inv_inertia: Self::InvInertia, torque: Self::Ang, dt: i64) -> (r: Self::Ang)
        requires
            Self::ang_step_fits(w, inv_inertia, torque, dt),
        ensures
            r == Self::ang_step(w, inv_inertia, torque, dt),
    ;

    fn advance_position(p: Self::Lin, v: Self::Lin, dt: i64) -> (r: Self::Lin)
        requires
            Self::advance_fits(p, v, dt),
        ensures
            r == Self::advance(p, v, dt),
    ;

    fn advance_orientation(r: Self::Rot, w: Self::Ang, dt: i64) -> (out: Self::Rot)
        requires
            Self::turn_fits(r, w, dt),
        ensures
            out == Self::turn(r, w, dt),
    ;

    fn linear_fits(v: Self::Lin, f: Self::Lin, inv_mass: i64, g: Self::Lin, dt: i64) -> (r: bool)
        ensures
            r == Self::lin_step_fits(v, f, inv_mass, g, dt),
    ;

    fn angular_fits(w: Self::Ang, inv_inertia: Self::InvInertia, torque: Self::Ang, dt: i64) -> (r: bool)
        ensures
            r == Self::ang_step_fits(w, inv_inertia, torque, dt),
    ;

    fn position_fits(p: Self::Lin, v: Self::Lin, dt: i64) -> (r: bool)
        ensures
            r == Self::advance_fits(p, v, dt),
    ;

    fn orientation_fits(r: Self::Rot, w: Self::Ang, dt: i64) -> (out: bool)
        ensures
            out == Self::turn_fits(r, w, dt),
    ;

    /// With no force and no ambient acceleration, a linear step keeps the
    /// velocity.
    proof fn lemma_lin_step_still(v: Self::Lin, inv_mass: i64, dt: i64)
        ensures
            Self::lin_step_fits(v, Self::lin_zero(), inv_mass, Self::lin_zero(), dt),
            Self::lin_step(v, Self::lin_zero(), inv_mass, Self::lin_zero(), dt) == v,
    ;

    /// With no torque, an angular step keeps the angular velocity.
    proof fn lemma_ang_step_still(w: Self::Ang, inv_inertia: Self::InvInertia, dt: i64)
        ensures
            Self::ang_step_fits(w, inv_inertia, Self::ang_zero(), dt),
            Self::ang_step(w, inv_inertia, Self::ang_zero(), dt) == w,
    ;
}

} // verus!

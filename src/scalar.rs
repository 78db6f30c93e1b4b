use vstd::prelude::*;

use crate::config::fits;

verus! {

/// `v + (f * m + g) * dt` on one coordinate.
pub open spec fn coord_step(v: int, f: int, m: int, g: int, dt: int) -> int {
    v + (f * m + g) * dt
}

/// Every intermediate of `coord_step` fits an `i64`.
pub open spec fn coord_step_fits(v: int, f: int, m: int, g: int, dt: int) -> bool {
    &&& fits(f * m)
    &&& fits(f * m + g)
    &&& fits((f * m + g) * dt)
    &&& fits(coord_step(v, f, m, g, dt))
}

/// `p + v * dt` on one coordinate.
pub open spec fn coord_advance(p: int, v: int, dt: int) -> int {
    p + v * dt
}

/// Every intermediate of `coord_advance` fits an `i64`.
pub open spec fn coord_advance_fits(p: int, v: int, dt: int) -> bool {
    fits(v * dt) && fits(coord_advance(p, v, dt))
}

/// With no force and no ambient acceleration, a coordinate keeps its value.
pub proof fn lemma_coord_step_still(v: int, m: int, dt: int)
    requires
        fits(v),
    ensures
        coord_step_fits(v, 0, m, 0, dt),
        coord_step(v, 0, m, 0, dt) == v,
{
    assert(0 * m == 0 && (0 * m + 0) * dt == 0) by (nonlinear_arith);
}

/// One coordinate of a linear step.
pub fn step_coord(v: i64, f: i64, m: i64, g: i64, dt: i64) -> (r: i64)
    requires
        coord_step_fits(v as int, f as int, m as int, g as int, dt as int),
    ensures
        r == coord_step(v as int, f as int, m as int, g as int, dt as int),
{
    let a: i64 = f * m + g;
    v + a * dt
}

/// One coordinate advanced by a rate over `dt`.
pub fn advance_coord(p: i64, v: i64, dt: i64) -> (r: i64)
    requires
        coord_advance_fits(p as int, v as int, dt as int),
    ensures
        r == coord_advance(p as int, v as int, dt as int),
{
    p + v * dt
}

/// Whether `coord_step` fits, computed with checked arithmetic.
pub fn coord_step_ok(v: i64, f: i64, m: i64, g: i64, dt: i64) -> (r: bool)
    ensures
        r == coord_step_fits(v as int, f as int, m as int, g as int, dt as int),
{
    match f.checked_mul(m) {
        None => false,
        Some(a) => match a.checked_add(g) {
            None => false,
            Some(b) => match b.checked_mul(dt) {
                None => false,
                Some(c) => v.checked_add(c).is_some(),
            },
        },
    }
}

/// Whether `coord_advance` fits, computed with checked arithmetic.
pub fn coord_advance_ok(p: i64, v: i64, dt: i64) -> (r: bool)
    ensures
        r == coord_advance_fits(p as int, v as int, dt as int),
{
    match v.checked_mul(dt) {
        None => false,
        Some(a) => p.checked_add(a).is_some(),
    }
}

} // verus!

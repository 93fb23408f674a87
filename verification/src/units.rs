//! Fixed-point quantities and the truncating division they are scaled with.
//!
//! A world quantity is stored as an `i64` count of `1/SCALE` world units.
//! Multiplying two quantities therefore needs a division by `SCALE`
//! afterwards; that division truncates toward zero, as floating-point
//! arithmetic rounded toward zero would after a cast.

use vstd::prelude::*;

verus! {

/// Fixed-point subunits per world unit.
pub const SCALE: i64 = 1000;

/// One half of a unit: the decision threshold for a jump.
pub const HALF: i64 = 500;

/// Vertical band outside which an agent dies: 20 world units either way.
pub const BOUND_Y: i64 = 20_000;

/// Largest magnitude any stored coordinate or speed may reach.
pub const VAL_MAX: i64 = 10_000_000_000_000_000;

/// Largest magnitude a position may have at the start of a tick.
pub const STEP_POS_MAX: i64 = 1_000_000_000_000;

/// Largest magnitude a speed may have at the start of a tick.
pub const STEP_SPEED_MAX: i64 = 1_000_000_000_000;

/// Largest magnitude a position may have right after a tick.
pub const POST_POS_MAX: i64 = 4_000_000_000_000_000;

/// Largest magnitude a speed may have right after a tick.
pub const POST_SPEED_MAX: i64 = 2_000_000_000_000;

/// Largest time step one tick may advance by: 1000 seconds.
pub const DT_MAX: i64 = 1_000_000;

/// Largest magnitude of a gravity component: 1000 units per second squared.
pub const GRAVITY_MAX: i64 = 1_000_000;

/// Largest agent radius: 100 world units.
pub const RADIUS_MAX: i64 = 100_000;

/// Largest horizontal obstacle extent: 1000 world units.
pub const SIZE_X_MAX: i64 = 1_000_000;

/// Largest vertical gap extent: the full vertical band, 40 world units.
pub const SIZE_Y_MAX: i64 = 40_000;

/// Largest horizontal spacing between obstacles: 1,000,000 world units.
pub const DIST_MAX: i64 = 1_000_000_000;

/// Largest magnitude of the configured jump speed: 1000 units per second.
pub const JUMP_MAX: i64 = 1_000_000;

/// A two-dimensional fixed-point vector.
#[derive(Clone, Copy, Debug, PartialEq, Eq, Structural)]
pub struct Vec2 {
    pub x: i64,
    pub y: i64,
}

/// Within the storage bounds every stored coordinate or speed obeys.
pub open spec fn in_val(v: int) -> bool {
    -VAL_MAX <= v <= VAL_MAX
}

/// Both components within storage bounds.
pub open spec fn in_val_vec(v: Vec2) -> bool {
    in_val(v.x as int) && in_val(v.y as int)
}

/// A well-formed obstacle extent: positive, and small enough that the gap
/// fits inside the vertical band.
pub open spec fn in_size(s: Vec2) -> bool {
    &&& 0 < s.x <= SIZE_X_MAX
    &&& 0 < s.y <= SIZE_Y_MAX
}

/// A well-formed gravity vector.
pub open spec fn in_gravity(g: Vec2) -> bool {
    &&& -GRAVITY_MAX <= g.x <= GRAVITY_MAX
    &&& -GRAVITY_MAX <= g.y <= GRAVITY_MAX
}

/// Runtime check of [`in_size`].
pub fn in_size_check(s: Vec2) -> (r: bool)
    ensures
        r == in_size(s),
{
    0 < s.x && s.x <= SIZE_X_MAX && 0 < s.y && s.y <= SIZE_Y_MAX
}

/// Runtime check of [`in_gravity`].
pub fn in_gravity_check(g: Vec2) -> (r: bool)
    ensures
        r == in_gravity(g),
{
    -GRAVITY_MAX <= g.x && g.x <= GRAVITY_MAX && -GRAVITY_MAX <= g.y && g.y <= GRAVITY_MAX
}

/// Division truncating toward zero, the behaviour of Rust's `/` on `i64`.
pub open spec fn tdiv(a: int, b: int) -> int
    recommends
        b > 0,
{
    if a >= 0 {
        a / b
    } else {
        -((-a) / b)
    }
}

/// Quotient magnitude never exceeds the dividend's magnitude bound, and the
/// bound itself shrinks with the divisor.
pub proof fn lemma_tdiv_bounds(a: int, b: int, m: int)
    requires
        b >= 1,
        0 <= m,
        -m <= a <= m,
    ensures
        -(m / b) <= tdiv(a, b) <= m / b,
        -m <= tdiv(a, b) <= m,
{
    if a >= 0 {
        vstd::arithmetic::div_mod::lemma_div_pos_is_pos(a, b);
        vstd::arithmetic::div_mod::lemma_div_is_ordered(a, m, b);
        vstd::arithmetic::div_mod::lemma_div_pos_is_pos(m, b);
        vstd::arithmetic::div_mod::lemma_div_nonincreasing(m, b);
    } else {
        vstd::arithmetic::div_mod::lemma_div_pos_is_pos(-a, b);
        vstd::arithmetic::div_mod::lemma_div_is_ordered(-a, m, b);
        vstd::arithmetic::div_mod::lemma_div_pos_is_pos(m, b);
        vstd::arithmetic::div_mod::lemma_div_nonincreasing(m, b);
    }
}

/// Truncating division on fixed-point values.
pub fn tdiv64(a: i64, b: i64) -> (r: i64)
    requires
        b > 0,
        a > i64::MIN,
    ensures
        r == tdiv(a as int, b as int),
{
    proof {
        lemma_tdiv_bounds(a as int, b as int, i64::MAX as int);
    }
    match a.checked_div(b) {
        Some(q) => q,
        None => 0,
    }
}

} // verus!

//! Position, velocity and rotation integration shared by all movable
//! entities, in fixed-point milli-units.

use vstd::prelude::*;
use vstd::arithmetic::div_mod::lemma_fundamental_div_mod;
use vstd::arithmetic::div_mod::lemma_fundamental_div_mod_converse;
use vstd::arithmetic::div_mod::lemma_div_is_ordered;
use vstd::arithmetic::div_mod::lemma_div_by_multiple;
use vstd::arithmetic::div_mod::lemma_div_pos_is_pos;
use vstd::arithmetic::mul::lemma_mul_inequality;

verus! {

/// One whole unit (one pixel, one degree) in milli-units.
pub const MILLI: i64 = 1000;

/// Play-field width in milli-pixels (640 pixels).
pub const SCREEN_WIDTH: i64 = 640_000;

/// Play-field height in milli-pixels (420 pixels).
pub const SCREEN_HEIGHT: i64 = 420_000;

/// A full turn in milli-degrees.
pub const FULL_TURN: i64 = 360_000;

/// `advance_angle(current, delta)` wrapped into `[0, FULL_TURN)`.
pub open spec fn norm_angle(s: int) -> int {
    s % (FULL_TURN as int)
}

/// Adds a rotation delta to an angle and wraps the sum into
/// `[0, FULL_TURN)` milli-degrees.
pub fn advance_angle(current: i64, delta: i64) -> (r: i64)
    requires
        -1_000_000_000 <= current + delta <= 1_000_000_000,
    ensures
        0 <= r < FULL_TURN,
        r == norm_angle(current + delta),
{
    let s: i64 = current + delta;
    if s >= 0 {
        s % FULL_TURN
    } else {
        let m: i64 = (-s) % FULL_TURN;
        proof {
            let a = -(s as int);
            let d = FULL_TURN as int;
            lemma_fundamental_div_mod(a, d);
            if a % d == 0 {
                lemma_fundamental_div_mod_converse(s as int, d, -(a / d), 0);
            } else {
                lemma_fundamental_div_mod_converse(s as int, d, -(a / d) - 1, d - a % d);
            }
        }
        if m == 0 {
            0
        } else {
            FULL_TURN - m
        }
    }
}

/// The Euler integration step shared by all movable entities: one frame
/// simply adds the per-frame velocity to the position.
pub fn advance_linear(position: i64, velocity: i64) -> (r: i64)
    requires
        -1_000_000_000 <= position <= 1_000_000_000,
        -1_000_000_000 <= velocity <= 1_000_000_000,
    ensures
        r == position + velocity,
{
    position + velocity
}

/// Truncating scaled product `v * t / MILLI`, where `t` is a trigonometric
/// ratio scaled by `MILLI`; truncation is toward zero, as in the
/// executable code.
pub open spec fn scale_mul(v: int, t: int) -> int {
    if t >= 0 {
        v * t / (MILLI as int)
    } else {
        -(v * -t / (MILLI as int))
    }
}

/// Multiplies a non-negative speed by a scaled trigonometric ratio,
/// truncating toward zero.
pub fn mul_trig(v: i64, t: i64) -> (r: i64)
    requires
        0 <= v <= 10_000,
        -MILLI <= t <= MILLI,
    ensures
        r == scale_mul(v as int, t as int),
        -v <= r <= v,
{
    proof {
        let tt = if t >= 0 { t as int } else { -(t as int) };
        lemma_mul_inequality(tt, MILLI as int, v as int);
        assert(v as int * tt == tt * v as int) by (nonlinear_arith);
        lemma_div_is_ordered(v as int * tt, v as int * MILLI as int, MILLI as int);
        lemma_div_by_multiple(v as int, MILLI as int);
        lemma_div_pos_is_pos(v as int * tt, MILLI as int);
        assert(0 <= v as int * tt) by (nonlinear_arith)
            requires 0 <= v, 0 <= tt;
    }
    if t >= 0 {
        (v * t) / MILLI
    } else {
        -((v * (-t)) / MILLI)
    }
}

/// Decay of an impulse by the per-frame friction factor 0.97, in
/// fixed point: `|v|` is multiplied by 97 and divided by 100, truncating
/// toward zero.
pub open spec fn spec_decay(v: int) -> int {
    if v >= 0 {
        v * 97 / 100
    } else {
        -(-v * 97 / 100)
    }
}

/// Applies the per-frame friction factor to a speed; the magnitude never
/// grows.
pub fn decay(v: i64) -> (r: i64)
    requires
        -1_000_000 <= v <= 1_000_000,
    ensures
        r == spec_decay(v as int),
        v >= 0 ==> 0 <= r <= v,
        v < 0 ==> v <= r <= 0,
{
    proof {
        let a = if v >= 0 { v as int } else { -(v as int) };
        lemma_mul_inequality(97, 100, a);
        assert(a * 97 == 97 * a && a * 100 == 100 * a) by (nonlinear_arith);
        lemma_div_is_ordered(a * 97, a * 100, 100);
        lemma_div_by_multiple(a, 100);
        lemma_div_pos_is_pos(a * 97, 100);
        assert(0 <= a * 97) by (nonlinear_arith)
            requires 0 <= a;
    }
    if v >= 0 {
        (v * 97) / 100
    } else {
        -((-v * 97) / 100)
    }
}

/// The toroidal wrap policy: a value below `min` re-enters at the far
/// side by adding `max`; a value above `max` re-enters by subtracting
/// `max`; anything else is unchanged.
pub open spec fn spec_wrap(min: int, value: int, max: int) -> int {
    if value < min {
        value + max
    } else if value > max {
        value - max
    } else {
        value
    }
}

/// Wraps a coordinate into the play-field: one step of the toroidal
/// policy used for the player's position.
pub fn min_max_loop(min: i64, value: i64, max: i64) -> (r: i64)
    requires
        -1_000_000_000 <= min <= 1_000_000_000,
        -1_000_000_000 <= value <= 1_000_000_000,
        0 <= max <= 1_000_000_000,
    ensures
        r == spec_wrap(min as int, value as int, max as int),
{
    if value < min {
        value + max
    } else if value > max {
        value - max
    } else {
        value
    }
}

/// Degree-to-radian conversion in fixed point: milli-degrees to
/// milli-radians, approximating pi by 3.141593.
pub open spec fn spec_deg2rad(d: int) -> int {
    if d >= 0 {
        d * 3_141_593 / 180_000_000
    } else {
        -(-d * 3_141_593 / 180_000_000)
    }
}

/// Converts an angle in milli-degrees to milli-radians, truncating
/// toward zero.
pub fn deg2rad(degree: i64) -> (r: i64)
    requires
        -1_000_000 <= degree <= 1_000_000,
    ensures
        r == spec_deg2rad(degree as int),
{
    if degree >= 0 {
        (degree * 3_141_593) / 180_000_000
    } else {
        -((-degree * 3_141_593) / 180_000_000)
    }
}

/// The Bhaskara approximation of the sine on `[0, 180]` degrees, scaled
/// by `MILLI`: `sin(a) ~= 4a(180 - a) / (40500 - a(180 - a))` with `a` in
/// milli-degrees and the result in `[0, MILLI]`.
pub open spec fn sin_half_spec(a: int) -> int {
    4000 * (a * (180_000 - a)) / (40_500_000_000 - a * (180_000 - a))
}

fn sin_half(a: i64) -> (r: i64)
    requires
        0 <= a <= 180_000,
    ensures
        r == sin_half_spec(a as int),
        0 <= r <= MILLI,
{
    proof {
        assert(0 <= a as int * (180_000 - a as int) <= 8_100_000_000) by (nonlinear_arith)
            requires 0 <= a <= 180_000;
    }
    let p: i64 = a * (180_000 - a);
    let num: i64 = 4000 * p;
    let den: i64 = 40_500_000_000 - p;
    proof {
        lemma_div_pos_is_pos(num as int, den as int);
        assert(num as int <= 1000 * den as int);
        lemma_div_is_ordered(num as int, 1000 * den as int, den as int);
        lemma_div_by_multiple(1000, den as int);
    }
    num / den
}

/// Scaled sine over a full turn: odd-symmetric extension of the
/// half-turn approximation.
pub open spec fn sin_mdeg_spec(a: int) -> int {
    if a < 180_000 {
        sin_half_spec(a)
    } else {
        -sin_half_spec(a - 180_000)
    }
}

/// Scaled sine of a normalized angle in milli-degrees; the result is a
/// ratio scaled by `MILLI`.
pub fn sin_mdeg(a: i64) -> (r: i64)
    requires
        0 <= a < FULL_TURN,
    ensures
        r == sin_mdeg_spec(a as int),
        -MILLI <= r <= MILLI,
{
    if a < 180_000 {
        sin_half(a)
    } else {
        -sin_half(a - 180_000)
    }
}

/// Scaled cosine, defined as the sine shifted a quarter turn.
pub open spec fn cos_mdeg_spec(a: int) -> int {
    sin_mdeg_spec(norm_angle(a + 90_000))
}

/// Scaled cosine of a normalized angle in milli-degrees.
pub fn cos_mdeg(a: i64) -> (r: i64)
    requires
        0 <= a < FULL_TURN,
    ensures
        r == cos_mdeg_spec(a as int),
        -MILLI <= r <= MILLI,
{
    let b = advance_angle(a, 90_000);
    sin_mdeg(b)
}

} // verus!

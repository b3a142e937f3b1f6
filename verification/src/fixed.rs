//! Fixed-point scalars.
//!
//! Every scalar quantity of the simulation (a coordinate, a radius, a speed,
//! a colour channel, a time in seconds, an angle in radians) is an `i32` that
//! counts thousandths. Sums, differences and products are computed exactly
//! and then clamped to the `i32` range, so no operation can overflow.

use vstd::prelude::*;

verus! {

/// The scalar 1.0.
pub const ONE: i32 = 1000;

/// Half a turn: pi radians, to three decimals.
pub const HALF_TURN: i32 = 3142;

/// A quarter of a turn.
pub const QUARTER_TURN: i32 = 1571;

/// The period of [`sine`] and [`cosine`]: two half turns.
pub const FULL_TURN: i32 = 6284;

/// The nearest representable scalar to `v`.
pub open spec fn clamp(v: int) -> i32 {
    if v < i32::MIN {
        i32::MIN
    } else if v > i32::MAX {
        i32::MAX
    } else {
        v as i32
    }
}

/// `a / b` rounded toward zero, for a positive `b`.
pub open spec fn quotient(a: int, b: int) -> int
    recommends
        b > 0,
{
    if a >= 0 {
        a / b
    } else {
        -((-a) / b)
    }
}

/// The sum of two scalars, clamped.
pub open spec fn spec_plus(a: i32, b: i32) -> i32 {
    clamp(a + b)
}

/// The difference of two scalars, clamped.
pub open spec fn spec_minus(a: i32, b: i32) -> i32 {
    clamp(a - b)
}

/// The product of two scalars: the exact product of the two counts, divided
/// by [`ONE`] toward zero, clamped.
pub open spec fn spec_times(a: i32, b: i32) -> i32 {
    clamp(quotient(a * b, ONE as int))
}

/// The quotient of two scalars, for a positive divisor: the count of `a`
/// times [`ONE`], divided by the count of `b` toward zero, clamped.
pub open spec fn spec_over(a: i32, b: i32) -> i32
    recommends
        b > 0,
{
    clamp(quotient(a * ONE, b as int))
}

/// The largest whole scalar that is not above `a`.
pub open spec fn spec_floor(a: i32) -> i32 {
    clamp(a - (a as int) % (ONE as int))
}

/// Half of a scalar or of a difference of scalars, rounded toward zero.
pub open spec fn spec_half(d: int) -> int {
    quotient(d, 2)
}

/// Clamps a wide intermediate value to the scalar range.
pub fn saturate(v: i64) -> (r: i32)
    ensures
        r == clamp(v as int),
{
    if v < i32::MIN as i64 {
        i32::MIN
    } else if v > i32::MAX as i64 {
        i32::MAX
    } else {
        v as i32
    }
}

/// `a / b` rounded toward zero.
pub fn div_toward_zero(a: i64, b: i64) -> (r: i64)
    requires
        b > 0,
        a > i64::MIN,
    ensures
        r == quotient(a as int, b as int),
{
    if a >= 0 {
        a / b
    } else {
        let q: i64 = (-a) / b;
        -q
    }
}

/// Saturating sum of two scalars.
#[verifier::when_used_as_spec(spec_plus)]
pub fn plus(a: i32, b: i32) -> (r: i32)
    ensures
        r == spec_plus(a, b),
{
    saturate(a as i64 + b as i64)
}

/// Saturating difference of two scalars.
#[verifier::when_used_as_spec(spec_minus)]
pub fn minus(a: i32, b: i32) -> (r: i32)
    ensures
        r == spec_minus(a, b),
{
    saturate(a as i64 - b as i64)
}

/// Saturating fixed-point product of two scalars.
#[verifier::when_used_as_spec(spec_times)]
pub fn times(a: i32, b: i32) -> (r: i32)
    ensures
        r == spec_times(a, b),
{
    assert(-0x4000_0000_0000_0000 < a * b <= 0x4000_0000_0000_0000) by (nonlinear_arith)
        requires
            -0x8000_0000 <= a <= 0x7fff_ffff,
            -0x8000_0000 <= b <= 0x7fff_ffff,
    ;
    let wide: i64 = (a as i64) * (b as i64);
    saturate(div_toward_zero(wide, ONE as i64))
}

/// Saturating fixed-point quotient of two scalars.
#[verifier::when_used_as_spec(spec_over)]
pub fn over(a: i32, b: i32) -> (r: i32)
    requires
        b > 0,
    ensures
        r == spec_over(a, b),
{
    saturate(div_toward_zero((a as i64) * (ONE as i64), b as i64))
}

/// Half of a scalar, rounded toward zero.
pub fn half(a: i32) -> (r: i32)
    ensures
        r == spec_half(a as int),
{
    div_toward_zero(a as i64, 2) as i32
}

/// Rounds a scalar down to a whole number.
#[verifier::when_used_as_spec(spec_floor)]
pub fn floor(a: i32) -> (r: i32)
    ensures
        r == spec_floor(a),
{
    let one: i64 = ONE as i64;
    let wide: i64 = a as i64;
    let part: i64 = if wide >= 0 {
        wide % one
    } else {
        let back: i64 = (-wide) % one;
        if back == 0 {
            0
        } else {
            one - back
        }
    };
    assert(part == (a as int) % (ONE as int));
    saturate(wide - part)
}

/// [`ONE`] is the unit of the product, and 0 annihilates.
pub proof fn lemma_times_one(a: i32)
    ensures
        spec_times(ONE, a) == a,
        spec_times(a, ONE) == a,
        spec_times(0, a) == 0,
        spec_times(a, 0) == 0,
{
    assert(ONE * a == a * 1000 && a * ONE == a * 1000) by (nonlinear_arith);
    assert(0 * a == 0 && a * 0 == 0) by (nonlinear_arith);
}

/// A factor between -[`ONE`] and [`ONE`] does not enlarge: the product is
/// no further from zero than the other scalar.
pub proof fn lemma_times_shrinks(a: i32, b: i32)
    requires
        -ONE <= a <= ONE,
    ensures
        b >= 0 ==> -b <= spec_times(a, b) <= b,
        b <= 0 ==> b <= spec_times(a, b) <= -b,
{
    assert(b >= 0 ==> -1000 * b <= a * b <= 1000 * b) by (nonlinear_arith)
        requires
            -1000 <= a <= 1000,
    ;
    assert(b <= 0 ==> 1000 * b <= a * b <= -1000 * b) by (nonlinear_arith)
        requires
            -1000 <= a <= 1000,
    ;
}

/// The sine of an angle `x` between zero and half a turn, by Bhaskara's
/// rational approximation `16 x (pi - x) / (5 pi^2 - 4 x (pi - x))`.
pub open spec fn half_wave(x: int) -> int
    recommends
        0 <= x <= HALF_TURN,
{
    let p = x * (3142 - x);
    (16000 * p) / (49360820 - 4 * p)
}

/// The sine of any angle: the angle is reduced to one period, whose second
/// half mirrors the first.
pub open spec fn wave(angle: int) -> int {
    let r = angle % (FULL_TURN as int);
    if r <= HALF_TURN {
        half_wave(r)
    } else {
        -half_wave(r - HALF_TURN)
    }
}

/// The sine of an angle in radians.
pub open spec fn spec_sine(angle: i32) -> i32 {
    wave(angle as int) as i32
}

/// The cosine of an angle in radians: the sine a quarter turn further on.
pub open spec fn spec_cosine(angle: i32) -> i32 {
    wave(angle + QUARTER_TURN) as i32
}

/// Over half a turn the approximation stays between 0 and [`ONE`].
pub proof fn lemma_half_wave_bounds(x: int)
    requires
        0 <= x <= HALF_TURN,
    ensures
        0 <= half_wave(x) <= ONE,
        0 <= x * (HALF_TURN - x) <= 2468041,
{
    let p = x * (HALF_TURN - x);
    assert(0 <= p <= 2468041) by (nonlinear_arith)
        requires
            0 <= x <= 3142,
            p == x * (3142 - x),
    {
        assert((x - 1571) * (x - 1571) >= 0);
        assert(x * (3142 - x) == 2468041 - (x - 1571) * (x - 1571));
    }
    let den = 49360820 - 4 * p;
    assert(0 <= (16000 * p) / den <= 1000) by (nonlinear_arith)
        requires
            0 <= p <= 2468041,
            den == 49360820 - 4 * p,
    {
        assert(den >= 39488656);
        assert(16000 * p <= 1000 * den);
    }
}

/// The sine of every angle lies between -[`ONE`] and [`ONE`].
pub proof fn lemma_wave_bounds(angle: int)
    ensures
        -ONE <= wave(angle) <= ONE,
{
    let r = angle % (FULL_TURN as int);
    if r <= HALF_TURN {
        lemma_half_wave_bounds(r);
    } else {
        lemma_half_wave_bounds(r - HALF_TURN);
    }
}

/// The cardinal directions are exact.
pub proof fn lemma_cardinal_directions()
    ensures
        spec_sine(0) == 0,
        spec_cosine(0) == ONE,
        spec_sine(QUARTER_TURN) == ONE,
        spec_cosine(QUARTER_TURN) == 0,
        spec_sine(HALF_TURN) == 0,
        spec_cosine(HALF_TURN) == -ONE,
{
    assert(half_wave(0) == 0);
    assert(half_wave(1571) == 1000) by {
        assert(1571 * (3142 - 1571) == 2468041) by (nonlinear_arith);
        assert(39488656000int / 39488656int == 1000);
    }
    assert(half_wave(3142) == 0);
}

/// Sine and cosine repeat after a full turn.
pub proof fn lemma_wave_periodic(angle: int)
    ensures
        wave(angle + FULL_TURN) == wave(angle),
{
}

fn wave_of(angle: i64) -> (r: i32)
    requires
        -0x1_0000_0000 <= angle <= 0x1_0000_0000,
    ensures
        r == wave(angle as int),
        -ONE <= r <= ONE,
{
    let turn: i64 = FULL_TURN as i64;
    let half: i64 = HALF_TURN as i64;
    let reduced: i64 = if angle >= 0 {
        angle % turn
    } else {
        let back: i64 = (-angle) % turn;
        if back == 0 {
            0
        } else {
            turn - back
        }
    };
    assert(reduced == (angle as int) % (FULL_TURN as int));
    let mirrored: bool = reduced > half;
    let x: i64 = if mirrored {
        reduced - half
    } else {
        reduced
    };
    proof {
        lemma_half_wave_bounds(x as int);
        lemma_wave_bounds(angle as int);
    }
    let p: i64 = x * (half - x);
    let value: i64 = (16000 * p) / (49360820 - 4 * p);
    if mirrored {
        (-value) as i32
    } else {
        value as i32
    }
}

/// The sine of an angle given in radians, as a scalar.
#[verifier::when_used_as_spec(spec_sine)]
pub fn sine(angle: i32) -> (r: i32)
    ensures
        r == spec_sine(angle),
        -ONE <= r <= ONE,
{
    wave_of(angle as i64)
}

/// The cosine of an angle given in radians, as a scalar: the sine a quarter
/// turn further on.
#[verifier::when_used_as_spec(spec_cosine)]
pub fn cosine(angle: i32) -> (r: i32)
    ensures
        r == spec_cosine(angle),
        -ONE <= r <= ONE,
{
    wave_of(angle as i64 + QUARTER_TURN as i64)
}

} // verus!

//! Fixed-point angles and trigonometry. Angles are stored in tenths
//! of a degree, normalised to one turn; sine and cosine are rational
//! approximations returning thousandths, exact at the axes. On top of
//! them sit the scaled step helpers that turn a heading into one
//! frame's displacement, and the thrust easing curve.

use vstd::prelude::*;

verus! {

use vstd::arithmetic::div_mod::{lemma_div_pos_is_pos, lemma_multiply_divide_le};

/// A full turn in tenth-of-a-degree units.
pub const FULL_TURN: i32 = 3600;

/// Half a turn: 180 degrees.
pub const HALF_TURN: i32 = 1800;

/// A quarter turn: 90 degrees.
pub const QUARTER_TURN: i32 = 900;

/// Angles are kept normalised to one turn.
pub open spec fn angle_wf(a: int) -> bool {
    0 <= a < 3600
}

/// The sum of an angle and an increment, brought back into one turn
/// (the remainder here is the Euclidean one, so it is never negative).
pub open spec fn turned(a: int, inc: int) -> int {
    (a + inc) % 3600
}

/// Add a bounded increment to a normalised angle and renormalise.
pub fn add_angle(a: i32, inc: i32) -> (r: i32)
    requires
        angle_wf(a as int),
        -3600 <= inc <= 3600,
    ensures
        r == turned(a as int, inc as int),
        angle_wf(r as int),
{
    let s: i32 = a + inc;
    if s < 0 {
        s + 3600
    } else if s >= 3600 {
        s - 3600
    } else {
        s
    }
}

/// Half-wave fixed-point sine: for `x` in [0, 1800] tenth-degrees, a
/// rational approximation of `1000 * sin(x * pi / 1800)`, exact at 0,
/// 900 and 1800.
pub open spec fn half_sine_milli(x: int) -> int {
    (4000 * (x * (1800 - x))) / (4050000 - x * (1800 - x))
}

/// Fixed-point sine of a normalised angle, in thousandths.
pub open spec fn sine_milli(a: int) -> int {
    if a <= 1800 {
        half_sine_milli(a)
    } else {
        -half_sine_milli(a - 1800)
    }
}

/// Fixed-point cosine of a normalised angle, in thousandths.
pub open spec fn cosine_milli(a: int) -> int {
    sine_milli(turned(a, 900))
}

proof fn lemma_half_sine_bounds(x: int)
    requires
        0 <= x <= 1800,
    ensures
        0 <= x * (1800 - x) <= 810000,
        0 <= half_sine_milli(x) <= 1000,
{
    assert(0 <= x * (1800 - x) <= 810000) by (nonlinear_arith)
        requires 0 <= x <= 1800;
    let p = x * (1800 - x);
    lemma_div_pos_is_pos(4000 * p, 4050000 - p);
    lemma_multiply_divide_le(4000 * p, 4050000 - p, 1000);
}

fn half_sin_milli(x: i32) -> (r: i32)
    requires
        0 <= x <= 1800,
    ensures
        r == half_sine_milli(x as int),
        0 <= r <= 1000,
{
    proof {
        lemma_half_sine_bounds(x as int);
    }
    let p: i32 = x * (1800 - x);
    let num: i64 = 4000 * (p as i64);
    let den: i64 = 4050000 - (p as i64);
    let q: i64 = num / den;
    q as i32
}

/// Sine of a normalised angle, in thousandths.
pub fn sin_milli(a: i32) -> (r: i32)
    requires
        angle_wf(a as int),
    ensures
        r == sine_milli(a as int),
        -1000 <= r <= 1000,
{
    if a <= 1800 {
        half_sin_milli(a)
    } else {
        -half_sin_milli(a - 1800)
    }
}

/// Cosine of a normalised angle, in thousandths.
pub fn cos_milli(a: i32) -> (r: i32)
    requires
        angle_wf(a as int),
    ensures
        r == cosine_milli(a as int),
        -1000 <= r <= 1000,
{
    let b = add_angle(a, 900);
    sin_milli(b)
}

/// `v * m / 1000`, rounded toward zero: a step length `v` scaled by a
/// trigonometric coefficient `m` given in thousandths.
pub open spec fn scaled_milli(v: int, m: int) -> int {
    if m >= 0 {
        (v * m) / 1000
    } else {
        -((v * -m) / 1000)
    }
}

pub fn scale_milli(v: i32, m: i32) -> (r: i32)
    requires
        0 <= v <= 1000,
        -1000 <= m <= 1000,
    ensures
        r == scaled_milli(v as int, m as int),
        -v <= r <= v,
{
    let mag: i32 = if m >= 0 { m } else { -m };
    proof {
        assert(0 <= v * mag <= 1000000) by (nonlinear_arith)
            requires 0 <= v <= 1000 && 0 <= mag <= 1000;
        assert(v * mag <= 1000 * v) by (nonlinear_arith)
            requires 0 <= v && 0 <= mag <= 1000;
        lemma_div_pos_is_pos(v as int * mag as int, 1000);
        lemma_multiply_divide_le(v as int * mag as int, 1000, v as int);
    }
    let t: i32 = (v * mag) / 1000;
    if m >= 0 {
        t
    } else {
        -t
    }
}

/// `v * m * e / 1000000`, rounded toward zero: a step length scaled
/// by a trigonometric coefficient `m` and an easing factor `e`, both
/// in thousandths.
pub open spec fn eased_milli(v: int, m: int, e: int) -> int {
    if m >= 0 {
        (v * m * e) / 1000000
    } else {
        -((v * -m * e) / 1000000)
    }
}

pub fn ease_scale_milli(v: i32, m: i32, e: i32) -> (r: i32)
    requires
        0 <= v <= 100,
        -1000 <= m <= 1000,
        0 <= e <= 1200,
    ensures
        r == eased_milli(v as int, m as int, e as int),
        -2 * v <= r <= 2 * v,
{
    let mag: i32 = if m >= 0 { m } else { -m };
    proof {
        assert(0 <= v * mag <= 100000) by (nonlinear_arith)
            requires 0 <= v <= 100 && 0 <= mag <= 1000;
        assert(0 <= v * mag * e <= 120000000) by (nonlinear_arith)
            requires 0 <= v <= 100 && 0 <= mag <= 1000 && 0 <= e <= 1200;
        assert(v * mag * e <= 1000000 * (2 * v)) by (nonlinear_arith)
            requires 0 <= v && 0 <= mag <= 1000 && 0 <= e <= 1200;
        lemma_div_pos_is_pos(v as int * mag as int * e as int, 1000000);
        lemma_multiply_divide_le(v as int * mag as int * e as int, 1000000, 2 * v as int);
    }
    let t: i32 = (v * mag * e) / 1000000;
    if m >= 0 {
        t
    } else {
        -t
    }
}

/// One frame of the thrust decay, in thousandths: a ratio of roughly
/// `exp(-1/2)`.
pub open spec fn ease_decay(v: int) -> int {
    (v * 607) / 1000
}

/// The decaying part of the thrust easing after `n` frames without a
/// thrust impulse.
pub open spec fn ease_core_milli(n: nat) -> int
    decreases n,
{
    if n == 0 {
        1000
    } else {
        ease_decay(ease_core_milli((n - 1) as nat))
    }
}

/// The thrust easing factor after `n` frames: the decaying part plus
/// a floor of one fifth, in thousandths.
pub open spec fn thrust_ease_spec(n: nat) -> int {
    ease_core_milli(n) + 200
}

proof fn lemma_ease_core_bounds(n: nat)
    ensures
        0 <= ease_core_milli(n) <= 1000,
    decreases n,
{
    if n > 0 {
        lemma_ease_core_bounds((n - 1) as nat);
        let c = ease_core_milli((n - 1) as nat);
        lemma_div_pos_is_pos(c * 607, 1000);
        lemma_multiply_divide_le(c * 607, 1000, c);
    }
}

proof fn lemma_ease_core_zero(i: nat, n: nat)
    requires
        ease_core_milli(i) == 0,
        i <= n,
    ensures
        ease_core_milli(n) == 0,
    decreases n - i,
{
    if n > i {
        lemma_ease_core_zero(i, (n - 1) as nat);
    }
}

/// The thrust easing factor after `n` frames, computed by running the
/// decay; the loop stops early once the decaying part reaches zero.
pub fn thrust_ease_milli(n: u32) -> (r: i32)
    ensures
        r == thrust_ease_spec(n as nat),
        200 <= r <= 1200,
{
    let mut v: i32 = 1000;
    let mut i: u32 = 0;
    while i < n
        invariant_except_break
            i <= n,
            v == ease_core_milli(i as nat),
            0 <= v <= 1000,
        ensures
            v == ease_core_milli(n as nat),
            0 <= v <= 1000,
        decreases n - i,
    {
        if v == 0 {
            proof {
                lemma_ease_core_zero(i as nat, n as nat);
            }
            break;
        }
        proof {
            lemma_div_pos_is_pos(v as int * 607, 1000);
            lemma_multiply_divide_le(v as int * 607, 1000, v as int);
        }
        v = (v * 607) / 1000;
        i = i + 1;
    }
    proof {
        lemma_ease_core_bounds(n as nat);
    }
    v + 200
}

} // verus!

//! Fixed-point level values and the exponential smoothing step.
//!
//! A level is a `u32` holding a fraction of full scale: `SCALE` stands for
//! 1.0, `SCALE / 2` for one half, and so on.  Raw sample magnitudes, meter
//! positions, peak values and smoothing factors all use this representation.

use vstd::arithmetic::div_mod::{
    lemma_div_is_ordered, lemma_div_multiples_vanish, lemma_div_pos_is_pos,
    lemma_fundamental_div_mod, lemma_mod_division_less_than_divisor,
};
use vstd::arithmetic::mul::{lemma_mul_inequality, lemma_mul_nonnegative};
use vstd::arithmetic::power::{lemma_pow_positive, pow};
use vstd::prelude::*;

verus! {

/// The fixed-point representation of the level 1.0.
pub const SCALE: u32 = 1_000_000;

/// Distance between two levels on the integer line.
pub open spec fn level_distance(a: int, b: int) -> int {
    if a <= b {
        b - a
    } else {
        a - b
    }
}

/// One tick of one-pole exponential smoothing: move `position` toward `raw`
/// by the fraction `factor / SCALE` of their distance, rounding the step
/// toward zero.  This is the fixed-point form of
/// `position - (factor / SCALE) * (position - raw)`.
pub open spec fn smoothed(position: int, raw: int, factor: int) -> int {
    if raw <= position {
        position - (factor * (position - raw)) / (SCALE as int)
    } else {
        position + (factor * (raw - position)) / (SCALE as int)
    }
}

/// `smoothed` iterated `n` times with a constant input `raw`.
pub open spec fn smoothed_iter(position: int, raw: int, factor: int, n: nat) -> int
    decreases n,
{
    if n == 0 {
        position
    } else {
        smoothed(smoothed_iter(position, raw, factor, (n - 1) as nat), raw, factor)
    }
}

/// The smoothing step never overshoots: the new position lies between the
/// old position and the input, whichever side the input is on.
pub proof fn lemma_smoothing_between(position: int, raw: int, factor: int)
    requires
        0 <= factor <= SCALE,
    ensures
        raw <= position ==> raw <= smoothed(position, raw, factor) <= position,
        position <= raw ==> position <= smoothed(position, raw, factor) <= raw,
{
    let s = SCALE as int;
    let d = if raw <= position {
        position - raw
    } else {
        raw - position
    };
    let q = (factor * d) / s;
    lemma_mul_nonnegative(factor, d);
    lemma_div_pos_is_pos(factor * d, s);
    lemma_mul_inequality(factor, s, d);
    lemma_div_is_ordered(factor * d, s * d, s);
    lemma_div_multiples_vanish(d, s);
    assert(q <= d);
}

/// One smoothing tick contracts the distance to the input geometrically:
/// with `d` the distance before the tick and `d2` the distance after it,
/// `d2 * SCALE` lies within one rounding unit of `d * (SCALE - factor)`.
/// Over `n` ticks of constant input the distance therefore shrinks like
/// `(1 - factor / SCALE) ^ n`, up to rounding.
pub proof fn lemma_smoothing_contracts(position: int, raw: int, factor: int)
    requires
        0 <= factor <= SCALE,
    ensures
        level_distance(smoothed(position, raw, factor), raw) <= level_distance(position, raw),
        level_distance(smoothed(position, raw, factor), raw) * SCALE
            >= level_distance(position, raw) * (SCALE - factor),
        level_distance(smoothed(position, raw, factor), raw) * SCALE
            < level_distance(position, raw) * (SCALE - factor) + SCALE,
        factor == SCALE ==> smoothed(position, raw, factor) == raw,
        factor == 0 ==> smoothed(position, raw, factor) == position,
{
    let s = SCALE as int;
    let d = level_distance(position, raw);
    let q = (factor * d) / s;
    lemma_smoothing_between(position, raw, factor);
    assert(level_distance(smoothed(position, raw, factor), raw) == d - q);
    lemma_mul_nonnegative(factor, d);
    lemma_fundamental_div_mod(factor * d, s);
    lemma_mod_division_less_than_divisor(factor * d, s);
    assert(s * q <= factor * d < s * q + s);
    assert((d - q) * s == d * s - q * s) by (nonlinear_arith);
    assert(d * s - factor * d == d * (s - factor)) by (nonlinear_arith);
    assert(q * s == s * q) by (nonlinear_arith);
    if factor == s {
        lemma_div_multiples_vanish(d, s);
        assert(q == d);
    }
    if factor == 0 {
        assert(q == 0) by {
            lemma_div_multiples_vanish(0, s);
        }
    }
}

/// For a constant input the position sequence converges monotonically: the
/// distance to the input never grows from one tick to the next, and every
/// iterate stays between the starting position and the input.
pub proof fn lemma_smoothing_converges(position: int, raw: int, factor: int, n: nat)
    requires
        0 <= factor <= SCALE,
    ensures
        level_distance(smoothed_iter(position, raw, factor, n + 1), raw)
            <= level_distance(smoothed_iter(position, raw, factor, n), raw),
        raw <= position ==> raw <= smoothed_iter(position, raw, factor, n) <= position,
        position <= raw ==> position <= smoothed_iter(position, raw, factor, n) <= raw,
    decreases n,
{
    if n == 0 {
        lemma_smoothing_between(position, raw, factor);
        lemma_smoothing_contracts(position, raw, factor);
    } else {
        lemma_smoothing_converges(position, raw, factor, (n - 1) as nat);
        let p_prev = smoothed_iter(position, raw, factor, (n - 1) as nat);
        let p = smoothed_iter(position, raw, factor, n);
        lemma_smoothing_between(p_prev, raw, factor);
        lemma_smoothing_between(p, raw, factor);
        lemma_smoothing_contracts(p, raw, factor);
    }
}

/// The closed form of the convergence law: after `n` ticks of constant
/// input, the distance to the input has shrunk by the exact geometric
/// factor `((SCALE - factor) / SCALE) ^ n`, up to at most `n` units of
/// accumulated rounding.  Written multiplicatively to stay in integers:
/// with `d_0` the starting distance and `d_n` the distance after `n` ticks,
///
/// `d_0 * (SCALE - factor)^n  <=  d_n * SCALE^n  <=  d_0 * (SCALE - factor)^n + n * SCALE^n`.
pub proof fn lemma_smoothing_geometric_rate(position: int, raw: int, factor: int, n: nat)
    requires
        0 <= factor <= SCALE,
    ensures
        level_distance(smoothed_iter(position, raw, factor, n), raw) * pow(SCALE as int, n)
            >= level_distance(position, raw) * pow(SCALE - factor, n),
        level_distance(smoothed_iter(position, raw, factor, n), raw) * pow(SCALE as int, n)
            <= level_distance(position, raw) * pow(SCALE - factor, n) + n * pow(SCALE as int, n),
    decreases n,
{
    reveal(pow);
    let s = SCALE as int;
    let sf = s - factor;
    let d0 = level_distance(position, raw);
    if n == 0 {
        assert(pow(s, 0) == 1);
        assert(pow(sf, 0) == 1);
    } else {
        lemma_smoothing_geometric_rate(position, raw, factor, (n - 1) as nat);
        let p_prev = smoothed_iter(position, raw, factor, (n - 1) as nat);
        let d_prev = level_distance(p_prev, raw);
        let d_n = level_distance(smoothed_iter(position, raw, factor, n), raw);
        let ps = pow(s, (n - 1) as nat);
        let psf = pow(sf, (n - 1) as nat);
        lemma_smoothing_contracts(p_prev, raw, factor);
        lemma_pow_positive(s, (n - 1) as nat);
        if sf > 0 {
            lemma_pow_positive(sf, (n - 1) as nat);
        } else if n == 1 {
            assert(psf == 1);
        } else {
            assert(psf == sf * pow(sf, (n - 2) as nat));
            assert(psf == 0);
        }
        assert(pow(s, n) == s * ps);
        assert(pow(sf, n) == sf * psf);
        assert(d_n * (s * ps) >= d0 * (sf * psf)) by (nonlinear_arith)
            requires
                d_n * s >= d_prev * sf,
                d_prev * ps >= d0 * psf,
                ps > 0,
                psf >= 0,
                sf >= 0,
                s > 0,
                d_n >= 0,
                d_prev >= 0,
                d0 >= 0,
        ;
        assert(d_n * (s * ps) <= d0 * (sf * psf) + n * (s * ps)) by (nonlinear_arith)
            requires
                d_n * s <= d_prev * sf + s,
                d_prev * ps <= d0 * psf + (n - 1) * ps,
                ps > 0,
                psf >= 0,
                0 <= sf <= s,
                d_n >= 0,
                d_prev >= 0,
                d0 >= 0,
                n >= 1,
        ;
    }
}

/// One tick of exponential smoothing on fixed-point levels.
pub fn smooth_toward(position: u32, raw: u32, factor: u32) -> (r: u32)
    requires
        factor <= SCALE,
    ensures
        r == smoothed(position as int, raw as int, factor as int),
{
    proof {
        lemma_smoothing_between(position as int, raw as int, factor as int);
    }
    if raw <= position {
        let d: u64 = (position - raw) as u64;
        let step: u64 = (factor as u64) * d / (SCALE as u64);
        proof {
            lemma_mul_inequality(factor as int, SCALE as int, d as int);
            lemma_div_is_ordered(factor as int * d as int, SCALE as int * d as int, SCALE as int);
            lemma_div_multiples_vanish(d as int, SCALE as int);
        }
        position - (step as u32)
    } else {
        let d: u64 = (raw - position) as u64;
        let step: u64 = (factor as u64) * d / (SCALE as u64);
        proof {
            lemma_mul_inequality(factor as int, SCALE as int, d as int);
            lemma_div_is_ordered(factor as int * d as int, SCALE as int * d as int, SCALE as int);
            lemma_div_multiples_vanish(d as int, SCALE as int);
        }
        position + (step as u32)
    }
}

} // verus!

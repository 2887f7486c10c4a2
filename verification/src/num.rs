//! Scalar fixed-point arithmetic.
//!
//! Every quantity of the simulation lives in a symmetric fixed-point domain
//! of milli-units: positions and sizes are thousandths of a play-field
//! unit, velocities thousandths of a unit per second, accelerations
//! thousandths of a unit per second squared, and times are milliseconds.
//! Results that could leave the domain are saturated into it by [`clip`];
//! the saturation bound is so far beyond any play-field value that it never
//! fires during actual play, it only keeps every operation total.
//!
//! Divisions truncate toward zero, and each formula divides only once,
//! at its end, so no precision is lost in mid-computation.

use vstd::prelude::*;

verus! {

/// Greatest magnitude any fixed-point quantity may reach: ten billion
/// play-field units (or, for a time, about 317 years).
pub const FX_LIM: i64 = 10_000_000_000_000;

/// The fixed-point domain.
pub open spec fn in_dom(x: int) -> bool {
    -(FX_LIM as int) <= x <= FX_LIM as int
}

/// Saturate an arbitrary integer into the fixed-point domain.
pub open spec fn clip(x: int) -> int {
    if x < -(FX_LIM as int) {
        -(FX_LIM as int)
    } else if x > FX_LIM as int {
        FX_LIM as int
    } else {
        x
    }
}

/// Division truncating toward zero (for a positive divisor).
pub open spec fn tdiv(a: int, b: int) -> int
    recommends
        b > 0,
{
    if a >= 0 {
        a / b
    } else {
        -((-a) / b)
    }
}

/// Division truncating toward zero, for a divisor of either sign.
pub open spec fn tdiv_s(a: int, b: int) -> int
    recommends
        b != 0,
{
    if b > 0 {
        tdiv(a, b)
    } else {
        tdiv(-a, -b)
    }
}

/// Clamp into a closed interval.
pub open spec fn clamp_s(x: int, lo: int, hi: int) -> int
    recommends
        lo <= hi,
{
    if x < lo {
        lo
    } else if x > hi {
        hi
    } else {
        x
    }
}

/// Clamp an `i64` into a closed interval.
pub fn clamp64(x: i64, lo: i64, hi: i64) -> (r: i64)
    requires
        lo <= hi,
    ensures
        r == clamp_s(x as int, lo as int, hi as int),
{
    if x < lo {
        lo
    } else if x > hi {
        hi
    } else {
        x
    }
}

/// Saturate a wide intermediate result back into the fixed-point domain.
pub fn clip_i128(x: i128) -> (r: i64)
    ensures
        r as int == clip(x as int),
{
    let lim: i128 = FX_LIM as i128;
    if x < -lim {
        -FX_LIM
    } else if x > lim {
        FX_LIM
    } else {
        x as i64
    }
}

/// Widening product of two machine words; never overflows.
pub fn mul_i64(a: i64, b: i64) -> (r: i128)
    ensures
        r as int == a * b,
        -0x4000_0000_0000_0000_0000_0000_0000_0000 <= r
            <= 0x4000_0000_0000_0000_0000_0000_0000_0000,
{
    proof {
        assert((a as int) * (b as int) <= 0x8000_0000_0000_0000 * 0x8000_0000_0000_0000
            && (a as int) * (b as int) >= -(0x8000_0000_0000_0000 * 0x8000_0000_0000_0000))
            by (nonlinear_arith)
            requires
                -0x8000_0000_0000_0000 <= a as int <= 0x7FFF_FFFF_FFFF_FFFF,
                -0x8000_0000_0000_0000 <= b as int <= 0x7FFF_FFFF_FFFF_FFFF,
        ;
    }
    (a as i128) * (b as i128)
}

/// Truncating division of a wide intermediate by a positive divisor.
pub fn tdiv_i128(a: i128, b: i128) -> (q: i128)
    requires
        b > 0,
        a > i128::MIN,
    ensures
        q as int == tdiv(a as int, b as int),
{
    if a >= 0 {
        let q0: u128 = (a as u128) / (b as u128);
        proof {
            vstd::arithmetic::div_mod::lemma_div_is_ordered_by_denominator(a as int, 1, b as int);
            vstd::arithmetic::div_mod::lemma_div_basics(a as int);
        }
        q0 as i128
    } else {
        let m: u128 = (-a) as u128;
        let q0: u128 = m / (b as u128);
        proof {
            vstd::arithmetic::div_mod::lemma_div_is_ordered_by_denominator(m as int, 1, b as int);
            vstd::arithmetic::div_mod::lemma_div_basics(m as int);
        }
        -(q0 as i128)
    }
}

/// Truncating division of a wide intermediate, divisor of either sign.
pub fn tdiv_s_i128(a: i128, b: i128) -> (q: i128)
    requires
        b != 0,
        a > i128::MIN,
        b > i128::MIN,
    ensures
        q as int == tdiv_s(a as int, b as int),
{
    if b > 0 {
        tdiv_i128(a, b)
    } else {
        let an: i128 = -a;
        let bn: i128 = -b;
        tdiv_i128(an, bn)
    }
}

/// Euclidean remainder by a positive modulus; the result is in `[0, m)`.
pub fn emod_i128(a: i128, m: i128) -> (r: i128)
    requires
        m > 0,
        a > i128::MIN,
    ensures
        r as int == (a as int) % (m as int),
        0 <= r < m,
{
    proof {
        vstd::arithmetic::div_mod::lemma_mod_bound(a as int, m as int);
    }
    if a >= 0 {
        ((a as u128) % (m as u128)) as i128
    } else {
        let neg: u128 = (-a) as u128;
        let k: u128 = neg % (m as u128);
        proof {
            let ai = a as int;
            let mi = m as int;
            let ki = k as int;
            let qi = (-ai) / mi;
            vstd::arithmetic::div_mod::lemma_fundamental_div_mod(-ai, mi);
            assert(ai == mi * (-qi) - ki) by (nonlinear_arith)
                requires
                    -ai == mi * qi + ki,
            ;
            if ki == 0 {
                vstd::arithmetic::div_mod::lemma_mod_multiples_vanish(-qi, 0, mi);
            } else {
                assert(ai == mi * (-qi - 1) + (mi - ki)) by (nonlinear_arith)
                    requires
                        ai == mi * (-qi) - ki,
                ;
                vstd::arithmetic::div_mod::lemma_mod_multiples_vanish(-qi - 1, mi - ki, mi);
                vstd::arithmetic::div_mod::lemma_small_mod((mi - ki) as nat, mi as nat);
            }
        }
        if k == 0 {
            0
        } else {
            m - (k as i128)
        }
    }
}

/// The magnitude of an integer.
pub open spec fn iabs(a: int) -> int {
    if a >= 0 {
        a
    } else {
        -a
    }
}

/// Truncating division moves its result toward zero: the quotient lies
/// between zero and the dividend.
pub proof fn lemma_tdiv_bound(a: int, b: int)
    requires
        b > 0,
    ensures
        a >= 0 ==> 0 <= tdiv(a, b) <= a,
        a < 0 ==> a <= tdiv(a, b) <= 0,
        iabs(tdiv(a, b)) <= iabs(a),
{
    if a >= 0 {
        vstd::arithmetic::div_mod::lemma_div_is_ordered_by_denominator(a, 1, b);
        vstd::arithmetic::div_mod::lemma_div_basics(a);
        vstd::arithmetic::div_mod::lemma_div_pos_is_pos(a, b);
    } else {
        vstd::arithmetic::div_mod::lemma_div_is_ordered_by_denominator(-a, 1, b);
        vstd::arithmetic::div_mod::lemma_div_basics(-a);
        vstd::arithmetic::div_mod::lemma_div_pos_is_pos(-a, b);
    }
}

/// The sign-handling division moves its result toward zero as well.
pub proof fn lemma_tdiv_s_bound(a: int, b: int)
    requires
        b != 0,
    ensures
        iabs(tdiv_s(a, b)) <= iabs(a),
{
    if b > 0 {
        lemma_tdiv_bound(a, b);
    } else {
        lemma_tdiv_bound(-a, -b);
    }
}

/// The smaller of two integers.
pub open spec fn imin(a: int, b: int) -> int {
    if a <= b {
        a
    } else {
        b
    }
}

/// The larger of two integers.
pub open spec fn imax(a: int, b: int) -> int {
    if a >= b {
        a
    } else {
        b
    }
}

/// Clamp a wide intermediate into a closed `i64` interval.
pub fn clamp_i128(x: i128, lo: i64, hi: i64) -> (r: i64)
    requires
        lo <= hi,
    ensures
        r == clamp_s(x as int, lo as int, hi as int),
{
    if x < lo as i128 {
        lo
    } else if x > hi as i128 {
        hi
    } else {
        x as i64
    }
}

/// Round half away from zero onto the nearest multiple of a thousand.
pub open spec fn round1000(a: int) -> int {
    if a >= 0 {
        ((a + 500) / 1000) * 1000
    } else {
        -(((-a + 500) / 1000) * 1000)
    }
}

/// Round a wide intermediate onto the nearest multiple of a thousand,
/// halves away from zero.
pub fn round_thousand(a: i128) -> (r: i128)
    requires
        a > i128::MIN + 500,
        a < i128::MAX - 500,
    ensures
        r as int == round1000(a as int),
{
    if a >= 0 {
        let q: u128 = ((a as u128) + 500) / 1000;
        proof {
            vstd::arithmetic::div_mod::lemma_fundamental_div_mod(a as int + 500, 1000);
            vstd::arithmetic::div_mod::lemma_mod_bound(a as int + 500, 1000);
            vstd::arithmetic::div_mod::lemma_div_pos_is_pos(a as int + 500, 1000);
        }
        (q * 1000) as i128
    } else {
        let m: u128 = ((-a) as u128) + 500;
        let q: u128 = m / 1000;
        proof {
            vstd::arithmetic::div_mod::lemma_fundamental_div_mod(m as int, 1000);
            vstd::arithmetic::div_mod::lemma_mod_bound(m as int, 1000);
            vstd::arithmetic::div_mod::lemma_div_pos_is_pos(m as int, 1000);
        }
        -((q * 1000) as i128)
    }
}

/// Floor division of a nonnegative machine word by a positive divisor.
pub fn div_pos(a: i64, b: i64) -> (q: i64)
    requires
        a >= 0,
        b > 0,
    ensures
        q == (a as int) / (b as int),
{
    proof {
        vstd::arithmetic::div_mod::lemma_div_is_ordered_by_denominator(a as int, 1, b as int);
        vstd::arithmetic::div_mod::lemma_div_basics(a as int);
        vstd::arithmetic::div_mod::lemma_div_pos_is_pos(a as int, b as int);
    }
    ((a as u64) / (b as u64)) as i64
}

/// Map a raw 32-bit draw onto a closed interval: the draw `0` gives `lo`,
/// the greatest draw gives `hi`, and the steps between are even.
pub open spec fn sample_spec(lo: int, hi: int, raw: u32) -> int
    recommends
        lo <= hi,
{
    lo + (raw as int) * (hi - lo) / 0xFFFF_FFFF
}

/// A drawn sample never leaves its interval.
pub proof fn lemma_sample_in_range(lo: int, hi: int, raw: u32)
    requires
        lo <= hi,
    ensures
        lo <= sample_spec(lo, hi, raw) <= hi,
{
    let span = hi - lo;
    assert((raw as int) * span <= 0xFFFF_FFFF * span && 0 <= (raw as int) * span)
        by (nonlinear_arith)
        requires
            0 <= raw as int <= 0xFFFF_FFFF,
            0 <= span,
    ;
    vstd::arithmetic::div_mod::lemma_div_is_ordered(
        (raw as int) * span,
        0xFFFF_FFFF * span,
        0xFFFF_FFFF,
    );
    vstd::arithmetic::div_mod::lemma_div_multiples_vanish(span, 0xFFFF_FFFF);
    vstd::arithmetic::div_mod::lemma_div_pos_is_pos((raw as int) * span, 0xFFFF_FFFF);
}

/// Map a raw 32-bit draw onto the closed interval `[lo, hi]`.
pub fn sample_in_range(lo: i64, hi: i64, raw: u32) -> (r: i64)
    requires
        lo <= hi,
    ensures
        r as int == sample_spec(lo as int, hi as int, raw),
        lo <= r <= hi,
{
    let span: i128 = (hi as i128) - (lo as i128);
    proof {
        assert((raw as int) * (span as int) <= 0xFFFF_FFFF * (span as int)
            && 0 <= (raw as int) * (span as int)) by (nonlinear_arith)
            requires
                0 <= raw as int <= 0xFFFF_FFFF,
                0 <= span as int,
        ;
    }
    let num: u128 = (raw as u128) * (span as u128);
    let q: u128 = num / 0xFFFF_FFFFu128;
    proof {
        vstd::arithmetic::div_mod::lemma_div_is_ordered(
            num as int,
            0xFFFF_FFFF * (span as int),
            0xFFFF_FFFF,
        );
        vstd::arithmetic::div_mod::lemma_div_multiples_vanish(span as int, 0xFFFF_FFFF);
        vstd::arithmetic::div_mod::lemma_div_pos_is_pos(num as int, 0xFFFF_FFFF);
    }
    let r: i128 = (lo as i128) + (q as i128);
    r as i64
}

} // verus!

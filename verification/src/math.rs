use vstd::prelude::*;

use crate::decimal::{Decimal, DECIMAL_FRACTIONAL, from_ratio_atomics};

verus! {

/// 10^36, the square of the atomic scale; used to invert a fixed-point value.
pub const DECIMAL_FRACTIONAL_SQUARED: u128 = 1_000_000_000_000_000_000_000_000_000_000_000_000;

/// floor(x * n / d), the full-precision ratio multiplication on amounts.
pub open spec fn spec_multiply_ratio(x: int, n: int, d: int) -> int {
    x * n / d
}

/// floor(x * n / d); None when `d` is zero or the product `x * n` does not
/// fit in 128 bits.
pub fn multiply_ratio(x: u128, n: u128, d: u128) -> (r: Option<u128>)
    ensures
        r is Some <==> d > 0 && x * n <= u128::MAX,
        r is Some ==> r->Some_0 == spec_multiply_ratio(x as int, n as int, d as int),
{
    if d == 0 {
        None
    } else {
        match x.checked_mul(n) {
            Some(p) => Some(p / d),
            None => None,
        }
    }
}

/// Exact difference of two fixed-point values; None on underflow.
pub fn decimal_subtraction(a: Decimal, b: Decimal) -> (r: Option<Decimal>)
    ensures
        r is Some <==> b.atomics <= a.atomics,
        r is Some ==> r->Some_0.atomics == a.atomics - b.atomics,
{
    match a.atomics.checked_sub(b.atomics) {
        Some(d) => Some(Decimal { atomics: d }),
        None => None,
    }
}

/// floor to the common scale of the product of two fixed-point values; None
/// when the product of the atomics does not fit in 128 bits.
pub fn decimal_multiplication(a: Decimal, b: Decimal) -> (r: Option<Decimal>)
    ensures
        r is Some <==> a.atomics * b.atomics <= u128::MAX,
        r is Some ==> r->Some_0.atomics == a.atomics * b.atomics / (DECIMAL_FRACTIONAL as int),
{
    match a.atomics.checked_mul(b.atomics) {
        Some(p) => Some(Decimal { atomics: p / DECIMAL_FRACTIONAL }),
        None => None,
    }
}

/// The fixed-point reciprocal 1 / d, rounded down; None when d is zero.
pub fn reverse_decimal(d: Decimal) -> (r: Option<Decimal>)
    ensures
        r is Some <==> d.atomics > 0,
        r is Some ==> r->Some_0.atomics == from_ratio_atomics(
            DECIMAL_FRACTIONAL as int,
            d.atomics as int,
        ),
{
    if d.atomics == 0 {
        None
    } else {
        proof {
            assert(DECIMAL_FRACTIONAL * DECIMAL_FRACTIONAL == DECIMAL_FRACTIONAL_SQUARED)
                by (nonlinear_arith);
        }
        Some(Decimal { atomics: DECIMAL_FRACTIONAL_SQUARED / d.atomics })
    }
}

/// floor(x * d), the amount that a fixed-point rate takes of an integer
/// amount; None when x * atomics does not fit in 128 bits.
pub fn mul_dec(x: u128, d: Decimal) -> (r: Option<u128>)
    ensures
        r is Some <==> x * d.atomics <= u128::MAX,
        r is Some ==> r->Some_0 == x * d.atomics / (DECIMAL_FRACTIONAL as int),
{
    multiply_ratio(x, d.atomics, DECIMAL_FRACTIONAL)
}

/// What it means for `r` to be the integer square root of `n`.
pub open spec fn is_isqrt(n: int, r: int) -> bool {
    0 <= r && r * r <= n && n < (r + 1) * (r + 1)
}

/// The integer square root of a non-negative `n`: the unique `r` with
/// r^2 <= n < (r+1)^2.
pub open spec fn spec_isqrt(n: int) -> int {
    choose|r: int| is_isqrt(n, r)
}

/// The integer square root is unique, so any witness pins `spec_isqrt`.
pub proof fn lemma_isqrt_agrees(n: int, r: int)
    requires
        is_isqrt(n, r),
    ensures
        spec_isqrt(n) == r,
{
    assert(exists|x: int| is_isqrt(n, x)) by {
        assert(is_isqrt(n, r));
    }
    let c = spec_isqrt(n);
    assert(is_isqrt(n, c));
    assert(c == r) by (nonlinear_arith)
        requires
            0 <= c,
            c * c <= n,
            n < (c + 1) * (c + 1),
            0 <= r,
            r * r <= n,
            n < (r + 1) * (r + 1),
    ;
}

/// The integer square root: the unique r with r^2 <= n < (r+1)^2.
pub fn isqrt(n: u128) -> (r: u128)
    ensures
        r * r <= n,
        n < (r + 1) * (r + 1),
        r == spec_isqrt(n as int),
{
    if n == 0 {
        proof {
            lemma_isqrt_agrees(0, 0);
        }
        return 0;
    }
    let mut lo: u128 = 0;
    let mut hi: u128 = 0x10000000000000000;
    proof {
        assert(0x10000000000000000u128 * 0x10000000000000000u128 > u128::MAX as int)
            by (nonlinear_arith);
    }
    while hi - lo > 1
        invariant
            lo < hi,
            hi <= 0x10000000000000000u128,
            lo * lo <= n,
            n < hi * hi,
        decreases hi - lo,
    {
        let mid: u128 = lo + (hi - lo) / 2;
        proof {
            assert(mid * mid <= u128::MAX) by (nonlinear_arith)
                requires
                    mid < 0x10000000000000000u128,
            ;
        }
        if mid * mid <= n {
            lo = mid;
        } else {
            hi = mid;
        }
    }
    proof {
        lemma_isqrt_agrees(n as int, lo as int);
    }
    lo
}

} // verus!

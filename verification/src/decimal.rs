use vstd::prelude::*;

verus! {

/// Number of atomic units in 1.0: fixed-point values carry 18 decimal places.
pub const DECIMAL_FRACTIONAL: u128 = 1_000_000_000_000_000_000;

/// A non-negative fixed-point number with 18 decimal places, stored as a
/// count of atomic units: the value represented is `atomics / 10^18`.
///
/// Rates (commission, slippage tolerance, belief price) and the withdrawal
/// share ratio are carried in this form; every conversion from a quotient
/// rounds down, so a ratio is never overstated.
#[derive(Clone, Copy, Debug, PartialEq, Eq, Structural)]
pub struct Decimal {
    pub atomics: u128,
}

/// floor(n * 10^18 / d): the atomics of the largest fixed-point value that
/// does not exceed the quotient n / d.
pub open spec fn from_ratio_atomics(n: int, d: int) -> int {
    n * DECIMAL_FRACTIONAL / d
}

impl Decimal {
    pub fn zero() -> (r: Decimal)
        ensures
            r.atomics == 0,
    {
        Decimal { atomics: 0 }
    }

    pub fn one() -> (r: Decimal)
        ensures
            r.atomics == DECIMAL_FRACTIONAL,
    {
        Decimal { atomics: DECIMAL_FRACTIONAL }
    }

    /// The largest fixed-point value not above `n / d`.  None when `d` is
    /// zero or the atomics would not fit in 128 bits.
    pub fn from_ratio(n: u128, d: u128) -> (r: Option<Decimal>)
        ensures
            r is Some <==> d > 0 && n * DECIMAL_FRACTIONAL <= u128::MAX,
            r is Some ==> r->Some_0.atomics == from_ratio_atomics(n as int, d as int),
    {
        if d == 0 {
            None
        } else {
            match n.checked_mul(DECIMAL_FRACTIONAL) {
                Some(prod) => Some(Decimal { atomics: prod / d }),
                None => None,
            }
        }
    }

    pub fn is_zero(&self) -> (r: bool)
        ensures
            r == (self.atomics == 0),
    {
        self.atomics == 0
    }

    /// Strict comparison of the represented values: with a common scale this
    /// is a comparison of the atomics.
    pub fn gt(&self, other: &Decimal) -> (r: bool)
        ensures
            r == (self.atomics > other.atomics),
    {
        self.atomics > other.atomics
    }
}

} // verus!

use vstd::prelude::*;

use vstd::arithmetic::div_mod::{
    lemma_div_is_ordered, lemma_div_is_ordered_by_denominator, lemma_div_multiples_vanish,
    lemma_div_pos_is_pos, lemma_fundamental_div_mod, lemma_mod_bound, lemma_multiply_divide_le,
};
use vstd::arithmetic::mul::lemma_mul_inequality;

use crate::decimal::{Decimal, DECIMAL_FRACTIONAL};
use crate::errors::ContractError;
use crate::math::{
    decimal_multiplication, decimal_subtraction, isqrt, mul_dec, multiply_ratio, reverse_decimal,
    spec_isqrt,
};

verus! {

/// Commission rate of 0.3%, fixed at pair creation.
pub const COMMISSION_RATE_NOM: u128 = 3;

pub const COMMISSION_RATE_DENOM: u128 = 1000;

/// A swap quote: computed per request, never persisted.
#[derive(Clone, Copy, Debug, PartialEq, Eq, Structural)]
pub struct SwapQuote {
    /// What the trader receives, commission already deducted.
    pub return_amount: u128,
    /// Loss against the linear price caused by pool depth.
    pub spread_amount: u128,
    /// The 0.3% fee, retained in the pool.
    pub commission_amount: u128,
}

/// The pre-commission output of a swap: the ask reserve minus the floor of
/// the constant product over the grown offer reserve.  The floor rounding
/// means the pool is never a net loser.
pub open spec fn swap_return_pre(op: int, ap: int, oa: int) -> int {
    ap - (op * ap) / (op + oa)
}

/// The commission taken from the pre-commission output, rounded down.
pub open spec fn swap_commission(op: int, ap: int, oa: int) -> int {
    swap_return_pre(op, ap, oa) * COMMISSION_RATE_NOM / (COMMISSION_RATE_DENOM as int)
}

/// What the trader receives: pre-commission output minus commission.
pub open spec fn swap_return(op: int, ap: int, oa: int) -> int {
    swap_return_pre(op, ap, oa) - swap_commission(op, ap, oa)
}

/// The spread: the linear-price output minus the actual pre-commission
/// output, clamped at zero rather than failing on a rounding edge.
pub open spec fn swap_spread(op: int, ap: int, oa: int) -> int {
    let ideal = oa * ap / op;
    let pre = swap_return_pre(op, ap, oa);
    if ideal >= pre {
        ideal - pre
    } else {
        0
    }
}

/// The inputs on which a forward quote is computable in 128-bit arithmetic:
/// the constant product, the grown offer reserve, the linear-price product
/// and the scaled commission must all fit, and the offer reserve must be
/// positive (the linear price divides by it).
pub open spec fn swap_in_range(op: int, ap: int, oa: int) -> bool {
    &&& op * ap <= u128::MAX
    &&& op + oa <= u128::MAX
    &&& op > 0
    &&& oa * ap <= u128::MAX
    &&& swap_return_pre(op, ap, oa) * COMMISSION_RATE_NOM <= u128::MAX
}

/// The constant-product quote for trading `offer_amount` against the
/// pre-trade reserves `offer_pool` and `ask_pool` (the offer reserve must
/// already exclude the funds deposited for this very call).
pub fn compute_swap(offer_pool: u128, ask_pool: u128, offer_amount: u128) -> (r: Result<
    SwapQuote,
    ContractError,
>)
    ensures
        r is Ok <==> swap_in_range(offer_pool as int, ask_pool as int, offer_amount as int),
        r is Err ==> r->Err_0 == ContractError::ArithmeticError,
        r is Ok ==> r->Ok_0.return_amount == swap_return(
            offer_pool as int,
            ask_pool as int,
            offer_amount as int,
        ),
        r is Ok ==> r->Ok_0.spread_amount == swap_spread(
            offer_pool as int,
            ask_pool as int,
            offer_amount as int,
        ),
        r is Ok ==> r->Ok_0.commission_amount == swap_commission(
            offer_pool as int,
            ask_pool as int,
            offer_amount as int,
        ),
{
    let ghost op = offer_pool as int;
    let ghost ap = ask_pool as int;
    let ghost oa = offer_amount as int;
    let cp = match offer_pool.checked_mul(ask_pool) {
        Some(v) => v,
        None => {
            return Err(ContractError::ArithmeticError);
        },
    };
    let denom = match offer_pool.checked_add(offer_amount) {
        Some(v) => v,
        None => {
            return Err(ContractError::ArithmeticError);
        },
    };
    if offer_pool == 0 {
        return Err(ContractError::ArithmeticError);
    }
    let quotient = cp / denom;
    proof {
        // quotient <= ask_pool: op * ap <= denom * ap since op <= denom
        lemma_mul_inequality(op, denom as int, ap);
        lemma_multiply_divide_le(cp as int, denom as int, ap);
    }
    let return_pre = ask_pool - quotient;
    let ideal = match offer_amount.checked_mul(ask_pool) {
        Some(v) => v / offer_pool,
        None => {
            return Err(ContractError::ArithmeticError);
        },
    };
    let spread_amount = if ideal >= return_pre {
        ideal - return_pre
    } else {
        0
    };
    let commission_numer = match return_pre.checked_mul(COMMISSION_RATE_NOM) {
        Some(v) => v,
        None => {
            return Err(ContractError::ArithmeticError);
        },
    };
    let commission_amount = commission_numer / COMMISSION_RATE_DENOM;
    proof {
        // commission <= return_pre: (3 * pre) / 1000 <= (3 * pre) / 3 == pre
        lemma_div_is_ordered_by_denominator(
            commission_numer as int,
            COMMISSION_RATE_NOM as int,
            COMMISSION_RATE_DENOM as int,
        );
        lemma_div_multiples_vanish(return_pre as int, COMMISSION_RATE_NOM as int);
    }
    let return_amount = return_pre - commission_amount;
    Ok(SwapQuote { return_amount, spread_amount, commission_amount })
}

/// A reverse quote: the offer that a requested output would take.
#[derive(Clone, Copy, Debug, PartialEq, Eq, Structural)]
pub struct ReverseQuote {
    /// What the trader would have to offer.
    pub offer_amount: u128,
    /// Loss against the linear price caused by pool depth.
    pub spread_amount: u128,
    /// The 0.3% fee the pool would retain.
    pub commission_amount: u128,
}

/// Atomics of 1 minus the commission rate: 0.997, exactly representable.
pub open spec fn one_minus_commission_atomics() -> int {
    DECIMAL_FRACTIONAL - COMMISSION_RATE_NOM * DECIMAL_FRACTIONAL / (COMMISSION_RATE_DENOM as int)
}

/// Atomics of the fixed-point reciprocal of 0.997, rounded down.
pub open spec fn inv_one_minus_commission_atomics() -> int {
    DECIMAL_FRACTIONAL * DECIMAL_FRACTIONAL / one_minus_commission_atomics()
}

/// The requested output inflated by the commission rate: what the pool must
/// yield before the commission is taken so that `ask` is left after it.
pub open spec fn inflated_ask(ask: int) -> int {
    ask * inv_one_minus_commission_atomics() / (DECIMAL_FRACTIONAL as int)
}

/// The offer that solves the constant-product equation for the inflated
/// output.
pub open spec fn reverse_offer_amount(op: int, ap: int, ask: int) -> int {
    op * ap / (ap - inflated_ask(ask)) - op
}

/// The spread reported with a reverse quote, against the linear price of the
/// computed offer; clamped at zero.
pub open spec fn reverse_spread(op: int, ap: int, ask: int) -> int {
    let ideal = reverse_offer_amount(op, ap, ask) * (ap * DECIMAL_FRACTIONAL / op) / (
    DECIMAL_FRACTIONAL as int);
    if ideal >= inflated_ask(ask) {
        ideal - inflated_ask(ask)
    } else {
        0
    }
}

/// The commission reported with a reverse quote: the commission rate applied
/// to the inflated output.
pub open spec fn reverse_commission(ask: int) -> int {
    inflated_ask(ask) * (COMMISSION_RATE_NOM * DECIMAL_FRACTIONAL / (
    COMMISSION_RATE_DENOM as int)) / (DECIMAL_FRACTIONAL as int)
}

/// The inputs on which a reverse quote stays within 128-bit arithmetic.
pub open spec fn reverse_in_range(op: int, ap: int, ask: int) -> bool {
    &&& op * ap <= u128::MAX
    &&& ask * inv_one_minus_commission_atomics() <= u128::MAX
    &&& op > 0
    &&& ap * DECIMAL_FRACTIONAL <= u128::MAX
    &&& reverse_offer_amount(op, ap, ask) * (ap * DECIMAL_FRACTIONAL / op) <= u128::MAX
    &&& inflated_ask(ask) * (COMMISSION_RATE_NOM * DECIMAL_FRACTIONAL / (
    COMMISSION_RATE_DENOM as int)) <= u128::MAX
}

/// The algebraic inverse of `compute_swap`, used for reverse quotes only:
/// the offer needed so that, after commission, the pool pays out
/// `ask_amount`.  Reports `InsufficientLiquidity` when the inflated output
/// reaches the whole ask reserve.
pub fn compute_offer_amount(offer_pool: u128, ask_pool: u128, ask_amount: u128) -> (r: Result<
    ReverseQuote,
    ContractError,
>)
    ensures
        r is Ok <==> reverse_in_range(offer_pool as int, ask_pool as int, ask_amount as int)
            && inflated_ask(ask_amount as int) < ask_pool,
        r == Err::<ReverseQuote, ContractError>(ContractError::InsufficientLiquidity) <==> {
            &&& offer_pool * ask_pool <= u128::MAX
            &&& ask_amount * inv_one_minus_commission_atomics() <= u128::MAX
            &&& inflated_ask(ask_amount as int) >= ask_pool
        },
        r is Err && r->Err_0 != ContractError::InsufficientLiquidity ==> r->Err_0
            == ContractError::ArithmeticError,
        r is Ok ==> r->Ok_0.offer_amount == reverse_offer_amount(
            offer_pool as int,
            ask_pool as int,
            ask_amount as int,
        ),
        r is Ok ==> r->Ok_0.spread_amount == reverse_spread(
            offer_pool as int,
            ask_pool as int,
            ask_amount as int,
        ),
        r is Ok ==> r->Ok_0.commission_amount == reverse_commission(ask_amount as int),
{
    let ghost op = offer_pool as int;
    let ghost ap = ask_pool as int;
    let ghost ask = ask_amount as int;
    let cp = match offer_pool.checked_mul(ask_pool) {
        Some(v) => v,
        None => {
            return Err(ContractError::ArithmeticError);
        },
    };
    let commission_rate = match Decimal::from_ratio(COMMISSION_RATE_NOM, COMMISSION_RATE_DENOM) {
        Some(d) => d,
        None => {
            return Err(ContractError::ArithmeticError);
        },
    };
    let one_minus_commission = match decimal_subtraction(Decimal::one(), commission_rate) {
        Some(d) => d,
        None => {
            return Err(ContractError::ArithmeticError);
        },
    };
    let inv_one_minus = match reverse_decimal(one_minus_commission) {
        Some(d) => d,
        None => {
            return Err(ContractError::ArithmeticError);
        },
    };
    let before_commission_deduction = match mul_dec(ask_amount, inv_one_minus) {
        Some(v) => v,
        None => {
            return Err(ContractError::ArithmeticError);
        },
    };
    if before_commission_deduction >= ask_pool {
        return Err(ContractError::InsufficientLiquidity);
    }
    let pool_after = ask_pool - before_commission_deduction;
    let quotient = cp / pool_after;
    proof {
        // quotient >= offer_pool: shrinking the denominator from ask_pool
        // to pool_after can only grow the floor of the quotient.
        lemma_div_is_ordered_by_denominator(cp as int, pool_after as int, ap);
        lemma_div_multiples_vanish(op, ap);
        assert(ap * op == op * ap) by (nonlinear_arith);
    }
    let offer_amount = quotient - offer_pool;
    let price = match multiply_ratio(ask_pool, DECIMAL_FRACTIONAL, offer_pool) {
        Some(v) => v,
        None => {
            return Err(ContractError::ArithmeticError);
        },
    };
    let ideal = match multiply_ratio(offer_amount, price, DECIMAL_FRACTIONAL) {
        Some(v) => v,
        None => {
            return Err(ContractError::ArithmeticError);
        },
    };
    let spread_amount = if ideal >= before_commission_deduction {
        ideal - before_commission_deduction
    } else {
        0
    };
    let commission_amount = match mul_dec(before_commission_deduction, commission_rate) {
        Some(v) => v,
        None => {
            return Err(ContractError::ArithmeticError);
        },
    };
    Ok(ReverseQuote { offer_amount, spread_amount, commission_amount })
}

/// The outcome of the spread guard on a swap, in the three mutually
/// exclusive policies:
/// 1. with an expected return, the trade must return at least that much;
/// 2. with a belief price and a maximum spread, the trade fails only when it
///    returns less than the offer priced at the belief AND the shortfall
///    ratio against that expectation exceeds the maximum spread;
/// 3. with a maximum spread alone, the spread's share of the gross
///    linear-price output must not exceed the maximum;
/// 4. with none given, any price is accepted.
/// Arithmetic edges (overflow of a sum or product, an inversion of a zero
/// belief price, a ratio with a zero denominator) surface as
/// `ArithmeticError`.
pub open spec fn spec_assert_max_spread(
    belief_price: Option<Decimal>,
    max_spread: Option<Decimal>,
    expected_return: Option<u128>,
    oa: int,
    ret: int,
    comm: int,
    spread: int,
) -> Result<(), ContractError> {
    if expected_return is Some {
        if ret < expected_return->Some_0 {
            Err(ContractError::SlippageExceeded)
        } else {
            Ok(())
        }
    } else if max_spread is Some && belief_price is Some {
        let ms = max_spread->Some_0.atomics as int;
        let bat = belief_price->Some_0.atomics as int;
        if ret + comm > u128::MAX {
            Err(ContractError::ArithmeticError)
        } else if bat == 0 {
            Err(ContractError::ArithmeticError)
        } else if oa * (DECIMAL_FRACTIONAL * DECIMAL_FRACTIONAL / bat) > u128::MAX {
            Err(ContractError::ArithmeticError)
        } else {
            let gross = ret + comm;
            let expected = oa * (DECIMAL_FRACTIONAL * DECIMAL_FRACTIONAL / bat) / (
            DECIMAL_FRACTIONAL as int);
            if gross < expected {
                if (expected - gross) * DECIMAL_FRACTIONAL > u128::MAX {
                    Err(ContractError::ArithmeticError)
                } else if (expected - gross) * DECIMAL_FRACTIONAL / expected > ms {
                    Err(ContractError::SlippageExceeded)
                } else {
                    Ok(())
                }
            } else {
                Ok(())
            }
        }
    } else if max_spread is Some {
        let ms = max_spread->Some_0.atomics as int;
        if ret + comm > u128::MAX {
            Err(ContractError::ArithmeticError)
        } else if ret + comm + spread > u128::MAX {
            Err(ContractError::ArithmeticError)
        } else if ret + comm + spread == 0 {
            Err(ContractError::ArithmeticError)
        } else if spread * DECIMAL_FRACTIONAL > u128::MAX {
            Err(ContractError::ArithmeticError)
        } else if spread * DECIMAL_FRACTIONAL / (ret + comm + spread) > ms {
            Err(ContractError::SlippageExceeded)
        } else {
            Ok(())
        }
    } else {
        Ok(())
    }
}

/// The spread guard checked before a swap's transfer is emitted.  The
/// commission counts toward the received side in both spread policies, since
/// the pool retains it as value.
pub fn assert_max_spread(
    belief_price: Option<Decimal>,
    max_spread: Option<Decimal>,
    expected_return: Option<u128>,
    offer_amount: u128,
    return_amount: u128,
    commission_amount: u128,
    spread_amount: u128,
) -> (r: Result<(), ContractError>)
    ensures
        r == spec_assert_max_spread(
            belief_price,
            max_spread,
            expected_return,
            offer_amount as int,
            return_amount as int,
            commission_amount as int,
            spread_amount as int,
        ),
{
    if let Some(e) = expected_return {
        if return_amount < e {
            return Err(ContractError::SlippageExceeded);
        }
        return Ok(());
    }
    match (max_spread, belief_price) {
        (Some(ms), Some(bp)) => {
            let gross = match return_amount.checked_add(commission_amount) {
                Some(v) => v,
                None => {
                    return Err(ContractError::ArithmeticError);
                },
            };
            let rev_belief = match reverse_decimal(bp) {
                Some(d) => d,
                None => {
                    return Err(ContractError::ArithmeticError);
                },
            };
            let expected = match mul_dec(offer_amount, rev_belief) {
                Some(v) => v,
                None => {
                    return Err(ContractError::ArithmeticError);
                },
            };
            if gross < expected {
                let shortfall = expected - gross;
                let ratio = match Decimal::from_ratio(shortfall, expected) {
                    Some(d) => d,
                    None => {
                        return Err(ContractError::ArithmeticError);
                    },
                };
                if ratio.gt(&ms) {
                    return Err(ContractError::SlippageExceeded);
                }
            }
            Ok(())
        },
        (Some(ms), None) => {
            let gross = match return_amount.checked_add(commission_amount) {
                Some(v) => v,
                None => {
                    return Err(ContractError::ArithmeticError);
                },
            };
            let total = match gross.checked_add(spread_amount) {
                Some(v) => v,
                None => {
                    return Err(ContractError::ArithmeticError);
                },
            };
            let ratio = match Decimal::from_ratio(spread_amount, total) {
                Some(d) => d,
                None => {
                    return Err(ContractError::ArithmeticError);
                },
            };
            if ratio.gt(&ms) {
                return Err(ContractError::SlippageExceeded);
            }
            Ok(())
        },
        _ => Ok(()),
    }
}

/// The outcome of the liquidity-provision price guard: each deposit ratio,
/// discounted by 1 minus the tolerance, must not exceed the corresponding
/// pool ratio.  The two sides are checked in turn, so a violation on the
/// first side is reported even when the second side's ratio would not be
/// computable.
pub open spec fn spec_assert_slippage_tolerance(
    slippage_tolerance: Option<Decimal>,
    d0: int,
    d1: int,
    p0: int,
    p1: int,
) -> Result<(), ContractError> {
    if slippage_tolerance is None {
        Ok(())
    } else {
        let t = slippage_tolerance->Some_0.atomics as int;
        if t > DECIMAL_FRACTIONAL {
            Err(ContractError::ArithmeticError)
        } else {
            let omt = DECIMAL_FRACTIONAL - t;
            if !(d1 > 0 && d0 * DECIMAL_FRACTIONAL <= u128::MAX) {
                Err(ContractError::ArithmeticError)
            } else if (d0 * DECIMAL_FRACTIONAL / d1) * omt > u128::MAX {
                Err(ContractError::ArithmeticError)
            } else if !(p1 > 0 && p0 * DECIMAL_FRACTIONAL <= u128::MAX) {
                Err(ContractError::ArithmeticError)
            } else if (d0 * DECIMAL_FRACTIONAL / d1) * omt / (DECIMAL_FRACTIONAL as int) > p0
                * DECIMAL_FRACTIONAL / p1 {
                Err(ContractError::SlippageExceeded)
            } else if !(d0 > 0 && d1 * DECIMAL_FRACTIONAL <= u128::MAX) {
                Err(ContractError::ArithmeticError)
            } else if (d1 * DECIMAL_FRACTIONAL / d0) * omt > u128::MAX {
                Err(ContractError::ArithmeticError)
            } else if !(p0 > 0 && p1 * DECIMAL_FRACTIONAL <= u128::MAX) {
                Err(ContractError::ArithmeticError)
            } else if (d1 * DECIMAL_FRACTIONAL / d0) * omt / (DECIMAL_FRACTIONAL as int) > p1
                * DECIMAL_FRACTIONAL / p0 {
                Err(ContractError::SlippageExceeded)
            } else {
                Ok(())
            }
        }
    }
}

/// The liquidity-provision price guard: protects a provider from depositing
/// at a price that has moved beyond the stated tolerance.
pub fn assert_slippage_tolerance(
    slippage_tolerance: Option<Decimal>,
    deposit_0: u128,
    deposit_1: u128,
    pool_0: u128,
    pool_1: u128,
) -> (r: Result<(), ContractError>)
    ensures
        r == spec_assert_slippage_tolerance(
            slippage_tolerance,
            deposit_0 as int,
            deposit_1 as int,
            pool_0 as int,
            pool_1 as int,
        ),
{
    let tol = match slippage_tolerance {
        Some(t) => t,
        None => {
            return Ok(());
        },
    };
    let one_minus_tolerance = match decimal_subtraction(Decimal::one(), tol) {
        Some(d) => d,
        None => {
            return Err(ContractError::ArithmeticError);
        },
    };
    let ratio_0 = match Decimal::from_ratio(deposit_0, deposit_1) {
        Some(d) => d,
        None => {
            return Err(ContractError::ArithmeticError);
        },
    };
    let discounted_0 = match decimal_multiplication(ratio_0, one_minus_tolerance) {
        Some(d) => d,
        None => {
            return Err(ContractError::ArithmeticError);
        },
    };
    let pool_ratio_0 = match Decimal::from_ratio(pool_0, pool_1) {
        Some(d) => d,
        None => {
            return Err(ContractError::ArithmeticError);
        },
    };
    if discounted_0.gt(&pool_ratio_0) {
        return Err(ContractError::SlippageExceeded);
    }
    let ratio_1 = match Decimal::from_ratio(deposit_1, deposit_0) {
        Some(d) => d,
        None => {
            return Err(ContractError::ArithmeticError);
        },
    };
    let discounted_1 = match decimal_multiplication(ratio_1, one_minus_tolerance) {
        Some(d) => d,
        None => {
            return Err(ContractError::ArithmeticError);
        },
    };
    let pool_ratio_1 = match Decimal::from_ratio(pool_1, pool_0) {
        Some(d) => d,
        None => {
            return Err(ContractError::ArithmeticError);
        },
    };
    if discounted_1.gt(&pool_ratio_1) {
        return Err(ContractError::SlippageExceeded);
    }
    Ok(())
}

/// The inputs on which the minted share is computable: the first deposit's
/// product must fit, later deposits need positive reserves and fitting
/// scaled deposits.
pub open spec fn share_in_range(t: int, d0: int, d1: int, p0: int, p1: int) -> bool {
    if t == 0 {
        d0 * d1 <= u128::MAX
    } else {
        p0 > 0 && p1 > 0 && d0 * t <= u128::MAX && d1 * t <= u128::MAX
    }
}

/// The share minted against an existing supply: the smaller of the two
/// deposit-to-reserve ratios, so a lopsided deposit cannot mint
/// disproportionate shares.
pub open spec fn ratio_share(t: int, d0: int, d1: int, p0: int, p1: int) -> int {
    let s0 = d0 * t / p0;
    let s1 = d1 * t / p1;
    if s0 <= s1 {
        s0
    } else {
        s1
    }
}

/// The liquidity share minted for a deposit pair: the integer square root
/// of the deposit product when the pair is fresh, the minimum
/// deposit-to-reserve ratio otherwise.
pub open spec fn minted_share(t: int, d0: int, d1: int, p0: int, p1: int) -> int {
    if t == 0 {
        spec_isqrt(d0 * d1)
    } else {
        ratio_share(t, d0, d1, p0, p1)
    }
}

/// The liquidity share minted for a deposit pair against the pre-deposit
/// reserves: the integer square root of the deposit product when the pair is
/// fresh, the minimum deposit-to-reserve ratio otherwise.
pub fn compute_share(
    total_share: u128,
    deposit_0: u128,
    deposit_1: u128,
    pool_0: u128,
    pool_1: u128,
) -> (r: Result<u128, ContractError>)
    ensures
        r is Ok <==> share_in_range(
            total_share as int,
            deposit_0 as int,
            deposit_1 as int,
            pool_0 as int,
            pool_1 as int,
        ),
        r is Err ==> r->Err_0 == ContractError::ArithmeticError,
        r is Ok && total_share > 0 ==> r->Ok_0 == ratio_share(
            total_share as int,
            deposit_0 as int,
            deposit_1 as int,
            pool_0 as int,
            pool_1 as int,
        ),
        r is Ok && total_share == 0 ==> r->Ok_0 * r->Ok_0 <= deposit_0 * deposit_1
            < (r->Ok_0 + 1) * (r->Ok_0 + 1),
        r is Ok ==> r->Ok_0 == minted_share(
            total_share as int,
            deposit_0 as int,
            deposit_1 as int,
            pool_0 as int,
            pool_1 as int,
        ),
{
    if total_share == 0 {
        let prod = match deposit_0.checked_mul(deposit_1) {
            Some(v) => v,
            None => {
                return Err(ContractError::ArithmeticError);
            },
        };
        Ok(isqrt(prod))
    } else {
        let s0 = match multiply_ratio(deposit_0, total_share, pool_0) {
            Some(v) => v,
            None => {
                return Err(ContractError::ArithmeticError);
            },
        };
        let s1 = match multiply_ratio(deposit_1, total_share, pool_1) {
            Some(v) => v,
            None => {
                return Err(ContractError::ArithmeticError);
            },
        };
        Ok(if s0 <= s1 { s0 } else { s1 })
    }
}

/// The inputs on which a withdrawal refund is computable.
pub open spec fn refund_in_range(pool: int, amount: int, total: int) -> bool {
    &&& total > 0
    &&& amount * DECIMAL_FRACTIONAL <= u128::MAX
    &&& pool * (amount * DECIMAL_FRACTIONAL / total) <= u128::MAX
}

/// The refund of one pooled asset for burning `amount` of `total` shares:
/// the reserve times the fixed-point share ratio, both rounded down.
pub open spec fn refund_amount(pool: int, amount: int, total: int) -> int {
    pool * (amount * DECIMAL_FRACTIONAL / total) / (DECIMAL_FRACTIONAL as int)
}

/// The refund of one pooled asset when `amount` of `total_share` liquidity
/// tokens are burnt: fixed-point share-ratio semantics, not a bare integer
/// quotient.
pub fn compute_refund(pool_amount: u128, amount: u128, total_share: u128) -> (r: Result<
    u128,
    ContractError,
>)
    ensures
        r is Ok <==> refund_in_range(pool_amount as int, amount as int, total_share as int),
        r is Err ==> r->Err_0 == ContractError::ArithmeticError,
        r is Ok ==> r->Ok_0 == refund_amount(pool_amount as int, amount as int, total_share as int),
{
    let share_ratio = match Decimal::from_ratio(amount, total_share) {
        Some(d) => d,
        None => {
            return Err(ContractError::ArithmeticError);
        },
    };
    match mul_dec(pool_amount, share_ratio) {
        Some(v) => Ok(v),
        None => Err(ContractError::ArithmeticError),
    }
}

/// A share whose scaled weight does not exceed its deposit's share of the
/// grown pool is refunded at most the deposit: the core bound behind the
/// liquidity round trip.
proof fn lemma_refund_bounded(p: int, d: int, t: int, s: int)
    requires
        0 <= p,
        0 <= d,
        0 <= t,
        0 <= s,
        t + s > 0,
        s * p <= d * t,
    ensures
        refund_amount(p + d, s, t + s) <= d,
{
    let e = DECIMAL_FRACTIONAL as int;
    let q1 = s * e / (t + s);
    lemma_fundamental_div_mod(s * e, t + s);
    lemma_mod_bound(s * e, t + s);
    lemma_div_pos_is_pos(s * e, t + s);
    assert((t + s) * q1 <= s * e);
    let lhs = (p + d) * q1;
    assert(s * (p + d) <= d * (t + s)) by (nonlinear_arith)
        requires
            s * p <= d * t,
    ;
    assert((t + s) * lhs <= s * e * (p + d)) by (nonlinear_arith)
        requires
            (t + s) * q1 <= s * e,
            lhs == (p + d) * q1,
            0 <= p + d,
    ;
    assert(s * e * (p + d) <= d * (t + s) * e) by (nonlinear_arith)
        requires
            s * (p + d) <= d * (t + s),
            0 <= e,
    ;
    assert(lhs <= d * e) by (nonlinear_arith)
        requires
            (t + s) * lhs <= d * (t + s) * e,
            t + s > 0,
    ;
    lemma_multiply_divide_le(lhs, e, d);
}

/// The liquidity round trip never pays out more than was put in: providing
/// deposits `d0`, `d1` against reserves `p0`, `p1` and supply `t`, then at
/// once withdrawing the exact minted share `s` from the grown pool, refunds
/// at most `d0` and at most `d1` — floor rounding always favours the pool.
pub proof fn lemma_liquidity_round_trip(t: int, d0: int, d1: int, p0: int, p1: int, s: int)
    requires
        0 <= t,
        0 <= d0,
        0 <= d1,
        0 <= p0,
        0 <= p1,
        0 <= s,
        // the supply is zero only on a fresh pair with empty reserves, and
        // the first minted share is the root of the deposit product
        t == 0 ==> p0 == 0 && p1 == 0 && s * s <= d0 * d1,
        t > 0 ==> p0 > 0 && p1 > 0 && s == ratio_share(t, d0, d1, p0, p1),
        t + s > 0,
    ensures
        refund_amount(p0 + d0, s, t + s) <= d0,
        refund_amount(p1 + d1, s, t + s) <= d1,
{
    if t == 0 {
        lemma_refund_bounded(p0, d0, t, s);
        lemma_refund_bounded(p1, d1, t, s);
    } else {
        let s0 = d0 * t / p0;
        let s1 = d1 * t / p1;
        lemma_fundamental_div_mod(d0 * t, p0);
        lemma_mod_bound(d0 * t, p0);
        lemma_fundamental_div_mod(d1 * t, p1);
        lemma_mod_bound(d1 * t, p1);
        assert(p0 * s0 <= d0 * t);
        assert(p1 * s1 <= d1 * t);
        assert(s * p0 <= d0 * t) by (nonlinear_arith)
            requires
                s <= s0,
                p0 * s0 <= d0 * t,
                0 <= s,
                0 <= p0,
        ;
        assert(s * p1 <= d1 * t) by (nonlinear_arith)
            requires
                s <= s1,
                p1 * s1 <= d1 * t,
                0 <= s,
                0 <= p1,
        ;
        lemma_refund_bounded(p0, d0, t, s);
        lemma_refund_bounded(p1, d1, t, s);
    }
}

/// One direction of the reverse quote's inversion: offering what
/// `compute_offer_amount` asks for returns at most the requested output.
/// Both directions round in the pool's favour, so the round trip can fall a
/// few units short of `ask` but can never overshoot it.  (How far short is
/// a matter of rounding and is exercised by tests; it is not bounded by one
/// unit on all inputs.)
pub proof fn lemma_reverse_quote_never_overshoots(op: int, ap: int, ask: int)
    requires
        op > 0,
        0 <= ask,
        inflated_ask(ask) < ap,
    ensures
        swap_return(op, ap, reverse_offer_amount(op, ap, ask)) <= ask,
{
    let e = DECIMAL_FRACTIONAL as int;
    let omc = one_minus_commission_atomics();
    let inv = inv_one_minus_commission_atomics();
    assert(omc == 997_000_000_000_000_000);
    assert(inv == 1_003_009_027_081_243_731);
    let infl = inflated_ask(ask);
    // 0 <= infl and infl * e <= ask * inv
    lemma_div_pos_is_pos(ask * inv, e);
    lemma_fundamental_div_mod(ask * inv, e);
    lemma_mod_bound(ask * inv, e);
    assert(0 <= infl && infl * e <= ask * inv);
    // scale by 997: the inflation never exceeds ask / 0.997
    assert(997 * infl <= 1000 * ask);
    let cp = op * ap;
    let denom = ap - infl;
    let q0 = cp / denom;
    // q0 >= op: shrinking the denominator from ap to denom grows the floor
    lemma_div_pos_is_pos(cp, denom);
    lemma_div_is_ordered_by_denominator(cp, denom, ap);
    lemma_div_multiples_vanish(op, ap);
    assert(ap * op == op * ap) by (nonlinear_arith);
    assert(q0 >= op);
    // cp / q0 >= denom, because q0 * denom <= cp
    lemma_fundamental_div_mod(cp, denom);
    lemma_mod_bound(cp, denom);
    assert(denom * q0 <= cp);
    lemma_div_is_ordered(denom * q0, cp, q0);
    lemma_div_multiples_vanish(denom, q0);
    assert(q0 * denom == denom * q0) by (nonlinear_arith);
    assert(cp / q0 >= denom);
    // so the forward gross return is at most the inflated ask
    let offer = reverse_offer_amount(op, ap, ask);
    assert(op + offer == q0);
    let pre = swap_return_pre(op, ap, offer);
    assert(pre == ap - cp / q0);
    assert(pre <= infl);
    // and it is non-negative: cp / q0 <= cp / op == ap
    lemma_div_is_ordered_by_denominator(cp, op, q0);
    lemma_div_multiples_vanish(ap, op);
    assert(op * ap == ap * op) by (nonlinear_arith);
    assert(0 <= pre);
    // the commission floor leaves at most 0.997 * pre + 1
    let c = pre * COMMISSION_RATE_NOM / (COMMISSION_RATE_DENOM as int);
    lemma_fundamental_div_mod(pre * 3, 1000);
    lemma_mod_bound(pre * 3, 1000);
    assert(pre * 3 == 3 * pre) by (nonlinear_arith);
    assert(1000 * c >= 3 * pre - 999);
    assert(1000 * (pre - c) <= 997 * pre + 999);
    assert(997 * pre <= 997 * infl);
    assert(1000 * (pre - c) <= 1000 * ask + 999);
    assert(swap_return(op, ap, offer) == pre - c);
}

/// The trade simulated by `compute_swap` never increases the constant
/// product: moving the offer reserve up by the offer and the ask reserve
/// down by the pre-commission return keeps the product of the reserves at
/// most what it was (the commission retained in the pool only adds to this).
pub proof fn lemma_swap_product_not_increased(op: int, ap: int, oa: int)
    requires
        op > 0,
        ap > 0,
        oa > 0,
    ensures
        op * ap >= (op + oa) * (ap - swap_return_pre(op, ap, oa)),
{
    let d = op + oa;
    let x = op * ap;
    lemma_fundamental_div_mod(x, d);
    lemma_mod_bound(x, d);
    assert(d * (x / d) <= x);
    assert(ap - swap_return_pre(op, ap, oa) == x / d);
    assert((op + oa) * (ap - swap_return_pre(op, ap, oa)) == d * (x / d)) by (nonlinear_arith)
        requires
            d == op + oa,
            ap - swap_return_pre(op, ap, oa) == x / d,
    ;
}

} // verus!

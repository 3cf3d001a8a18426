//! The Trove accounting engine: pure fixed-precision computations of
//! composite debt and collateralization ratios, and the checked
//! collateral/debt delta primitives.  Nothing here checks authorization or
//! status — that is the lifecycle controller's job.

use vstd::prelude::*;
use vstd::arithmetic::div_mod::{
    lemma_div_basics, lemma_div_is_ordered, lemma_div_is_ordered_by_denominator,
};
use vstd::arithmetic::mul::{lemma_mul_inequality, lemma_mul_nonnegative};
use crate::error::ContractError;
use crate::trove_manager::{Trove, TroveView};

verus! {

/// Scale applied to the nominal individual collateralization ratio.
pub const NICR_PRECISION: u128 = 100_000_000_000_000_000_000;

/// One unit in the fixed-point representation of ratios and prices.
pub const DECIMAL_PRECISION: u128 = 1_000_000_000_000_000_000;

/// The minimum collateral ratio: positions at or below it are liquidatable.
pub const MCR: u128 = 1_100_000_000_000_000_000;

/// Reserve added to every position's debt to fund liquidation incentives.
pub const ULTRA_GAS_COMPENSATION: u128 = 200_000_000;

/// `collateral * scale / debt` over the unbounded integers.
pub open spec fn spec_ratio(coll: u128, scale: u128, debt: u128) -> int
    recommends
        debt > 0,
{
    (coll * scale) / (debt as int)
}

/// The nominal ICR: `collateral * NICR_PRECISION / debt`, taken as the
/// maximum representable value when the position carries no debt.
pub open spec fn spec_nominal_icr(coll: u128, debt: u128) -> int {
    if debt == 0 {
        u128::MAX as int
    } else {
        spec_ratio(coll, NICR_PRECISION, debt)
    }
}

/// The current ICR: `collateral * price / debt`, under the same zero-debt
/// convention.
pub open spec fn spec_current_icr(coll: u128, debt: u128, price: u128) -> int {
    if debt == 0 {
        u128::MAX as int
    } else {
        spec_ratio(coll, price, debt)
    }
}

/// The nominal individual collateralization ratio of a position, or an
/// arithmetic fault when the scaled collateral exceeds the integer range.
pub fn nominal_icr(coll: u128, debt: u128) -> (res: Result<u128, ContractError>)
    ensures
        debt == 0 ==> res == Ok::<u128, ContractError>(u128::MAX),
        debt != 0 && coll * NICR_PRECISION <= u128::MAX ==> res == Ok::<u128, ContractError>(
            spec_nominal_icr(coll, debt) as u128,
        ),
        debt != 0 && coll * NICR_PRECISION > u128::MAX ==> res == Err::<u128, ContractError>(
            ContractError::Overflow,
        ),
{
    if debt == 0 {
        return Ok(u128::MAX);
    }
    match coll.checked_mul(NICR_PRECISION) {
        Some(scaled) => Ok(scaled / debt),
        None => Err(ContractError::Overflow),
    }
}

/// The current individual collateralization ratio of a position at the
/// given oracle price, or an arithmetic fault when `collateral * price`
/// exceeds the integer range.
pub fn current_icr(coll: u128, debt: u128, price: u128) -> (res: Result<u128, ContractError>)
    ensures
        debt == 0 ==> res == Ok::<u128, ContractError>(u128::MAX),
        debt != 0 && coll * price <= u128::MAX ==> res == Ok::<u128, ContractError>(
            spec_current_icr(coll, debt, price) as u128,
        ),
        debt != 0 && coll * price > u128::MAX ==> res == Err::<u128, ContractError>(
            ContractError::Overflow,
        ),
{
    if debt == 0 {
        return Ok(u128::MAX);
    }
    match coll.checked_mul(price) {
        Some(scaled) => Ok(scaled / debt),
        None => Err(ContractError::Overflow),
    }
}

/// A position's total debt: its net debt plus the gas compensation
/// reserve, or an arithmetic fault when the sum exceeds the integer range.
pub fn composite_debt(net_debt: u128) -> (res: Result<u128, ContractError>)
    ensures
        net_debt + ULTRA_GAS_COMPENSATION <= u128::MAX ==> res == Ok::<u128, ContractError>(
            (net_debt + ULTRA_GAS_COMPENSATION) as u128,
        ),
        net_debt + ULTRA_GAS_COMPENSATION > u128::MAX ==> res == Err::<u128, ContractError>(
            ContractError::Overflow,
        ),
{
    match net_debt.checked_add(ULTRA_GAS_COMPENSATION) {
        Some(d) => Ok(d),
        None => Err(ContractError::Overflow),
    }
}

/// A ratio whose scaled numerator is representable is itself
/// representable: dividing by a positive debt cannot grow it.
pub proof fn lemma_ratio_in_range(coll: u128, scale: u128, debt: u128)
    requires
        debt > 0,
        coll * scale <= u128::MAX,
    ensures
        0 <= spec_ratio(coll, scale, debt) <= u128::MAX,
{
    lemma_mul_nonnegative(coll as int, scale as int);
    lemma_div_is_ordered_by_denominator(coll * scale, 1, debt as int);
    lemma_div_basics(coll * scale);
}

/// `scale * coll / debt` grows with collateral and shrinks with debt:
/// with `c1 <= c2` and `0 < d1 <= d2`, the ratio at `(c1, d2)` is at most
/// the ratio at `(c2, d1)`.
pub proof fn lemma_ratio_monotonic(c1: u128, c2: u128, scale: u128, d1: u128, d2: u128)
    requires
        c1 <= c2,
        0 < d1 <= d2,
    ensures
        spec_ratio(c1, scale, d2) <= spec_ratio(c2, scale, d1),
{
    lemma_mul_inequality(c1 as int, c2 as int, scale as int);
    lemma_div_is_ordered(c1 * scale, c2 * scale, d2 as int);
    lemma_mul_nonnegative(c2 as int, scale as int);
    lemma_div_is_ordered_by_denominator(c2 * scale, d1 as int, d2 as int);
}

/// The nominal ICR is monotonically increasing in collateral and
/// monotonically decreasing in debt, for positions that carry debt.
pub proof fn lemma_nominal_icr_monotonic(c1: u128, c2: u128, d1: u128, d2: u128)
    requires
        c1 <= c2,
        0 < d1 <= d2,
    ensures
        spec_nominal_icr(c1, d2) <= spec_nominal_icr(c2, d1),
{
    lemma_ratio_monotonic(c1, c2, NICR_PRECISION, d1, d2);
}

/// The current ICR is monotonically increasing in collateral and
/// monotonically decreasing in debt, for positions that carry debt.
pub proof fn lemma_current_icr_monotonic(c1: u128, c2: u128, price: u128, d1: u128, d2: u128)
    requires
        c1 <= c2,
        0 < d1 <= d2,
    ensures
        spec_current_icr(c1, d2, price) <= spec_current_icr(c2, d1, price),
{
    lemma_ratio_monotonic(c1, c2, price, d1, d2);
}

/// Add `delta` to a position's collateral, or report an overflow fault.
pub fn increase_collateral(t: &Trove, delta: u128) -> (res: Result<Trove, ContractError>)
    ensures
        t.juno + delta <= u128::MAX ==> res is Ok && res->Ok_0@ == (TroveView {
            juno: (t.juno + delta) as u128,
            ..t@
        }),
        t.juno + delta > u128::MAX ==> res == Err::<Trove, ContractError>(ContractError::Overflow),
{
    match t.juno.checked_add(delta) {
        Some(juno) => Ok(
            Trove {
                juno,
                ultra_debt: t.ultra_debt,
                stake: t.stake,
                status: t.status,
                owner: t.owner.clone(),
            },
        ),
        None => Err(ContractError::Overflow),
    }
}

/// Subtract `delta` from a position's collateral, or report an underflow
/// fault when `delta` exceeds the collateral held.
pub fn decrease_collateral(t: &Trove, delta: u128) -> (res: Result<Trove, ContractError>)
    ensures
        delta <= t.juno ==> res is Ok && res->Ok_0@ == (TroveView {
            juno: (t.juno - delta) as u128,
            ..t@
        }),
        delta > t.juno ==> res == Err::<Trove, ContractError>(ContractError::Underflow),
{
    match t.juno.checked_sub(delta) {
        Some(juno) => Ok(
            Trove {
                juno,
                ultra_debt: t.ultra_debt,
                stake: t.stake,
                status: t.status,
                owner: t.owner.clone(),
            },
        ),
        None => Err(ContractError::Underflow),
    }
}

/// Add `delta` to a position's debt, or report an overflow fault.
pub fn increase_debt(t: &Trove, delta: u128) -> (res: Result<Trove, ContractError>)
    ensures
        t.ultra_debt + delta <= u128::MAX ==> res is Ok && res->Ok_0@ == (TroveView {
            ultra_debt: (t.ultra_debt + delta) as u128,
            ..t@
        }),
        t.ultra_debt + delta > u128::MAX ==> res == Err::<Trove, ContractError>(
            ContractError::Overflow,
        ),
{
    match t.ultra_debt.checked_add(delta) {
        Some(ultra_debt) => Ok(
            Trove {
                juno: t.juno,
                ultra_debt,
                stake: t.stake,
                status: t.status,
                owner: t.owner.clone(),
            },
        ),
        None => Err(ContractError::Overflow),
    }
}

/// Subtract `delta` from a position's debt, or report an underflow fault
/// when `delta` exceeds the debt outstanding.
pub fn decrease_debt(t: &Trove, delta: u128) -> (res: Result<Trove, ContractError>)
    ensures
        delta <= t.ultra_debt ==> res is Ok && res->Ok_0@ == (TroveView {
            ultra_debt: (t.ultra_debt - delta) as u128,
            ..t@
        }),
        delta > t.ultra_debt ==> res == Err::<Trove, ContractError>(ContractError::Underflow),
{
    match t.ultra_debt.checked_sub(delta) {
        Some(ultra_debt) => Ok(
            Trove {
                juno: t.juno,
                ultra_debt,
                stake: t.stake,
                status: t.status,
                owner: t.owner.clone(),
            },
        ),
        None => Err(ContractError::Underflow),
    }
}

} // verus!

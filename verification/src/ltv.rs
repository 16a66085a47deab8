//! The solvency rule: a loan-to-value bound in fixed-point arithmetic.
//!
//! Collateral is counted in units of 10^-18, prices and debts in units of
//! 10^-6 of a dollar, and the bound in basis points. Products that would
//! not fit in 128 bits are clamped to the largest value instead of wrapping.

use vstd::prelude::*;

verus! {

/// One hundred percent, in basis points.
pub const BPS_DENOMINATOR: u128 = 10_000;

/// The number of smallest collateral units in one whole unit.
pub const WEI_PER_UNIT: u128 = 1_000_000_000_000_000_000;

/// The product of `a` and `b`, clamped to `u128::MAX`.
pub open spec fn saturating_product(a: int, b: int) -> int {
    if a * b > u128::MAX {
        u128::MAX as int
    } else {
        a * b
    }
}

/// The whole units of collateral in `collateral_amount`; the fraction of a
/// unit is dropped.
pub open spec fn collateral_units(collateral_amount: u128) -> int {
    collateral_amount as int / WEI_PER_UNIT as int
}

/// The dollar value of the whole units of collateral, clamped.
pub open spec fn collateral_value_usd(collateral_amount: u128, price_usd: u128) -> int {
    saturating_product(collateral_units(collateral_amount), price_usd as int)
}

/// The largest debt that the collateral carries at the given bound.
pub open spec fn max_allowed_debt(collateral_amount: u128, price_usd: u128, max_ltv_bps: u16) -> int {
    saturating_product(collateral_value_usd(collateral_amount, price_usd), max_ltv_bps as int)
        / BPS_DENOMINATOR as int
}

/// The solvency rule itself: the inputs are well formed and the debt is
/// within what the collateral carries.
pub open spec fn ltv_safe(
    collateral_amount: u128,
    price_usd: u128,
    total_debt: u128,
    max_ltv_bps: u16,
) -> bool {
    &&& collateral_amount != 0
    &&& price_usd != 0
    &&& max_ltv_bps <= BPS_DENOMINATOR
    &&& total_debt <= max_allowed_debt(collateral_amount, price_usd, max_ltv_bps)
}

/// Multiplies, clamping to `u128::MAX` where the product does not fit.
pub fn saturating_mul(a: u128, b: u128) -> (product: u128)
    ensures
        product == saturating_product(a as int, b as int),
{
    match a.checked_mul(b) {
        Some(product) => product,
        None => u128::MAX,
    }
}

/// Decides whether a position with `total_debt` is safe.
///
/// Returns `false` for zero collateral, a zero price or a bound above one
/// hundred percent, and never fails, whatever the magnitudes.
pub fn check_ltv(
    collateral_amount: u128,
    collateral_price_usd: u128,
    total_debt: u128,
    max_ltv_bps: u16,
) -> (safe: bool)
    ensures
        safe == ltv_safe(collateral_amount, collateral_price_usd, total_debt, max_ltv_bps),
{
    if collateral_amount == 0 || collateral_price_usd == 0 {
        return false;
    }
    let bound: u128 = max_ltv_bps as u128;
    if bound > BPS_DENOMINATOR {
        return false;
    }
    let units: u128 = collateral_amount / WEI_PER_UNIT;
    let value_usd: u128 = saturating_mul(units, collateral_price_usd);
    let max_debt: u128 = saturating_mul(value_usd, bound) / BPS_DENOMINATOR;
    total_debt <= max_debt
}

/// Clamping only ever lowers the bound: a position that is accepted is
/// safe in exact arithmetic too, so no overflow can approve an unsafe debt.
pub proof fn lemma_accepted_is_exactly_safe(
    collateral_amount: u128,
    price_usd: u128,
    total_debt: u128,
    max_ltv_bps: u16,
)
    requires
        ltv_safe(collateral_amount, price_usd, total_debt, max_ltv_bps),
    ensures
        total_debt * BPS_DENOMINATOR <= collateral_units(collateral_amount) * price_usd
            * max_ltv_bps,
{
    let units = collateral_units(collateral_amount);
    let value = collateral_value_usd(collateral_amount, price_usd);
    let scaled = saturating_product(value, max_ltv_bps as int);
    assert(value <= units * price_usd);
    assert(value * max_ltv_bps <= (units * price_usd) * max_ltv_bps) by (nonlinear_arith)
        requires
            value <= units * price_usd,
            max_ltv_bps >= 0,
    ;
    assert(scaled <= units * price_usd * max_ltv_bps);
    assert(total_debt * 10_000 <= scaled);
}

/// Dropping the fraction of a unit only ever lowers the bound as well: an
/// accepted debt is within the bound even when the collateral is counted to
/// its smallest unit.
pub proof fn lemma_accepted_is_safe_in_smallest_units(
    collateral_amount: u128,
    price_usd: u128,
    total_debt: u128,
    max_ltv_bps: u16,
)
    requires
        ltv_safe(collateral_amount, price_usd, total_debt, max_ltv_bps),
    ensures
        total_debt * BPS_DENOMINATOR * WEI_PER_UNIT <= collateral_amount * price_usd
            * max_ltv_bps,
{
    lemma_accepted_is_exactly_safe(collateral_amount, price_usd, total_debt, max_ltv_bps);
    let units = collateral_units(collateral_amount);
    let debt = total_debt as int;
    let price = price_usd as int;
    let bound = max_ltv_bps as int;
    let collateral = collateral_amount as int;
    let unit = WEI_PER_UNIT as int;
    assert(units * unit <= collateral);
    assert(debt * 10_000 * unit <= collateral * price * bound) by (nonlinear_arith)
        requires
            debt * 10_000 <= units * price * bound,
            units * unit <= collateral,
            unit > 0,
            price >= 0,
            bound >= 0,
            units >= 0,
    ;
}

/// Where nothing is clamped, the rule is the exact comparison of the debt
/// with the collateral's value at the bound.
pub proof fn lemma_exact_without_clamping(
    collateral_amount: u128,
    price_usd: u128,
    total_debt: u128,
    max_ltv_bps: u16,
)
    requires
        collateral_amount != 0,
        price_usd != 0,
        max_ltv_bps <= BPS_DENOMINATOR,
        collateral_units(collateral_amount) * price_usd * max_ltv_bps <= u128::MAX,
    ensures
        ltv_safe(collateral_amount, price_usd, total_debt, max_ltv_bps) <==> total_debt
            * BPS_DENOMINATOR <= collateral_units(collateral_amount) * price_usd * max_ltv_bps,
{
    let units = collateral_units(collateral_amount);
    if max_ltv_bps == 0 {
        assert(units * price_usd * 0 == 0);
        assert(saturating_product(collateral_value_usd(collateral_amount, price_usd), 0) == 0)
            by (nonlinear_arith);
    } else {
        assert(units * price_usd <= units * price_usd * max_ltv_bps) by (nonlinear_arith)
            requires
                units * price_usd >= 0,
                max_ltv_bps >= 1,
        ;
        assert(units * price_usd >= 0) by (nonlinear_arith)
            requires
                units >= 0,
                price_usd >= 0,
        ;
    }
}

/// No position is accepted with a debt above `u128::MAX / 10_000`,
/// however large the collateral and the price: a clamped bound does not
/// open the door to arbitrary debt.
pub proof fn lemma_debt_cap(
    collateral_amount: u128,
    price_usd: u128,
    total_debt: u128,
    max_ltv_bps: u16,
)
    requires
        total_debt > u128::MAX / BPS_DENOMINATOR,
    ensures
        !ltv_safe(collateral_amount, price_usd, total_debt, max_ltv_bps),
{
}

/// A lower debt on the same collateral is accepted wherever a higher one is.
pub proof fn lemma_safe_for_lower_debt(
    collateral_amount: u128,
    price_usd: u128,
    total_debt: u128,
    lower_debt: u128,
    max_ltv_bps: u16,
)
    requires
        ltv_safe(collateral_amount, price_usd, total_debt, max_ltv_bps),
        lower_debt <= total_debt,
    ensures
        ltv_safe(collateral_amount, price_usd, lower_debt, max_ltv_bps),
{
}

} // verus!

//! What a purchase costs, and how the payment is split between the project's
//! owner and the platform.

use vstd::prelude::*;
use crate::errors::ContractError;

verus! {

/// The denominator of a fee rate in basis points: 10000 basis points are the
/// whole price.
pub const BPS_DENOMINATOR: u64 = 10_000;

/// The price of a purchase and its split.
#[derive(Clone, Copy, Debug, PartialEq, Eq, Structural)]
pub struct Quote {
    /// What the buyer pays in all.
    pub total: u64,
    /// The part that goes to the platform's fee vault.
    pub fee: u64,
    /// The part that goes to the project's owner.
    pub to_owner: u64,
}

/// The quote for `amount` units at `price_per_unit` with a fee of
/// `fee_rate_bps` basis points, where the total and the fee scaled by the
/// rate both fit in 64 bits and the fee does not exceed the total.
pub open spec fn quote_for(amount: u64, price_per_unit: u64, fee_rate_bps: u16) -> Option<Quote> {
    let total = amount * price_per_unit;
    let fee = (total * fee_rate_bps) / (BPS_DENOMINATOR as int);
    if total <= u64::MAX && total * fee_rate_bps <= u64::MAX && fee <= total {
        Some(Quote { total: total as u64, fee: fee as u64, to_owner: (total - fee) as u64 })
    } else {
        None
    }
}

/// Prices `amount` units: `total = amount * price_per_unit`,
/// `fee = total * fee_rate_bps / 10000` rounded down, `to_owner = total - fee`.
/// Every step is checked; a step that overflows or underflows gives
/// `MathOverflow`.
pub fn quote(amount: u64, price_per_unit: u64, fee_rate_bps: u16) -> (r: Result<
    Quote,
    ContractError,
>)
    ensures
        r == match quote_for(amount, price_per_unit, fee_rate_bps) {
            Some(q) => Ok::<Quote, ContractError>(q),
            None => Err::<Quote, ContractError>(ContractError::MathOverflow),
        },
{
    let rate: u64 = fee_rate_bps.into();
    let total: u64 = match amount.checked_mul(price_per_unit) {
        Some(t) => t,
        None => {
            return Err(ContractError::MathOverflow);
        },
    };
    let scaled: u64 = match total.checked_mul(rate) {
        Some(s) => s,
        None => {
            return Err(ContractError::MathOverflow);
        },
    };
    let fee: u64 = match scaled.checked_div(BPS_DENOMINATOR) {
        Some(f) => f,
        None => {
            return Err(ContractError::MathOverflow);
        },
    };
    match total.checked_sub(fee) {
        Some(to_owner) => Ok(Quote { total, fee, to_owner }),
        None => Err(ContractError::MathOverflow),
    }
}

/// The payment is split without loss: the fee and the owner's part add up
/// to the total. With a fee rate of at most 10000 basis points the fee never
/// exceeds the total, so a quote exists whenever the total and the total
/// scaled by the rate fit in 64 bits.
pub proof fn lemma_quote_split(amount: u64, price_per_unit: u64, fee_rate_bps: u16)
    ensures
        quote_for(amount, price_per_unit, fee_rate_bps) matches Some(q) ==> q.total == amount
            * price_per_unit && q.fee + q.to_owner == q.total,
        fee_rate_bps <= 10_000 && amount * price_per_unit <= u64::MAX && amount * price_per_unit
            * fee_rate_bps <= u64::MAX ==> quote_for(amount, price_per_unit, fee_rate_bps).is_some(),
{
    let total = amount * price_per_unit;
    assert(0 <= total) by (nonlinear_arith)
        requires
            total == amount * price_per_unit,
    ;
    if fee_rate_bps <= 10_000 {
        assert(total * fee_rate_bps <= total * 10_000) by (nonlinear_arith)
            requires
                0 <= total,
                fee_rate_bps <= 10_000,
        ;
    }
}

} // verus!

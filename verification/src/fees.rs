//! The launchpad's share of a successful launch, in basis points.

use vstd::prelude::*;

use crate::errors::ErrorCode;

verus! {

/// Basis points in a whole.
pub const BPS_DENOMINATOR: u64 = 10000;

/// `bps` basis points of `amount`, rounded down.
pub open spec fn spec_bps_share(amount: int, bps: int) -> int {
    (amount * bps) / 10000
}

/// What is left of `amount` once `bps` basis points are taken out, computed
/// as the remaining basis points of `amount`, rounded down.
pub open spec fn spec_bps_remainder(amount: int, bps: int) -> int {
    (amount * (10000 - bps)) / 10000
}

/// `bps` basis points of `amount`, rounded down; refused with
/// `CalculationError` when `amount * bps` does not fit in a `u64`.
pub fn bps_share(amount: u64, bps: u64) -> (share: Result<u64, ErrorCode>)
    ensures
        amount * bps <= u64::MAX ==> share == Ok::<u64, ErrorCode>(
            spec_bps_share(amount as int, bps as int) as u64,
        ),
        amount * bps > u64::MAX ==> share == Err::<u64, ErrorCode>(ErrorCode::CalculationError),
{
    let product = match amount.checked_mul(bps) {
        Some(p) => p,
        None => return Err(ErrorCode::CalculationError),
    };
    match product.checked_div(BPS_DENOMINATOR) {
        Some(q) => Ok(q),
        None => Err(ErrorCode::CalculationError),
    }
}

/// `amount` less `bps` basis points, computed as `amount * (10000 - bps) /
/// 10000`; refused with `CalculationError` when `bps` exceeds 10000 or the
/// product does not fit in a `u64`.
pub fn bps_remainder(amount: u64, bps: u64) -> (rest: Result<u64, ErrorCode>)
    ensures
        bps <= 10000 && amount * (10000 - bps) <= u64::MAX ==> rest == Ok::<u64, ErrorCode>(
            spec_bps_remainder(amount as int, bps as int) as u64,
        ),
        bps > 10000 || amount * (10000 - bps) > u64::MAX ==> rest == Err::<u64, ErrorCode>(
            ErrorCode::CalculationError,
        ),
{
    let kept_bps = match BPS_DENOMINATOR.checked_sub(bps) {
        Some(k) => k,
        None => return Err(ErrorCode::CalculationError),
    };
    let product = match amount.checked_mul(kept_bps) {
        Some(p) => p,
        None => return Err(ErrorCode::CalculationError),
    };
    match product.checked_div(BPS_DENOMINATOR) {
        Some(q) => Ok(q),
        None => Err(ErrorCode::CalculationError),
    }
}

/// A share of at most 10000 basis points is at most the whole amount.
pub proof fn bps_share_at_most_amount(amount: nat, bps: nat)
    requires
        bps <= 10000,
    ensures
        0 <= spec_bps_share(amount as int, bps as int) <= amount,
{
    assert(0 <= amount * bps <= amount * 10000) by (nonlinear_arith)
        requires
            bps <= 10000,
    ;
    assert(0 <= (amount * bps) / 10000 <= (amount * 10000) / 10000) by (nonlinear_arith)
        requires
            0 <= amount * bps <= amount * 10000,
    ;
    assert((amount * 10000) / 10000 == amount) by (nonlinear_arith);
}

/// The launchpad's share of an amount and what is left of it never add up to
/// more than the amount, and lose at most one unit to rounding.
pub proof fn bps_share_and_remainder_split(amount: nat, bps: nat)
    requires
        bps <= 10000,
    ensures
        amount - 1 <= spec_bps_share(amount as int, bps as int) + spec_bps_remainder(
            amount as int,
            bps as int,
        ) <= amount,
{
    let a = amount * bps;
    let c = amount * (10000 - bps);
    assert(a + c == amount * 10000) by (nonlinear_arith)
        requires
            bps <= 10000,
            a == amount * bps,
            c == amount * (10000 - bps),
    ;
    assert(0 <= a && 0 <= c) by (nonlinear_arith)
        requires
            bps <= 10000,
            a == amount * bps,
            c == amount * (10000 - bps),
    ;
    let q1 = a / 10000;
    let q2 = c / 10000;
    assert(amount - 1 <= q1 + q2 <= amount) by (nonlinear_arith)
        requires
            a + c == amount * 10000,
            0 <= a,
            0 <= c,
            q1 == a / 10000,
            q2 == c / 10000,
    ;
}

} // verus!

//! Post-trade constant-product drift check.
//!
//! Integer division in the quoting step can leave the product of the
//! reserves slightly below its pre-trade value. This guard bounds that
//! drift: a trade whose realized reserve change loses more than
//! 1/100000 of the constant product is rejected as violating the
//! invariant. Only decreases of the product are flagged; an increase is
//! never penalized.

use vstd::prelude::*;
use crate::errors::ErrorCode;
use crate::DRIFT_DENOMINATOR;
use crate::MAX_DRIFT_NUMERATOR;

verus! {

/// The largest loss of the constant product `k` that a trade may cause.
pub open spec fn drift_tolerance(k: int) -> int {
    k * (MAX_DRIFT_NUMERATOR as int) / (DRIFT_DENOMINATOR as int)
}

/// What [`check`] decides: each arithmetic step that cannot be carried
/// out in 128 bits fails with the overflow kind named for it, and
/// otherwise the drift of the constant product is held to the tolerance.
pub open spec fn spec_check(
    reserve_in_before: u128,
    reserve_out_before: u128,
    net_input_applied: u128,
    amount_out_applied: u128,
) -> Result<(), ErrorCode> {
    let r_in = reserve_in_before as int;
    let r_out = reserve_out_before as int;
    let net = net_input_applied as int;
    let out = amount_out_applied as int;
    if r_in + net > u128::MAX {
        Err(ErrorCode::IntegerOverflow11)
    } else if out > r_out {
        Err(ErrorCode::IntegerOverflow11)
    } else if r_in * r_out > u128::MAX {
        Err(ErrorCode::IntegerOverflow11)
    } else if (r_in + net) * (r_out - out) > u128::MAX {
        Err(ErrorCode::IntegerOverflow12)
    } else if spec_drift(r_in, r_out, net, out) > drift_tolerance(r_in * r_out) {
        Err(ErrorCode::ConstantProductInvariantViolated)
    } else {
        Ok(())
    }
}

/// How much of the constant product the applied trade lost: zero when the
/// product did not decrease.
pub open spec fn spec_drift(r_in: int, r_out: int, net: int, out: int) -> int {
    let k_initial = r_in * r_out;
    let k_final = (r_in + net) * (r_out - out);
    if k_initial >= k_final {
        k_initial - k_final
    } else {
        0
    }
}

/// Decide whether a trade that moved `net_input_applied` into the input
/// reserve and `amount_out_applied` out of the output reserve kept the
/// constant product within the tolerated drift. The reserves are the
/// values read before the trade; the check is pure, so the host may run
/// it on the same snapshot the quote used, before committing anything.
pub fn check(
    reserve_in_before: u128,
    reserve_out_before: u128,
    net_input_applied: u128,
    amount_out_applied: u128,
) -> (r: Result<(), ErrorCode>)
    ensures
        r == spec_check(
            reserve_in_before,
            reserve_out_before,
            net_input_applied,
            amount_out_applied,
        ),
{
    let simulated_input_reserve = match reserve_in_before.checked_add(net_input_applied) {
        Some(v) => v,
        None => {
            return Err(ErrorCode::IntegerOverflow11);
        },
    };
    let simulated_output_reserve = match reserve_out_before.checked_sub(amount_out_applied) {
        Some(v) => v,
        None => {
            return Err(ErrorCode::IntegerOverflow11);
        },
    };
    let k_initial = match reserve_in_before.checked_mul(reserve_out_before) {
        Some(v) => v,
        None => {
            return Err(ErrorCode::IntegerOverflow11);
        },
    };
    let k_final = match simulated_input_reserve.checked_mul(simulated_output_reserve) {
        Some(v) => v,
        None => {
            return Err(ErrorCode::IntegerOverflow12);
        },
    };
    let difference = k_initial.saturating_sub(k_final);
    let max_allowed_difference = match k_initial.checked_mul(MAX_DRIFT_NUMERATOR) {
        Some(v) => v / DRIFT_DENOMINATOR,
        None => {
            return Err(ErrorCode::IntegerOverflow12);
        },
    };
    if difference > max_allowed_difference {
        return Err(ErrorCode::ConstantProductInvariantViolated);
    }
    Ok(())
}

} // verus!

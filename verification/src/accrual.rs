//! Accrual engine: the pure piecewise-linear unlock formula applied per
//! beneficiary per funding stage.

use vstd::prelude::*;

use crate::error::ContractError;
use crate::msg::VestingParameter;

verus! {

/// The immediate unlock: `cliff_fraction_pct` percent of the total,
/// rounded down.
pub open spec fn spec_cliff_unlock(total: int, p: VestingParameter) -> int {
    total * p.cliff_fraction_pct as int / 100
}

/// The unlocked amount after `elapsed` seconds of vesting: nothing before
/// the schedule starts, the immediate fraction until the cliff has passed,
/// then the remainder linearly over `linear_duration`, capped at the total.
/// Division truncates, a deliberate round-down bias in the protocol's favor.
pub open spec fn spec_unlocked(total: int, elapsed: int, p: VestingParameter) -> int {
    if elapsed <= 0 {
        0
    } else {
        let cliff_unlock = spec_cliff_unlock(total, p);
        let remainder = total - cliff_unlock;
        if elapsed > p.cliff_duration as int {
            let uncapped = cliff_unlock + (elapsed - p.cliff_duration as int) * remainder
                / p.linear_duration as int;
            if uncapped > total {
                total
            } else {
                uncapped
            }
        } else {
            cliff_unlock
        }
    }
}

/// What is unlocked but not yet released; zero when the bookkeeping has
/// released at least the unlocked amount.
pub open spec fn spec_claimable(total: int, released: int, elapsed: int, p: VestingParameter) -> int {
    let unlocked = spec_unlocked(total, elapsed, p);
    if unlocked <= released {
        0
    } else {
        unlocked - released
    }
}

/// Exactly when the unlock computation stays inside 128-bit arithmetic:
/// the percentage product fits, the immediate unlock does not exceed the
/// total, and — once the cliff has passed — the linear product fits and the
/// linear duration is not zero.
pub open spec fn accrual_fits(total: u128, elapsed: u64, p: VestingParameter) -> bool {
    elapsed == 0 || {
        &&& total as int * p.cliff_fraction_pct as int <= u128::MAX as int
        &&& spec_cliff_unlock(total as int, p) <= total as int
        &&& (elapsed <= p.cliff_duration || {
            &&& p.linear_duration >= 1
            &&& (elapsed as int - p.cliff_duration as int) * (total as int - spec_cliff_unlock(
                total as int,
                p,
            )) <= u128::MAX as int
        })
    }
}

/// Seconds of vesting elapsed at `now` for a schedule started at
/// `start_time`; zero while the start lies in the future.
pub fn elapsed_since(start_time: u64, now: u64) -> (r: u64)
    ensures
        r == if now >= start_time {
            now - start_time
        } else {
            0
        },
{
    if now >= start_time {
        now - start_time
    } else {
        0
    }
}

/// Computes the unlocked amount of `total` after `elapsed` seconds under
/// schedule `p`. Succeeds exactly when the arithmetic fits 128 bits; the
/// result never exceeds `total`, and from the end of the linear window on
/// it equals `total` exactly.
pub fn calc_unlocked(total: u128, elapsed: u64, p: &VestingParameter) -> (r: Result<
    u128,
    ContractError,
>)
    ensures
        r is Ok <==> accrual_fits(total, elapsed, *p),
        r matches Ok(v) ==> v == spec_unlocked(total as int, elapsed as int, *p),
        r matches Ok(v) ==> v <= total,
        r is Err ==> r == Err::<u128, ContractError>(ContractError::ArithmeticError),
        accrual_fits(total, elapsed, *p) && elapsed as int >= p.cliff_duration
            + p.linear_duration && p.linear_duration >= 1 ==> r == Ok::<u128, ContractError>(
            total,
        ),
{
    if elapsed == 0 {
        return Ok(0);
    }
    let product = match total.checked_mul(p.cliff_fraction_pct as u128) {
        Some(v) => v,
        None => {
            return Err(ContractError::ArithmeticError);
        },
    };
    let cliff_unlock = product / 100;
    let remainder = match total.checked_sub(cliff_unlock) {
        Some(v) => v,
        None => {
            return Err(ContractError::ArithmeticError);
        },
    };
    if elapsed > p.cliff_duration {
        let linear_product = match ((elapsed - p.cliff_duration) as u128).checked_mul(remainder) {
            Some(v) => v,
            None => {
                return Err(ContractError::ArithmeticError);
            },
        };
        let linear_part = match linear_product.checked_div(p.linear_duration as u128) {
            Some(v) => v,
            None => {
                return Err(ContractError::ArithmeticError);
            },
        };
        proof {
            if elapsed as int >= p.cliff_duration + p.linear_duration {
                lemma_linear_part_full(
                    elapsed - p.cliff_duration,
                    remainder as int,
                    p.linear_duration as int,
                );
            }
        }
        match cliff_unlock.checked_add(linear_part) {
            Some(uncapped) => if uncapped > total {
                Ok(total)
            } else {
                Ok(uncapped)
            },
            // The true value exceeds u128::MAX, so it exceeds the total and
            // the cap applies.
            None => Ok(total),
        }
    } else {
        Ok(cliff_unlock)
    }
}

/// Once the elapsed time net of the cliff reaches the linear duration, the
/// truncated linear share is at least the whole remainder.
proof fn lemma_linear_part_full(net: int, remainder: int, duration: int)
    requires
        net >= duration,
        duration >= 1,
        remainder >= 0,
    ensures
        net * remainder / duration >= remainder,
{
    vstd::arithmetic::mul::lemma_mul_inequality(duration, net, remainder);
    vstd::arithmetic::div_mod::lemma_div_is_ordered(
        duration * remainder,
        net * remainder,
        duration,
    );
    vstd::arithmetic::div_mod::lemma_div_multiples_vanish(remainder, duration);
}

/// Under in-range arithmetic the unlocked amount never exceeds the total,
/// and what can be claimed on top of the released amount stays within it.
pub proof fn lemma_unlocked_le_total(total: u128, released: u128, elapsed: u64, p: VestingParameter)
    requires
        accrual_fits(total, elapsed, p),
    ensures
        spec_unlocked(total as int, elapsed as int, p) <= total,
        spec_claimable(total as int, released as int, elapsed as int, p) >= 0,
        spec_claimable(total as int, released as int, elapsed as int, p) == 0 || released
            + spec_claimable(total as int, released as int, elapsed as int, p) <= total,
{
}

/// Computes what a beneficiary with `total` allocated and `released`
/// already paid out can claim after `elapsed` seconds under schedule `p`:
/// the unlocked amount net of the released one, never negative.
pub fn calc_claimable(total: u128, released: u128, elapsed: u64, p: &VestingParameter) -> (r:
    Result<u128, ContractError>)
    ensures
        r is Ok <==> accrual_fits(total, elapsed, *p),
        r matches Ok(v) ==> v == spec_claimable(
            total as int,
            released as int,
            elapsed as int,
            *p,
        ),
        r matches Ok(v) ==> v <= total,
        r matches Ok(v) ==> v == 0 || released + v <= total,
        r is Err ==> r == Err::<u128, ContractError>(ContractError::ArithmeticError),
{
    let unlocked = match calc_unlocked(total, elapsed, p) {
        Ok(v) => v,
        Err(e) => {
            return Err(e);
        },
    };
    if unlocked <= released {
        Ok(0)
    } else {
        Ok(unlocked - released)
    }
}

} // verus!

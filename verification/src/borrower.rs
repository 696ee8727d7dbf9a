//! The borrower's side of a flash loan: deciding the repayment.
//!
//! A borrower's callback receives the principal, does its business, and must
//! send principal plus fee back to the lender before the operation may
//! settle.  The decision — how much to repay, and whether the borrower can
//! afford it — is pure arithmetic on balances; the transfer itself is the
//! host's job.

use crate::errors::ErrorCode;
use crate::math::{fee_amount, mul_div_u64};
use vstd::prelude::*;

verus! {

/// Plans the repayment of a borrowed `principal` at the fee rate
/// `fee_num / fee_den`: the total owed is the principal plus the fee,
/// rounded down.  Fails with `InsufficientFunds` when `available_balance`
/// cannot cover the total, and with `InvalidAmount` when the total itself
/// does not fit in 64 bits (no balance could ever cover it).  The host then
/// transfers exactly the returned total from the borrower to the lender.
pub fn handle_borrow(principal: u64, fee_num: u64, fee_den: u64, available_balance: u64) -> (r:
    Result<u64, ErrorCode>)
    requires
        fee_den > 0,
    ensures
        r is Ok <==> principal + fee_amount(principal as int, fee_num as int, fee_den as int)
            <= available_balance,
        r matches Ok(t) ==> t == principal + fee_amount(
            principal as int,
            fee_num as int,
            fee_den as int,
        ),
        principal + fee_amount(principal as int, fee_num as int, fee_den as int) > u64::MAX ==> r
            == Err::<u64, ErrorCode>(ErrorCode::InvalidAmount),
        principal + fee_amount(principal as int, fee_num as int, fee_den as int) <= u64::MAX
            && principal + fee_amount(principal as int, fee_num as int, fee_den as int)
            > available_balance ==> r == Err::<u64, ErrorCode>(ErrorCode::InsufficientFunds),
{
    let fee: u64 = match mul_div_u64(principal, fee_num, fee_den) {
        Some(f) => f,
        None => {
            return Err(ErrorCode::InvalidAmount);
        }
    };
    if u64::MAX - principal < fee {
        return Err(ErrorCode::InvalidAmount);
    }
    let total: u64 = principal + fee;
    if total > available_balance {
        return Err(ErrorCode::InsufficientFunds);
    }
    Ok(total)
}

} // verus!

//! The flash-loan coordinator: one atomic borrow-use-repay sequence.
//!
//! A loan runs `Idle -> Funding -> AwaitingCallback -> Verifying -> Settled`
//! on success, or ends `Aborted` after a rollback.  The transient phases
//! never rest in a value: [`LoanAttempt::begin`] performs `Idle -> Funding ->
//! AwaitingCallback` in one step (validation, fee computation and the
//! principal debit), and [`LoanAttempt::settle`] performs `AwaitingCallback
//! -> Verifying -> Settled` (or `Aborted` with the debit rolled back).  In
//! between, the host transfers the principal, invokes the borrower's
//! callback, and re-reads the repayment destination's balance.
//!
//! While a loan is out, no other mutation of the same pool may interleave:
//! `settle` and `abort` demand the reserve exactly as funding left it, and
//! restore the pool's resting invariant.  On every failure after funding the
//! principal debit is rolled back here, and the host must reverse the actual
//! principal transfer before releasing the pool.

use crate::errors::ErrorCode;
use crate::math::{fee_amount, mul_div_u64};
use crate::pool::Pool;
use vstd::prelude::*;

verus! {

/// Where a flash-loan attempt rests.
#[derive(Clone, Copy, Debug, PartialEq, Eq, Structural)]
pub enum LoanPhase {
    /// Principal is out with the borrower; repayment not yet verified.
    AwaitingCallback,
    /// Repayment verified and fee routed; terminal success.
    Settled,
    /// Rolled back after a shortfall or a failed callback; terminal failure.
    Aborted,
}

/// One flash-loan attempt against one pool.  Ephemeral: it lives only for
/// the duration of a single borrow-use-repay sequence and is never
/// persisted.
#[derive(Clone, Copy, Debug, PartialEq, Eq, Structural)]
pub struct LoanAttempt {
    /// Identity of the pool the attempt is bound to.
    pub reserve_asset_id: u64,
    /// Amount debited from the pool and handed to the borrower.
    pub principal: u64,
    /// The fee owed on top of the principal.
    pub fee: u64,
    /// Balance of the repayment destination just before the callback.
    pub pre_balance: u64,
    /// The least acceptable destination balance after the callback.
    pub required_post_balance: u64,
    /// The pool's reserve right after the principal was debited.
    pub reserve_after_funding: u64,
    /// Where the attempt stands.
    pub phase: LoanPhase,
}

/// Whether a loan's bookkeeping fits in 64 bits: the destination snapshot
/// plus principal plus fee must be representable, or the repayment check
/// itself could not be stated on balances.
pub open spec fn loan_fits(
    principal: u64,
    fee_num: u64,
    fee_den: u64,
    destination_balance: u64,
) -> bool {
    destination_balance + principal + fee_amount(
        principal as int,
        fee_num as int,
        fee_den as int,
    ) <= u64::MAX
}

impl LoanAttempt {
    /// Internal consistency of a funded attempt, established by `begin`:
    /// the required repayment is the snapshot plus principal plus fee, and
    /// undoing the principal debit neither overflows nor leaves the pool
    /// empty.
    pub open spec fn wf(self) -> bool {
        &&& self.pre_balance + self.principal + self.fee <= u64::MAX
        &&& self.required_post_balance == self.pre_balance + self.principal + self.fee
        &&& self.reserve_after_funding + self.principal <= u64::MAX
        &&& self.reserve_after_funding + self.principal > 0
    }

    /// Whether `post_balance` proves full repayment: the destination
    /// reached its snapshot plus principal plus fee.
    pub open spec fn repaid(self, post_balance: u64) -> bool {
        post_balance >= self.required_post_balance
    }

    /// Opens a flash loan: validates the pool, computes the fee at the rate
    /// `fee_num / fee_den` (rounded down) and the required repayment, and
    /// debits the principal from the pool's reserve.  On success the host
    /// must transfer the principal to the borrower and invoke its callback;
    /// the pool's resting invariant is suspended until `settle` or `abort`.
    /// On an empty pool nothing is lent: there is no one to protect or
    /// profit.
    pub fn begin(
        pool: &mut Pool,
        principal: u64,
        fee_num: u64,
        fee_den: u64,
        destination_balance: u64,
    ) -> (r: Result<LoanAttempt, ErrorCode>)
        requires
            old(pool).wf(),
            fee_den > 0,
        ensures
            r is Err ==> *final(pool) == *old(pool),
            old(pool).share_supply == 0 ==> r == Err::<LoanAttempt, ErrorCode>(
                ErrorCode::EmptyPool,
            ),
            old(pool).share_supply > 0 && principal > old(pool).reserve_balance ==> r == Err::<
                LoanAttempt,
                ErrorCode,
            >(ErrorCode::InsufficientFunds),
            old(pool).share_supply > 0 && principal <= old(pool).reserve_balance && !loan_fits(
                principal,
                fee_num,
                fee_den,
                destination_balance,
            ) ==> r == Err::<LoanAttempt, ErrorCode>(ErrorCode::InvalidAmount),
            r is Ok <==> old(pool).share_supply > 0 && principal <= old(pool).reserve_balance
                && loan_fits(principal, fee_num, fee_den, destination_balance),
            r matches Ok(at) ==> {
                &&& at.wf()
                &&& at.phase is AwaitingCallback
                &&& at.reserve_asset_id == old(pool).reserve_asset_id
                &&& at.principal == principal
                &&& at.fee == fee_amount(principal as int, fee_num as int, fee_den as int)
                &&& at.pre_balance == destination_balance
                &&& at.required_post_balance == destination_balance + principal + at.fee
                &&& at.reserve_after_funding == old(pool).reserve_balance - principal
                &&& final(pool).reserve_balance == old(pool).reserve_balance - principal
                &&& final(pool).share_supply == old(pool).share_supply
                &&& final(pool).fee_accumulator_balance == old(pool).fee_accumulator_balance
                &&& final(pool).reserve_asset_id == old(pool).reserve_asset_id
                &&& final(pool).share_asset_id == old(pool).share_asset_id
                &&& final(pool).owner == old(pool).owner
            },
    {
        if pool.share_supply == 0 {
            return Err(ErrorCode::EmptyPool);
        }
        if principal > pool.reserve_balance {
            return Err(ErrorCode::InsufficientFunds);
        }
        let fee: u64 = match mul_div_u64(principal, fee_num, fee_den) {
            Some(f) => f,
            None => {
                return Err(ErrorCode::InvalidAmount);
            }
        };
        if u64::MAX - principal < fee {
            return Err(ErrorCode::InvalidAmount);
        }
        let repayment: u64 = principal + fee;
        if u64::MAX - destination_balance < repayment {
            return Err(ErrorCode::InvalidAmount);
        }
        let attempt = LoanAttempt {
            reserve_asset_id: pool.reserve_asset_id,
            principal,
            fee,
            pre_balance: destination_balance,
            required_post_balance: destination_balance + repayment,
            reserve_after_funding: pool.reserve_balance - principal,
            phase: LoanPhase::AwaitingCallback,
        };
        pool.reserve_balance = pool.reserve_balance - principal;
        Ok(attempt)
    }

    /// Verifies repayment and finalizes the loan.  `post_balance` is the
    /// repayment destination's balance re-read after the callback.  On full
    /// repayment the principal is credited back to the reserve and the fee
    /// is routed to the fee accumulator; otherwise the principal debit is
    /// rolled back and the attempt aborts, and the host must reverse the
    /// principal transfer.  Either way the pool is restored to rest.
    pub fn settle(&mut self, pool: &mut Pool, post_balance: u64) -> (r: Result<u64, ErrorCode>)
        requires
            old(self).wf(),
            old(self).phase is AwaitingCallback,
            old(pool).reserve_asset_id == old(self).reserve_asset_id,
            old(pool).share_supply > 0,
            old(pool).reserve_balance == old(self).reserve_after_funding,
        ensures
            final(pool).wf(),
            r is Ok <==> old(self).repaid(post_balance) && old(pool).fee_accumulator_balance
                + old(self).fee <= u64::MAX,
            r matches Ok(f) ==> {
                &&& f == old(self).fee
                &&& final(self).phase is Settled
                &&& final(pool).fee_accumulator_balance == old(pool).fee_accumulator_balance
                    + old(self).fee
            },
            !old(self).repaid(post_balance) ==> r == Err::<u64, ErrorCode>(
                ErrorCode::RepaymentShortfall,
            ),
            old(self).repaid(post_balance) && old(pool).fee_accumulator_balance + old(self).fee
                > u64::MAX ==> r == Err::<u64, ErrorCode>(ErrorCode::InvalidAmount),
            r is Err ==> final(self).phase is Aborted && final(pool).fee_accumulator_balance == old(
                pool,
            ).fee_accumulator_balance,
            final(pool).reserve_balance == old(pool).reserve_balance + old(self).principal,
            final(pool).share_supply == old(pool).share_supply,
            final(pool).reserve_asset_id == old(pool).reserve_asset_id,
            final(pool).share_asset_id == old(pool).share_asset_id,
            final(pool).owner == old(pool).owner,
            *final(self) == (LoanAttempt { phase: final(self).phase, ..*old(self) }),
    {
        if post_balance < self.required_post_balance {
            pool.reserve_balance = pool.reserve_balance + self.principal;
            self.phase = LoanPhase::Aborted;
            return Err(ErrorCode::RepaymentShortfall);
        }
        if u64::MAX - pool.fee_accumulator_balance < self.fee {
            pool.reserve_balance = pool.reserve_balance + self.principal;
            self.phase = LoanPhase::Aborted;
            return Err(ErrorCode::InvalidAmount);
        }
        pool.reserve_balance = pool.reserve_balance + self.principal;
        pool.fee_accumulator_balance = pool.fee_accumulator_balance + self.fee;
        self.phase = LoanPhase::Settled;
        Ok(self.fee)
    }

    /// Rolls a funded loan back without checking repayment: for when the
    /// borrower's callback itself failed and the host unwinds the whole
    /// operation.  The principal debit is reversed and the attempt aborts;
    /// the host must reverse the principal transfer as well.
    pub fn abort(&mut self, pool: &mut Pool)
        requires
            old(self).wf(),
            old(self).phase is AwaitingCallback,
            old(pool).reserve_asset_id == old(self).reserve_asset_id,
            old(pool).share_supply > 0,
            old(pool).reserve_balance == old(self).reserve_after_funding,
        ensures
            final(pool).wf(),
            final(self).phase is Aborted,
            final(pool).reserve_balance == old(pool).reserve_balance + old(self).principal,
            final(pool).share_supply == old(pool).share_supply,
            final(pool).fee_accumulator_balance == old(pool).fee_accumulator_balance,
            final(pool).reserve_asset_id == old(pool).reserve_asset_id,
            final(pool).share_asset_id == old(pool).share_asset_id,
            final(pool).owner == old(pool).owner,
            *final(self) == (LoanAttempt { phase: LoanPhase::Aborted, ..*old(self) }),
    {
        pool.reserve_balance = pool.reserve_balance + self.principal;
        self.phase = LoanPhase::Aborted;
    }

    /// The total the borrower owes back: principal plus fee.
    pub fn required_repayment(&self) -> (t: u64)
        requires
            self.wf(),
        ensures
            t == self.principal + self.fee,
    {
        self.principal + self.fee
    }
}

} // verus!

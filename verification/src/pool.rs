//! A single lending pool: reserve balance, share supply, fee accumulator.
//!
//! The pool keeps plain counters; the host that drives it is responsible for
//! moving the actual funds in the same order as the counters change
//! (transfer before crediting a deposit, burn before releasing a
//! withdrawal).

use crate::errors::ErrorCode;
use crate::math::{
    lemma_deposit_rounding_favors_pool, lemma_withdraw_all, lemma_withdraw_partial,
    lemma_withdraw_within_reserve, mul_div_u64, reserve_for_shares, shares_for_deposit,
};
use vstd::prelude::*;

verus! {

/// One lending pool for one reserve asset.
///
/// Identities (assets, owners) are plain numeric identifiers assigned by the
/// host environment.
#[derive(Clone, Copy, Debug, PartialEq, Eq, Structural)]
pub struct Pool {
    /// Identifier of the deposited asset; immutable after creation.
    pub reserve_asset_id: u64,
    /// Identifier of the pool's share token; immutable after creation.
    pub share_asset_id: u64,
    /// The identity recorded at creation; only it may drain the fees.
    pub owner: u64,
    /// Units of the reserve asset the pool currently holds.
    pub reserve_balance: u64,
    /// Outstanding shares issued against the reserve.
    pub share_supply: u64,
    /// Undistributed fee revenue, withdrawable only by the owner.
    pub fee_accumulator_balance: u64,
}

impl Pool {
    /// A pool at rest: shares are outstanding exactly when reserve is held.
    /// Deposits and withdrawals preserve this; a flash loan suspends it
    /// between funding and settlement.
    pub open spec fn wf(self) -> bool {
        self.share_supply == 0 <==> self.reserve_balance == 0
    }

    /// The same pool with its fee accumulator drained.
    pub open spec fn fees_drained(self) -> Pool {
        Pool { fee_accumulator_balance: 0, ..self }
    }

    /// Whether a deposit of `amount` is accepted: the amount is nonzero and
    /// neither counter overflows.
    pub open spec fn deposit_accepted(self, amount: u64) -> bool {
        &&& amount > 0
        &&& self.reserve_balance + amount <= u64::MAX
        &&& self.share_supply + shares_for_deposit(
            amount as int,
            self.share_supply as int,
            self.reserve_balance as int,
        ) <= u64::MAX
    }

    /// The shares a deposit of `amount` mints, at this pool's current ratio.
    pub open spec fn deposit_shares(self, amount: u64) -> int {
        shares_for_deposit(amount as int, self.share_supply as int, self.reserve_balance as int)
    }

    /// The reserve released for redeeming `shares` at the current ratio.
    pub open spec fn withdraw_amount(self, shares: u64) -> int {
        if shares == 0 {
            0
        } else {
            reserve_for_shares(shares as int, self.share_supply as int, self.reserve_balance as int)
        }
    }

    /// Creates an empty pool for `reserve_asset_id`, issuing shares under
    /// `share_asset_id`, owned by `owner`.
    pub fn new(reserve_asset_id: u64, share_asset_id: u64, owner: u64) -> (p: Pool)
        ensures
            p.wf(),
            p.reserve_asset_id == reserve_asset_id,
            p.share_asset_id == share_asset_id,
            p.owner == owner,
            p.reserve_balance == 0,
            p.share_supply == 0,
            p.fee_accumulator_balance == 0,
    {
        Pool {
            reserve_asset_id,
            share_asset_id,
            owner,
            reserve_balance: 0,
            share_supply: 0,
            fee_accumulator_balance: 0,
        }
    }

    /// Previews a deposit: the shares `deposit` would mint, under the same
    /// acceptance rule, without mutating anything.
    pub fn quote_deposit(&self, amount: u64) -> (r: Result<u64, ErrorCode>)
        requires
            self.wf(),
        ensures
            r is Ok <==> self.deposit_accepted(amount),
            r matches Ok(m) ==> m == self.deposit_shares(amount),
            r is Err ==> r == Err::<u64, ErrorCode>(ErrorCode::InvalidAmount),
    {
        if amount == 0 {
            return Err(ErrorCode::InvalidAmount);
        }
        if u64::MAX - self.reserve_balance < amount {
            return Err(ErrorCode::InvalidAmount);
        }
        let m: u64;
        if self.share_supply == 0 {
            m = amount;
        } else {
            match mul_div_u64(amount, self.share_supply, self.reserve_balance) {
                Some(q) => {
                    m = q;
                }
                None => {
                    return Err(ErrorCode::InvalidAmount);
                }
            }
        }
        if u64::MAX - self.share_supply < m {
            return Err(ErrorCode::InvalidAmount);
        }
        Ok(m)
    }

    /// Deposits `amount` reserve units: mints shares at the current ratio
    /// (one share per unit when the pool is empty, otherwise the
    /// proportional amount rounded down in the pool's favour), then credits
    /// the reserve.  The host must complete the matching reserve transfer
    /// before crediting these counters.
    pub fn deposit(&mut self, amount: u64) -> (r: Result<u64, ErrorCode>)
        requires
            old(self).wf(),
        ensures
            final(self).wf(),
            r is Ok <==> old(self).deposit_accepted(amount),
            r matches Ok(m) ==> {
                &&& m == old(self).deposit_shares(amount)
                &&& final(self).reserve_balance == old(self).reserve_balance + amount
                &&& final(self).share_supply == old(self).share_supply + m
                &&& m * old(self).reserve_balance <= amount * old(self).share_supply
            },
            r is Err ==> r == Err::<u64, ErrorCode>(ErrorCode::InvalidAmount) && *final(self)
                == *old(self),
            final(self).reserve_asset_id == old(self).reserve_asset_id,
            final(self).share_asset_id == old(self).share_asset_id,
            final(self).owner == old(self).owner,
            final(self).fee_accumulator_balance == old(self).fee_accumulator_balance,
    {
        let m: u64 = match self.quote_deposit(amount) {
            Ok(m) => m,
            Err(e) => {
                return Err(e);
            }
        };
        proof {
            lemma_deposit_rounding_favors_pool(amount, self.share_supply, self.reserve_balance);
        }
        self.reserve_balance = self.reserve_balance + amount;
        self.share_supply = self.share_supply + m;
        Ok(m)
    }

    /// Previews a withdrawal: the reserve `withdraw` would release, under
    /// the same acceptance rule, without mutating anything.
    pub fn quote_withdraw(&self, shares: u64) -> (r: Result<u64, ErrorCode>)
        requires
            self.wf(),
        ensures
            r is Ok <==> shares <= self.share_supply,
            r matches Ok(a) ==> a == self.withdraw_amount(shares) && a <= self.reserve_balance,
            self.share_supply == 0 && shares > 0 ==> r == Err::<u64, ErrorCode>(
                ErrorCode::EmptyPool,
            ),
            self.share_supply > 0 && shares > self.share_supply ==> r == Err::<u64, ErrorCode>(
                ErrorCode::InsufficientShares,
            ),
    {
        if shares == 0 {
            return Ok(0);
        }
        if self.share_supply == 0 {
            return Err(ErrorCode::EmptyPool);
        }
        if shares > self.share_supply {
            return Err(ErrorCode::InsufficientShares);
        }
        proof {
            lemma_withdraw_within_reserve(shares, self.share_supply, self.reserve_balance);
        }
        let q = mul_div_u64(shares, self.reserve_balance, self.share_supply);
        Ok(q.unwrap())
    }

    /// Redeems `shares` for the proportional amount of the reserve, rounded
    /// down.  Redeeming zero shares releases zero and changes nothing; the
    /// pool refuses to redeem more shares than are outstanding.  The host
    /// must burn the shares before releasing the reserve this returns.
    pub fn withdraw(&mut self, shares: u64) -> (r: Result<u64, ErrorCode>)
        requires
            old(self).wf(),
        ensures
            final(self).wf(),
            r is Ok <==> shares <= old(self).share_supply,
            r matches Ok(a) ==> {
                &&& a == old(self).withdraw_amount(shares)
                &&& a <= old(self).reserve_balance
                &&& final(self).reserve_balance == old(self).reserve_balance - a
                &&& final(self).share_supply == old(self).share_supply - shares
            },
            shares == 0 ==> r == Ok::<u64, ErrorCode>(0) && *final(self) == *old(self),
            old(self).share_supply == 0 && shares > 0 ==> r == Err::<u64, ErrorCode>(
                ErrorCode::EmptyPool,
            ),
            old(self).share_supply > 0 && shares > old(self).share_supply ==> r == Err::<
                u64,
                ErrorCode,
            >(ErrorCode::InsufficientShares),
            r is Err ==> *final(self) == *old(self),
            final(self).reserve_asset_id == old(self).reserve_asset_id,
            final(self).share_asset_id == old(self).share_asset_id,
            final(self).owner == old(self).owner,
            final(self).fee_accumulator_balance == old(self).fee_accumulator_balance,
    {
        let a: u64 = match self.quote_withdraw(shares) {
            Ok(a) => a,
            Err(e) => {
                return Err(e);
            }
        };
        proof {
            if shares > 0 {
                if shares == self.share_supply {
                    lemma_withdraw_all(self.share_supply, self.reserve_balance);
                } else {
                    lemma_withdraw_partial(shares, self.share_supply, self.reserve_balance);
                }
            }
        }
        self.reserve_balance = self.reserve_balance - a;
        self.share_supply = self.share_supply - shares;
        Ok(a)
    }

    /// Drains the fee accumulator: releases the entire undistributed fee
    /// revenue, provided `admin_identity` is the pool's recorded owner.
    /// Draining an empty accumulator releases zero and is not an error; the
    /// host routes the released amount to the caller's collector account.
    pub fn withdraw_fees(&mut self, admin_identity: u64) -> (r: Result<u64, ErrorCode>)
        ensures
            admin_identity == old(self).owner ==> r == Ok::<u64, ErrorCode>(
                old(self).fee_accumulator_balance,
            ) && *final(self) == old(self).fees_drained(),
            admin_identity != old(self).owner ==> r == Err::<u64, ErrorCode>(
                ErrorCode::Unauthorized,
            ) && *final(self) == *old(self),
            old(self).wf() ==> final(self).wf(),
    {
        if admin_identity != self.owner {
            return Err(ErrorCode::Unauthorized);
        }
        let balance: u64 = self.fee_accumulator_balance;
        self.fee_accumulator_balance = 0;
        Ok(balance)
    }
}

/// Draining fees is idempotent: with no accrual in between, a drained pool
/// drains to itself, so a second `withdraw_fees` by the owner releases zero
/// and leaves the pool exactly as it was.
pub proof fn lemma_withdraw_fees_idempotent(p: Pool)
    ensures
        p.fees_drained().fee_accumulator_balance == 0,
        p.fees_drained().fees_drained() == p.fees_drained(),
{
}

} // verus!

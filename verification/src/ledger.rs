//! The registry of pools: creation, identity checks, and dispatch.
//!
//! The ledger owns every pool, at most one per reserve asset.  Callers name
//! a pool by its id and must supply the reserve asset identity they believe
//! it has; a mismatch is refused before anything else is looked at.  Pools
//! are permanent: the ledger only ever appends.

use crate::coordinator::{loan_fits, LoanAttempt};
use crate::errors::ErrorCode;
use crate::math::fee_amount;
use crate::pool::Pool;
use vstd::prelude::*;

verus! {

/// All pools, in creation order.
pub struct PoolLedger {
    pools: Vec<Pool>,
}

impl View for PoolLedger {
    type V = Seq<Pool>;

    closed spec fn view(&self) -> Seq<Pool> {
        self.pools@
    }
}

/// Replacing one pool by another with the same identity keeps the
/// identities distinct and every other pool at rest; if the replacement is
/// itself at rest, the whole ledger is.
proof fn lemma_replace_pool(l0: PoolLedger, l1: PoolLedger, k: int, p: Pool)
    requires
        l0.distinct_assets(),
        forall|i: int| 0 <= i < l0@.len() && i != k ==> (#[trigger] l0@[i]).wf(),
        0 <= k < l0@.len(),
        p.reserve_asset_id == l0@[k].reserve_asset_id,
        l1@ == l0@.update(k, p),
    ensures
        l1.wf_except(k),
        p.wf() ==> l1.wf(),
{
    assert forall|i: int, j: int|
        0 <= i < j < l1@.len() implies #[trigger] l1@[i].reserve_asset_id
        != #[trigger] l1@[j].reserve_asset_id by {
        assert(l0@[i].reserve_asset_id != l0@[j].reserve_asset_id);
    }
    assert forall|i: int| 0 <= i < l1@.len() && i != k implies (#[trigger] l1@[i]).wf() by {
        assert(l0@[i].wf());
    }
    if p.wf() {
        assert forall|i: int| 0 <= i < l1@.len() implies (#[trigger] l1@[i]).wf() by {
            if i != k {
                assert(l0@[i].wf());
            }
        }
    }
}

impl PoolLedger {
    /// At most one pool per reserve asset.
    pub open spec fn distinct_assets(self) -> bool {
        forall|i: int, j: int|
            0 <= i < j < self@.len() ==> #[trigger] self@[i].reserve_asset_id
                != #[trigger] self@[j].reserve_asset_id
    }

    /// Identities are distinct and every pool is at rest, except possibly
    /// the pool at `k`, which may be mid-loan.
    pub open spec fn wf_except(self, k: int) -> bool {
        &&& self.distinct_assets()
        &&& forall|i: int| 0 <= i < self@.len() && i != k ==> (#[trigger] self@[i]).wf()
    }

    /// Identities are distinct and every pool is at rest.
    pub open spec fn wf(self) -> bool {
        &&& self.distinct_assets()
        &&& forall|i: int| 0 <= i < self@.len() ==> (#[trigger] self@[i]).wf()
    }

    /// Whether some pool serves `reserve_asset_id`.
    pub open spec fn has_pool(self, reserve_asset_id: u64) -> bool {
        exists|i: int|
            0 <= i < self@.len() && (#[trigger] self@[i]).reserve_asset_id == reserve_asset_id
    }

    /// Whether `pool_id` names a pool and the caller-supplied asset
    /// identity matches it.
    pub open spec fn valid_pool(self, pool_id: usize, reserve_asset_id: u64) -> bool {
        pool_id < self@.len() && self@[pool_id as int].reserve_asset_id == reserve_asset_id
    }

    /// An empty ledger.
    pub fn new() -> (l: PoolLedger)
        ensures
            l.wf(),
            l@.len() == 0,
    {
        PoolLedger { pools: Vec::new() }
    }

    /// The number of pools created so far.
    pub fn pool_count(&self) -> (n: usize)
        ensures
            n == self@.len(),
    {
        self.pools.len()
    }

    /// A copy of the pool at `pool_id`.
    pub fn pool_at(&self, pool_id: usize) -> (p: Pool)
        requires
            pool_id < self@.len(),
        ensures
            p == self@[pool_id as int],
    {
        self.pools[pool_id]
    }

    /// The id of the pool serving `reserve_asset_id`, if one exists.
    pub fn find_pool(&self, reserve_asset_id: u64) -> (r: Option<usize>)
        ensures
            r matches Some(i) ==> i < self@.len() && self@[i as int].reserve_asset_id
                == reserve_asset_id,
            r is None <==> !self.has_pool(reserve_asset_id),
    {
        let mut i: usize = 0;
        while i < self.pools.len()
            invariant
                i <= self.pools@.len(),
                forall|j: int|
                    0 <= j < i ==> (#[trigger] self.pools@[j]).reserve_asset_id
                        != reserve_asset_id,
            decreases self.pools@.len() - i,
        {
            if self.pools[i].reserve_asset_id == reserve_asset_id {
                proof {
                    assert(self@[i as int].reserve_asset_id == reserve_asset_id);
                }
                return Some(i);
            }
            i = i + 1;
        }
        None
    }

    /// Creates the pool for `reserve_asset_id`, issuing shares under
    /// `share_asset_id`, owned by `owner`, and returns its id.  Creation is
    /// once per reserve asset: a second creation fails with
    /// `AlreadyExists`.
    pub fn create_pool(&mut self, reserve_asset_id: u64, share_asset_id: u64, owner: u64) -> (r:
        Result<usize, ErrorCode>)
        requires
            old(self).wf(),
        ensures
            final(self).wf(),
            r is Ok <==> !old(self).has_pool(reserve_asset_id),
            r matches Ok(id) ==> {
                &&& id == old(self)@.len()
                &&& final(self)@.len() == old(self)@.len() + 1
                &&& final(self)@ == old(self)@.push(final(self)@[id as int])
                &&& final(self)@[id as int] == (Pool {
                    reserve_asset_id,
                    share_asset_id,
                    owner,
                    reserve_balance: 0,
                    share_supply: 0,
                    fee_accumulator_balance: 0,
                })
            },
            r is Err ==> r == Err::<usize, ErrorCode>(ErrorCode::AlreadyExists) && final(self)@
                == old(self)@,
    {
        match self.find_pool(reserve_asset_id) {
            Some(_) => Err(ErrorCode::AlreadyExists),
            None => {
                let id: usize = self.pools.len();
                self.pools.push(Pool::new(reserve_asset_id, share_asset_id, owner));
                proof {
                    assert forall|i: int| 0 <= i < self@.len() implies (#[trigger] self@[i]).wf() by {
                        if i < id as int {
                            assert(old(self)@[i].wf());
                        }
                    }
                    assert forall|i: int, j: int|
                        0 <= i < j < self@.len() implies #[trigger] self@[i].reserve_asset_id
                        != #[trigger] self@[j].reserve_asset_id by {
                        if j < id as int {
                            assert(old(self)@[i].reserve_asset_id
                                != old(self)@[j].reserve_asset_id);
                        } else {
                            assert(self@[i] == old(self)@[i]);
                            if old(self)@[i].reserve_asset_id == reserve_asset_id {
                                assert(old(self).has_pool(reserve_asset_id));
                            }
                        }
                    }
                }
                Ok(id)
            }
        }
    }

    /// Deposits into the pool at `pool_id`, after checking that the
    /// caller-supplied asset identity matches; see [`Pool::deposit`] for
    /// the ratio rule.
    pub fn deposit(&mut self, pool_id: usize, reserve_asset_id: u64, amount: u64) -> (r: Result<
        u64,
        ErrorCode,
    >)
        requires
            old(self).wf(),
        ensures
            final(self).wf(),
            !old(self).valid_pool(pool_id, reserve_asset_id) ==> r == Err::<u64, ErrorCode>(
                ErrorCode::InvalidPool,
            ) && final(self)@ == old(self)@,
            old(self).valid_pool(pool_id, reserve_asset_id) ==> ({
                let p0 = old(self)@[pool_id as int];
                let p1 = final(self)@[pool_id as int];
                &&& (r is Ok <==> p0.deposit_accepted(amount))
                &&& r matches Ok(m) ==> {
                    &&& m == p0.deposit_shares(amount)
                    &&& p1.reserve_balance == p0.reserve_balance + amount
                    &&& p1.share_supply == p0.share_supply + m
                    &&& p1.fee_accumulator_balance == p0.fee_accumulator_balance
                    &&& p1.reserve_asset_id == p0.reserve_asset_id
                    &&& p1.share_asset_id == p0.share_asset_id
                    &&& p1.owner == p0.owner
                    &&& final(self)@ == old(self)@.update(pool_id as int, p1)
                }
                &&& r is Err ==> r == Err::<u64, ErrorCode>(ErrorCode::InvalidAmount)
                    && final(self)@ == old(self)@
            }),
    {
        if pool_id >= self.pools.len() {
            return Err(ErrorCode::InvalidPool);
        }
        if self.pools[pool_id].reserve_asset_id != reserve_asset_id {
            return Err(ErrorCode::InvalidPool);
        }
        proof {
            assert(self@[pool_id as int].wf());
        }
        let mut p: Pool = self.pools[pool_id];
        match p.deposit(amount) {
            Ok(m) => {
                self.pools[pool_id] = p;
                proof {
                    lemma_replace_pool(*old(self), *self, pool_id as int, p);
                }
                Ok(m)
            }
            Err(e) => Err(e),
        }
    }

    /// Redeems shares against the pool at `pool_id`, after checking that
    /// the caller-supplied asset identity matches; see [`Pool::withdraw`]
    /// for the ratio rule.
    pub fn withdraw(&mut self, pool_id: usize, reserve_asset_id: u64, shares: u64) -> (r: Result<
        u64,
        ErrorCode,
    >)
        requires
            old(self).wf(),
        ensures
            final(self).wf(),
            !old(self).valid_pool(pool_id, reserve_asset_id) ==> r == Err::<u64, ErrorCode>(
                ErrorCode::InvalidPool,
            ) && final(self)@ == old(self)@,
            old(self).valid_pool(pool_id, reserve_asset_id) ==> ({
                let p0 = old(self)@[pool_id as int];
                let p1 = final(self)@[pool_id as int];
                &&& (r is Ok <==> shares <= p0.share_supply)
                &&& r matches Ok(a) ==> {
                    &&& a == p0.withdraw_amount(shares)
                    &&& a <= p0.reserve_balance
                    &&& p1.reserve_balance == p0.reserve_balance - a
                    &&& p1.share_supply == p0.share_supply - shares
                    &&& p1.fee_accumulator_balance == p0.fee_accumulator_balance
                    &&& p1.reserve_asset_id == p0.reserve_asset_id
                    &&& p1.share_asset_id == p0.share_asset_id
                    &&& p1.owner == p0.owner
                    &&& final(self)@ == old(self)@.update(pool_id as int, p1)
                }
                &&& (p0.share_supply == 0 && shares > 0 ==> r == Err::<u64, ErrorCode>(
                    ErrorCode::EmptyPool,
                ))
                &&& (p0.share_supply > 0 && shares > p0.share_supply ==> r == Err::<u64, ErrorCode>(
                    ErrorCode::InsufficientShares,
                ))
                &&& r is Err ==> final(self)@ == old(self)@
            }),
    {
        if pool_id >= self.pools.len() {
            return Err(ErrorCode::InvalidPool);
        }
        if self.pools[pool_id].reserve_asset_id != reserve_asset_id {
            return Err(ErrorCode::InvalidPool);
        }
        proof {
            assert(self@[pool_id as int].wf());
        }
        let mut p: Pool = self.pools[pool_id];
        match p.withdraw(shares) {
            Ok(a) => {
                self.pools[pool_id] = p;
                proof {
                    lemma_replace_pool(*old(self), *self, pool_id as int, p);
                }
                Ok(a)
            }
            Err(e) => Err(e),
        }
    }

    /// Drains the fee accumulator of the pool at `pool_id`, provided the
    /// caller-supplied asset identity matches and `admin_identity` is the
    /// pool's recorded owner; see [`Pool::withdraw_fees`].
    pub fn withdraw_fees(&mut self, pool_id: usize, reserve_asset_id: u64, admin_identity: u64) -> (r:
        Result<u64, ErrorCode>)
        requires
            old(self).wf(),
        ensures
            final(self).wf(),
            !old(self).valid_pool(pool_id, reserve_asset_id) ==> r == Err::<u64, ErrorCode>(
                ErrorCode::InvalidPool,
            ) && final(self)@ == old(self)@,
            old(self).valid_pool(pool_id, reserve_asset_id) ==> ({
                let p0 = old(self)@[pool_id as int];
                &&& admin_identity != p0.owner ==> r == Err::<u64, ErrorCode>(
                    ErrorCode::Unauthorized,
                ) && final(self)@ == old(self)@
                &&& admin_identity == p0.owner ==> r == Ok::<u64, ErrorCode>(
                    p0.fee_accumulator_balance,
                ) && final(self)@ == old(self)@.update(pool_id as int, p0.fees_drained())
            }),
    {
        if pool_id >= self.pools.len() {
            return Err(ErrorCode::InvalidPool);
        }
        if self.pools[pool_id].reserve_asset_id != reserve_asset_id {
            return Err(ErrorCode::InvalidPool);
        }
        proof {
            assert(self@[pool_id as int].wf());
        }
        let mut p: Pool = self.pools[pool_id];
        match p.withdraw_fees(admin_identity) {
            Ok(balance) => {
                self.pools[pool_id] = p;
                proof {
                    lemma_replace_pool(*old(self), *self, pool_id as int, p);
                }
                Ok(balance)
            }
            Err(e) => Err(e),
        }
    }

    /// Starts a lend-and-call operation: funds a flash loan of `principal`
    /// from the pool at `pool_id` (see [`LoanAttempt::begin`]).  On success
    /// the host must transfer the principal, invoke the borrower's
    /// callback, and then settle or abort the returned attempt; until then
    /// the funded pool is mid-loan and no other operation may touch it.
    pub fn lend_and_call(
        &mut self,
        pool_id: usize,
        reserve_asset_id: u64,
        principal: u64,
        fee_num: u64,
        fee_den: u64,
        destination_balance: u64,
    ) -> (r: Result<LoanAttempt, ErrorCode>)
        requires
            old(self).wf(),
            fee_den > 0,
        ensures
            r is Err ==> final(self)@ == old(self)@ && final(self).wf(),
            !old(self).valid_pool(pool_id, reserve_asset_id) ==> r == Err::<LoanAttempt, ErrorCode>(
                ErrorCode::InvalidPool,
            ),
            old(self).valid_pool(pool_id, reserve_asset_id) ==> ({
                let p0 = old(self)@[pool_id as int];
                &&& (p0.share_supply == 0 ==> r == Err::<LoanAttempt, ErrorCode>(
                    ErrorCode::EmptyPool,
                ))
                &&& (p0.share_supply > 0 && principal > p0.reserve_balance ==> r == Err::<
                    LoanAttempt,
                    ErrorCode,
                >(ErrorCode::InsufficientFunds))
                &&& (p0.share_supply > 0 && principal <= p0.reserve_balance && !loan_fits(
                    principal,
                    fee_num,
                    fee_den,
                    destination_balance,
                ) ==> r == Err::<LoanAttempt, ErrorCode>(ErrorCode::InvalidAmount))
                &&& (r is Ok <==> p0.share_supply > 0 && principal <= p0.reserve_balance
                    && loan_fits(principal, fee_num, fee_den, destination_balance))
                &&& r matches Ok(at) ==> {
                    let p1 = final(self)@[pool_id as int];
                    &&& at.wf()
                    &&& at.phase is AwaitingCallback
                    &&& at.reserve_asset_id == p0.reserve_asset_id
                    &&& at.principal == principal
                    &&& at.fee == fee_amount(principal as int, fee_num as int, fee_den as int)
                    &&& at.pre_balance == destination_balance
                    &&& at.required_post_balance == destination_balance + principal + at.fee
                    &&& at.reserve_after_funding == p0.reserve_balance - principal
                    &&& p1.reserve_balance == p0.reserve_balance - principal
                    &&& p1.share_supply == p0.share_supply
                    &&& p1.fee_accumulator_balance == p0.fee_accumulator_balance
                    &&& p1.reserve_asset_id == p0.reserve_asset_id
                    &&& p1.share_asset_id == p0.share_asset_id
                    &&& p1.owner == p0.owner
                    &&& final(self)@ == old(self)@.update(pool_id as int, p1)
                    &&& final(self).wf_except(pool_id as int)
                }
            }),
    {
        if pool_id >= self.pools.len() {
            return Err(ErrorCode::InvalidPool);
        }
        if self.pools[pool_id].reserve_asset_id != reserve_asset_id {
            return Err(ErrorCode::InvalidPool);
        }
        proof {
            assert(self@[pool_id as int].wf());
        }
        let mut p: Pool = self.pools[pool_id];
        match LoanAttempt::begin(&mut p, principal, fee_num, fee_den, destination_balance) {
            Ok(at) => {
                self.pools[pool_id] = p;
                proof {
                    lemma_replace_pool(*old(self), *self, pool_id as int, p);
                }
                Ok(at)
            }
            Err(e) => Err(e),
        }
    }

    /// Settles the flash loan that `lend_and_call` funded from the pool at
    /// `pool_id`, given the repayment destination's balance re-read after
    /// the callback; see [`LoanAttempt::settle`].  Restores the whole
    /// ledger to rest, committing or rolling back the loan.
    pub fn settle_loan(
        &mut self,
        pool_id: usize,
        attempt: &mut LoanAttempt,
        post_balance: u64,
    ) -> (r: Result<u64, ErrorCode>)
        requires
            old(self).wf_except(pool_id as int),
            pool_id < old(self)@.len(),
            old(attempt).wf(),
            old(attempt).phase is AwaitingCallback,
            old(self)@[pool_id as int].reserve_asset_id == old(attempt).reserve_asset_id,
            old(self)@[pool_id as int].share_supply > 0,
            old(self)@[pool_id as int].reserve_balance == old(attempt).reserve_after_funding,
        ensures
            final(self).wf(),
            ({
                let p0 = old(self)@[pool_id as int];
                let p1 = final(self)@[pool_id as int];
                &&& (r is Ok <==> old(attempt).repaid(post_balance) && p0.fee_accumulator_balance
                    + old(attempt).fee <= u64::MAX)
                &&& r matches Ok(f) ==> {
                    &&& f == old(attempt).fee
                    &&& final(attempt).phase is Settled
                    &&& p1.fee_accumulator_balance == p0.fee_accumulator_balance + old(attempt).fee
                }
                &&& (!old(attempt).repaid(post_balance) ==> r == Err::<u64, ErrorCode>(
                    ErrorCode::RepaymentShortfall,
                ))
                &&& (old(attempt).repaid(post_balance) && p0.fee_accumulator_balance
                    + old(attempt).fee > u64::MAX ==> r == Err::<u64, ErrorCode>(
                    ErrorCode::InvalidAmount,
                ))
                &&& r is Err ==> final(attempt).phase is Aborted && p1.fee_accumulator_balance
                    == p0.fee_accumulator_balance
                &&& p1.reserve_balance == p0.reserve_balance + old(attempt).principal
                &&& p1.share_supply == p0.share_supply
                &&& p1.reserve_asset_id == p0.reserve_asset_id
                &&& p1.share_asset_id == p0.share_asset_id
                &&& p1.owner == p0.owner
                &&& final(self)@ == old(self)@.update(pool_id as int, p1)
                &&& *final(attempt) == (LoanAttempt { phase: final(attempt).phase, ..*old(attempt) })
            }),
    {
        let mut p: Pool = self.pools[pool_id];
        let r = attempt.settle(&mut p, post_balance);
        self.pools[pool_id] = p;
        proof {
            lemma_replace_pool(*old(self), *self, pool_id as int, p);
        }
        r
    }

    /// Rolls back the flash loan that `lend_and_call` funded from the pool
    /// at `pool_id`, for when the borrower's callback failed and the host
    /// unwinds the operation; see [`LoanAttempt::abort`].
    pub fn abort_loan(&mut self, pool_id: usize, attempt: &mut LoanAttempt)
        requires
            old(self).wf_except(pool_id as int),
            pool_id < old(self)@.len(),
            old(attempt).wf(),
            old(attempt).phase is AwaitingCallback,
            old(self)@[pool_id as int].reserve_asset_id == old(attempt).reserve_asset_id,
            old(self)@[pool_id as int].share_supply > 0,
            old(self)@[pool_id as int].reserve_balance == old(attempt).reserve_after_funding,
        ensures
            final(self).wf(),
            final(attempt).phase is Aborted,
            ({
                let p0 = old(self)@[pool_id as int];
                let p1 = final(self)@[pool_id as int];
                &&& p1.reserve_balance == p0.reserve_balance + old(attempt).principal
                &&& p1.share_supply == p0.share_supply
                &&& p1.fee_accumulator_balance == p0.fee_accumulator_balance
                &&& p1.reserve_asset_id == p0.reserve_asset_id
                &&& p1.share_asset_id == p0.share_asset_id
                &&& p1.owner == p0.owner
                &&& final(self)@ == old(self)@.update(pool_id as int, p1)
                &&& *final(attempt) == (LoanAttempt {
                    phase: final(attempt).phase,
                    ..*old(attempt)
                })
            }),
    {
        let mut p: Pool = self.pools[pool_id];
        attempt.abort(&mut p);
        self.pools[pool_id] = p;
        proof {
            lemma_replace_pool(*old(self), *self, pool_id as int, p);
        }
    }
}

} // verus!

//! Flash-loan funding, settlement, rollback, and the borrower's side.

use fluf::borrower::handle_borrow;
use fluf::coordinator::{LoanAttempt, LoanPhase};
use fluf::errors::ErrorCode;
use fluf::pool::Pool;

fn funded_pool() -> Pool {
    Pool {
        reserve_asset_id: 1,
        share_asset_id: 2,
        owner: 99,
        reserve_balance: 1500,
        share_supply: 1500,
        fee_accumulator_balance: 0,
    }
}

#[test]
fn begin_debits_principal_and_computes_fee() {
    let mut pool = funded_pool();
    let attempt = LoanAttempt::begin(&mut pool, 1000, 3, 1000, 40).unwrap();
    assert_eq!(attempt.principal, 1000);
    assert_eq!(attempt.fee, 3);
    assert_eq!(attempt.pre_balance, 40);
    assert_eq!(attempt.required_post_balance, 1043);
    assert_eq!(attempt.reserve_after_funding, 500);
    assert_eq!(attempt.phase, LoanPhase::AwaitingCallback);
    assert_eq!(attempt.required_repayment(), 1003);
    assert_eq!(pool.reserve_balance, 500);
    assert_eq!(pool.share_supply, 1500);
}

#[test]
fn begin_on_empty_pool_fails_without_transfer() {
    let mut pool = Pool::new(1, 2, 99);
    let before = pool;
    assert_eq!(
        LoanAttempt::begin(&mut pool, 10, 3, 1000, 0),
        Err(ErrorCode::EmptyPool)
    );
    assert_eq!(pool, before);
}

#[test]
fn begin_beyond_reserve_fails() {
    let mut pool = funded_pool();
    let before = pool;
    assert_eq!(
        LoanAttempt::begin(&mut pool, 1501, 3, 1000, 0),
        Err(ErrorCode::InsufficientFunds)
    );
    assert_eq!(pool, before);
}

#[test]
fn begin_with_unpayable_fee_fails() {
    let mut pool = funded_pool();
    let before = pool;
    // fee = floor(2 * u64::MAX / 1) does not fit in a balance.
    assert_eq!(
        LoanAttempt::begin(&mut pool, 2, u64::MAX, 1, 0),
        Err(ErrorCode::InvalidAmount)
    );
    assert_eq!(pool, before);
}

#[test]
fn settle_routes_fee_and_restores_reserve() {
    let mut pool = funded_pool();
    let mut attempt = LoanAttempt::begin(&mut pool, 1000, 3, 1000, 40).unwrap();
    let fee = attempt.settle(&mut pool, 1043);
    assert_eq!(fee, Ok(3));
    assert_eq!(attempt.phase, LoanPhase::Settled);
    assert_eq!(pool.reserve_balance, 1500);
    assert_eq!(pool.fee_accumulator_balance, 3);
}

#[test]
fn settle_accepts_excess_repayment() {
    let mut pool = funded_pool();
    let mut attempt = LoanAttempt::begin(&mut pool, 1000, 3, 1000, 40).unwrap();
    // The destination got more than required; the pool still takes exactly
    // principal plus fee.
    assert_eq!(attempt.settle(&mut pool, 2000), Ok(3));
    assert_eq!(pool.reserve_balance, 1500);
    assert_eq!(pool.fee_accumulator_balance, 3);
}

#[test]
fn settle_shortfall_rolls_back() {
    let mut pool = funded_pool();
    let mut attempt = LoanAttempt::begin(&mut pool, 1000, 3, 1000, 40).unwrap();
    let outcome = attempt.settle(&mut pool, 1042);
    assert_eq!(outcome, Err(ErrorCode::RepaymentShortfall));
    assert_eq!(attempt.phase, LoanPhase::Aborted);
    assert_eq!(pool.reserve_balance, 1500);
    assert_eq!(pool.fee_accumulator_balance, 0);
}

#[test]
fn abort_rolls_back_after_failed_callback() {
    let mut pool = funded_pool();
    let mut attempt = LoanAttempt::begin(&mut pool, 1000, 3, 1000, 40).unwrap();
    attempt.abort(&mut pool);
    assert_eq!(attempt.phase, LoanPhase::Aborted);
    assert_eq!(pool.reserve_balance, 1500);
    assert_eq!(pool.share_supply, 1500);
    assert_eq!(pool.fee_accumulator_balance, 0);
}

#[test]
fn zero_fee_rate_lends_for_free() {
    let mut pool = funded_pool();
    let mut attempt = LoanAttempt::begin(&mut pool, 1000, 0, 1000, 0).unwrap();
    assert_eq!(attempt.fee, 0);
    assert_eq!(attempt.settle(&mut pool, 1000), Ok(0));
    assert_eq!(pool.reserve_balance, 1500);
    assert_eq!(pool.fee_accumulator_balance, 0);
}

#[test]
fn handle_borrow_plans_principal_plus_fee() {
    // The sample borrower's flat rate: 25/1000 of the principal.
    assert_eq!(handle_borrow(1000, 25, 1000, 2000), Ok(1025));
    // Exactly affordable.
    assert_eq!(handle_borrow(1000, 25, 1000, 1025), Ok(1025));
}

#[test]
fn handle_borrow_refuses_unaffordable_repayment() {
    assert_eq!(
        handle_borrow(1000, 25, 1000, 1024),
        Err(ErrorCode::InsufficientFunds)
    );
}

#[test]
fn handle_borrow_refuses_unrepresentable_total() {
    assert_eq!(
        handle_borrow(u64::MAX, 1, 1, u64::MAX),
        Err(ErrorCode::InvalidAmount)
    );
}

//! End-to-end scenarios driven through the pool ledger.

use fluf::borrower::handle_borrow;
use fluf::errors::ErrorCode;
use fluf::ledger::PoolLedger;

const RESERVE_ASSET: u64 = 1;
const SHARE_ASSET: u64 = 2;
const OWNER: u64 = 99;

fn ledger_after_two_deposits() -> PoolLedger {
    let mut ledger = PoolLedger::new();
    let id = ledger
        .create_pool(RESERVE_ASSET, SHARE_ASSET, OWNER)
        .unwrap();
    assert_eq!(id, 0);
    assert_eq!(ledger.deposit(0, RESERVE_ASSET, 1000), Ok(1000));
    assert_eq!(ledger.deposit(0, RESERVE_ASSET, 500), Ok(500));
    ledger
}

#[test]
fn scenario_create_and_bootstrap_deposit() {
    let mut ledger = PoolLedger::new();
    let id = ledger
        .create_pool(RESERVE_ASSET, SHARE_ASSET, OWNER)
        .unwrap();
    assert_eq!(id, 0);
    let minted = ledger.deposit(0, RESERVE_ASSET, 1000);
    assert_eq!(minted, Ok(1000));
    let pool = ledger.pool_at(0);
    assert_eq!(pool.reserve_balance, 1000);
    assert_eq!(pool.share_supply, 1000);
}

#[test]
fn scenario_second_deposit_proportional() {
    let ledger = {
        let mut ledger = PoolLedger::new();
        ledger
            .create_pool(RESERVE_ASSET, SHARE_ASSET, OWNER)
            .unwrap();
        assert_eq!(ledger.deposit(0, RESERVE_ASSET, 1000), Ok(1000));
        // floor(500 * 1000 / 1000) = 500
        assert_eq!(ledger.deposit(0, RESERVE_ASSET, 500), Ok(500));
        ledger
    };
    let pool = ledger.pool_at(0);
    assert_eq!(pool.reserve_balance, 1500);
    assert_eq!(pool.share_supply, 1500);
}

#[test]
fn scenario_flash_loan_settles_and_routes_fee() {
    let mut ledger = ledger_after_two_deposits();
    // Lend 1000 at 3/1000: the borrower owes 1003 back.
    let mut attempt = ledger
        .lend_and_call(0, RESERVE_ASSET, 1000, 3, 1000, 0)
        .unwrap();
    assert_eq!(attempt.fee, 3);
    assert_eq!(attempt.required_post_balance, 1003);
    assert_eq!(ledger.pool_at(0).reserve_balance, 500);
    // The borrower holds the principal plus 3 units of its own and repays
    // everything it owes.
    let repayment = handle_borrow(1000, 3, 1000, 1003).unwrap();
    assert_eq!(repayment, 1003);
    let fee = ledger.settle_loan(0, &mut attempt, repayment);
    assert_eq!(fee, Ok(3));
    let pool = ledger.pool_at(0);
    assert_eq!(pool.reserve_balance, 1500);
    assert_eq!(pool.share_supply, 1500);
    assert_eq!(pool.fee_accumulator_balance, 3);
}

#[test]
fn scenario_flash_loan_shortfall_rolls_back() {
    let mut ledger = ledger_after_two_deposits();
    let mut attempt = ledger
        .lend_and_call(0, RESERVE_ASSET, 1000, 3, 1000, 0)
        .unwrap();
    // The borrower returns only the principal: 1000 < 1003.
    let outcome = ledger.settle_loan(0, &mut attempt, 1000);
    assert_eq!(outcome, Err(ErrorCode::RepaymentShortfall));
    let pool = ledger.pool_at(0);
    assert_eq!(pool.reserve_balance, 1500);
    assert_eq!(pool.share_supply, 1500);
    assert_eq!(pool.fee_accumulator_balance, 0);
}

#[test]
fn scenario_withdraw_fees_by_non_owner_fails() {
    let mut ledger = ledger_after_two_deposits();
    let mut attempt = ledger
        .lend_and_call(0, RESERVE_ASSET, 1000, 3, 1000, 0)
        .unwrap();
    assert_eq!(ledger.settle_loan(0, &mut attempt, 1003), Ok(3));
    let before = ledger.pool_at(0);
    let outcome = ledger.withdraw_fees(0, RESERVE_ASSET, OWNER + 1);
    assert_eq!(outcome, Err(ErrorCode::Unauthorized));
    assert_eq!(ledger.pool_at(0), before);
    // The owner can drain what the non-owner could not.
    assert_eq!(ledger.withdraw_fees(0, RESERVE_ASSET, OWNER), Ok(3));
    assert_eq!(ledger.pool_at(0).fee_accumulator_balance, 0);
}

//! Ledger-level registration and identity checks.

use fluf::errors::ErrorCode;
use fluf::ledger::PoolLedger;

#[test]
fn create_pool_assigns_sequential_ids() {
    let mut ledger = PoolLedger::new();
    assert_eq!(ledger.pool_count(), 0);
    assert_eq!(ledger.create_pool(1, 101, 99), Ok(0));
    assert_eq!(ledger.create_pool(2, 102, 99), Ok(1));
    assert_eq!(ledger.pool_count(), 2);
    assert_eq!(ledger.pool_at(0).reserve_asset_id, 1);
    assert_eq!(ledger.pool_at(1).reserve_asset_id, 2);
}

#[test]
fn duplicate_pool_creation_fails() {
    let mut ledger = PoolLedger::new();
    assert_eq!(ledger.create_pool(1, 101, 99), Ok(0));
    assert_eq!(ledger.create_pool(1, 103, 98), Err(ErrorCode::AlreadyExists));
    assert_eq!(ledger.pool_count(), 1);
}

#[test]
fn find_pool_by_asset() {
    let mut ledger = PoolLedger::new();
    ledger.create_pool(5, 105, 99).unwrap();
    ledger.create_pool(7, 107, 99).unwrap();
    assert_eq!(ledger.find_pool(7), Some(1));
    assert_eq!(ledger.find_pool(6), None);
}

#[test]
fn mismatched_pool_identity_is_refused() {
    let mut ledger = PoolLedger::new();
    ledger.create_pool(1, 101, 99).unwrap();
    assert_eq!(ledger.deposit(0, 2, 100), Err(ErrorCode::InvalidPool));
    assert_eq!(ledger.deposit(1, 1, 100), Err(ErrorCode::InvalidPool));
    assert_eq!(ledger.withdraw(0, 2, 1), Err(ErrorCode::InvalidPool));
    assert_eq!(ledger.withdraw_fees(0, 2, 99), Err(ErrorCode::InvalidPool));
    assert_eq!(
        ledger.lend_and_call(0, 2, 10, 3, 1000, 0),
        Err(ErrorCode::InvalidPool)
    );
    // The pool itself was never touched.
    assert_eq!(ledger.pool_at(0).reserve_balance, 0);
}

#[test]
fn ledger_deposit_and_withdraw_update_the_right_pool() {
    let mut ledger = PoolLedger::new();
    ledger.create_pool(1, 101, 99).unwrap();
    ledger.create_pool(2, 102, 99).unwrap();
    assert_eq!(ledger.deposit(1, 2, 800), Ok(800));
    assert_eq!(ledger.pool_at(0).reserve_balance, 0);
    assert_eq!(ledger.pool_at(1).reserve_balance, 800);
    assert_eq!(ledger.withdraw(1, 2, 300), Ok(300));
    assert_eq!(ledger.pool_at(1).reserve_balance, 500);
    assert_eq!(ledger.pool_at(1).share_supply, 500);
}

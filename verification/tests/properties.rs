//! Concrete instances of the library's general laws.

use fluf::pool::Pool;

fn skewed_pool() -> Pool {
    Pool {
        reserve_asset_id: 1,
        share_asset_id: 2,
        owner: 99,
        reserve_balance: 1000,
        share_supply: 3,
        fee_accumulator_balance: 0,
    }
}

#[test]
fn minting_never_exceeds_proportional_share() {
    // shares * reserve_before <= amount * supply_before on a ratio that
    // actually rounds: floor(700 * 3 / 1000) = 2 and 2 * 1000 <= 700 * 3.
    let mut pool = skewed_pool();
    let minted = pool.deposit(700).unwrap();
    assert_eq!(minted, 2);
    assert!(minted * 1000 <= 700 * 3);
}

#[test]
fn deposit_then_withdraw_returns_at_most_the_deposit() {
    // Deposit 700 into a 1000/3 pool, then immediately redeem the minted
    // shares: floor(2 * 1700 / 5) = 680 <= 700.
    let mut pool = skewed_pool();
    let minted = pool.deposit(700).unwrap();
    let released = pool.withdraw(minted).unwrap();
    assert_eq!(released, 680);
    assert!(released <= 700);
    // On a balanced pool the round trip is exact, still never more.
    let mut pool = Pool::new(1, 2, 99);
    let minted = pool.deposit(1000).unwrap();
    let second = pool.deposit(500).unwrap();
    let released = pool.withdraw(second).unwrap();
    assert_eq!(released, 500);
    let released = pool.withdraw(minted).unwrap();
    assert_eq!(released, 1000);
}

#[test]
fn draining_fees_twice_transfers_zero_the_second_time() {
    let mut pool = Pool {
        fee_accumulator_balance: 41,
        ..skewed_pool()
    };
    assert_eq!(pool.withdraw_fees(99), Ok(41));
    let drained = pool;
    assert_eq!(pool.withdraw_fees(99), Ok(0));
    assert_eq!(pool, drained);
}

//! A share-based lending-pool ledger with atomic flash-loan settlement.
//!
//! The crate models one or more lending pools.  Each pool holds a reserve of
//! a single asset and issues proportional share tokens against it.  Deposits
//! mint shares at the current reserve/share ratio (rounding down, in favour of
//! the pool), withdrawals redeem shares for the proportional amount of the
//! reserve, and a flash-loan coordinator lends reserve funds for the duration
//! of a single borrower callback, verifying full repayment plus a fee before
//! the loan settles.
//!
//! The ledger is pure accounting over caller-supplied balances: the actual
//! movement of funds (transfers, mints, burns, and the borrower callback) is
//! the job of the surrounding host, which drives this ledger and keeps its
//! counters in step with the real balances.

pub mod borrower;
pub mod coordinator;
pub mod errors;
pub mod ledger;
pub mod math;
pub mod pool;

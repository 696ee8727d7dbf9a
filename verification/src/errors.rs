//! The error taxonomy shared by every ledger operation.

use vstd::prelude::*;

verus! {

/// Why a ledger operation was refused.  Every operation is fail-fast: an
/// error means nothing was mutated (or, for a settling flash loan, that the
/// principal debit was rolled back).
#[derive(Clone, Copy, Debug, PartialEq, Eq, Structural)]
pub enum ErrorCode {
    /// A pool for the requested reserve asset already exists.
    AlreadyExists,
    /// The amount is zero, or the operation would overflow a balance.
    InvalidAmount,
    /// The caller-supplied pool identity does not match the pool.
    InvalidPool,
    /// The operation needs outstanding shares, but the pool has none.
    EmptyPool,
    /// More shares were offered for redemption than are outstanding.
    InsufficientShares,
    /// A balance is too low for the requested transfer.
    InsufficientFunds,
    /// The flash-loan repayment did not reach the required balance.
    RepaymentShortfall,
    /// An admin-only operation was called by a non-owner identity.
    Unauthorized,
}

} // verus!

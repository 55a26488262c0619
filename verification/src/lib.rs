//! A staking ledger with time-locked positions and periodic reward accrual.
//!
//! Accounts lock a principal for a chosen duration and accrue rewards from a
//! shared pool in whole accrual periods.  The library is the pure state
//! machine: every operation takes the caller, the current timestamp and any
//! attached value as plain arguments, mutates the ledger, and returns the
//! notifications and transfer amounts that the host must act on.  Moving
//! value between accounts is the host's business and stays outside.

use vstd::prelude::*;

pub mod events;
pub mod laws;
pub mod position;
pub mod staking;

verus! {

/// A recoverable failure: reported to the caller, with the ledger untouched.
///
/// Fatal conditions (zero-value deposits, an insolvent pool at collection
/// time, a direct claim with no elapsed period) are no errors: they abort
/// the whole call instead.  The library excludes them by `requires`
/// clauses; the host checks them first (see `Staking::can_claim` and
/// `Staking::can_collect`) and aborts without entering the ledger.
#[derive(Debug, Clone, Copy, PartialEq, Eq, Structural)]
pub enum Error {
    /// No open position (or no accrual cursor, where one is needed) for the account.
    NotFound,
    /// A withdrawal or claim was attempted by an account with no open position.
    NoStake,
    /// The requested lock period is not one of the configured period codes.
    InvalidPeriod,
    /// An extension was attempted before the position matured.
    StillActive,
    /// An external value transfer was declined by the collaborator; set by the host shell.
    TransferFailed,
}

} // verus!

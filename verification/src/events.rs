//! Notifications handed back to the host, and the claim settlement record.
//!
//! Events carry no behaviour: each operation returns the notifications it
//! would emit, and the host forwards them to whatever log it keeps.

use vstd::prelude::*;

verus! {

/// A deposit, top-up or extension was applied.
#[derive(Debug, Clone, Copy, PartialEq, Eq, Structural)]
pub struct Stake {
    /// The staking account.
    pub account: u64,
    /// Timestamp the deposit was applied at.
    pub staked_at: u64,
    /// The period code the position was written with.
    pub period: u32,
    /// The value attached to this deposit (zero for an extension).
    pub sum: u128,
    /// The position's principal after the deposit.
    pub total_staked: u128,
}

/// A position was paid out and reset.
#[derive(Debug, Clone, Copy, PartialEq, Eq, Structural)]
pub struct Withdraw {
    /// The withdrawing account.
    pub account: u64,
    /// The principal handed back to the account.
    pub sum: u128,
    /// Always false: every withdrawal, the emergency path included, is
    /// reported as a regular one.
    pub is_early: bool,
}

/// The shared reward pool was topped up.
#[derive(Debug, Clone, Copy, PartialEq, Eq, Structural)]
pub struct RewardPoolUpdated {
    /// The value added to the pool.
    pub amount: u128,
}

/// Accrued rewards were collected.
#[derive(Debug, Clone, Copy, PartialEq, Eq, Structural)]
pub struct Claim {
    /// The claiming account.
    pub account: u64,
    /// Whole accrual periods settled by this collection.
    pub periods: u32,
    /// The reward drawn from the pool, in pool units.
    pub amount: u128,
}

/// Everything the host must do after a successful reward collection:
/// forward the notification and transfer `payout` reward-token units
/// (the pool-unit reward scaled by the conversion rate) to the account.
#[derive(Debug, Clone, Copy, PartialEq, Eq, Structural)]
pub struct ClaimSettlement {
    /// The notification to forward.
    pub event: Claim,
    /// Reward-token units owed to the account.
    pub payout: u128,
}

} // verus!

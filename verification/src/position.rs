//! One account's stake position.

use vstd::prelude::*;

verus! {

/// An account's locked principal and its lock metadata.
///
/// A position with `amount == 0` counts as closed, whatever its other
/// fields hold: withdrawal resets every field to zero but keeps the record.
#[derive(Debug, Clone, Copy, PartialEq, Eq, Structural)]
pub struct StakeInfo {
    /// Principal currently locked.
    pub amount: u128,
    /// Timestamp of the last deposit, top-up or extension.
    pub started_at: u64,
    /// The period code the position was last written with.
    pub period: u32,
    /// Timestamp at which the lock matures; rewards never accrue past it.
    pub active_until: u64,
}

impl StakeInfo {
    /// The all-zero record a position is reset to on withdrawal.
    pub open spec fn spec_zeroed() -> StakeInfo {
        StakeInfo { amount: 0, started_at: 0, period: 0, active_until: 0 }
    }

    /// Builds the all-zero record.
    pub fn zeroed() -> (r: StakeInfo)
        ensures
            r == StakeInfo::spec_zeroed(),
    {
        StakeInfo { amount: 0, started_at: 0, period: 0, active_until: 0 }
    }

    /// Whether the position is open: closed positions are the zero-amount ones.
    pub open spec fn is_open(self) -> bool {
        self.amount > 0
    }
}

} // verus!

//! The staking ledger: pool counters, per-account positions and accrual
//! cursors, and the lifecycle operations over them.

use vstd::prelude::*;
use vstd::arithmetic::div_mod::{
    lemma_basic_div, lemma_fundamental_div_mod, lemma_mod_division_less_than_divisor,
};
use std::collections::HashMap;

use crate::events::{Claim, ClaimSettlement, RewardPoolUpdated, Stake, Withdraw};
use crate::position::StakeInfo;
use crate::Error;

verus! {

broadcast use vstd::std_specs::hash::group_hash_axioms;

/// Length of one accrual period, in host time units.
pub const ACCRUAL_PERIOD: u64 = 86400;

/// A lock lasts `period * LOCK_UNIT` time units: one unit is thirty accrual periods.
pub const LOCK_UNIT: u64 = 86400 * 30;

/// The reward owed for an elapsed span, before clamping to the pool:
/// `floor(amount * rate * periods * 100 / 36000)`, with the multiplications
/// carried out before the division, exactly as the stored counters compute it.
pub open spec fn spec_reward_formula(amount: u128, rate: u128, periods: int) -> int {
    amount * rate * periods * 100 / 36000
}

/// Rewards never accrue past maturity: time is clamped to `active_until`.
pub open spec fn spec_effective_time(now: u64, active_until: u64) -> u64 {
    if now > active_until {
        active_until
    } else {
        now
    }
}

/// The staking ledger.  One instance holds every account's position and
/// accrual cursor together with the global pool counters.
#[derive(Clone)]
pub struct Staking {
    /// Each account's current position; reset to all-zero, not removed, on withdrawal.
    pub stakes: HashMap<u64, StakeInfo>,
    /// Each account's accrual cursor: the boundary up to which rewards were paid.
    /// Absent until the account's first settled collection; treated as zero.
    pub last_reward_claims: HashMap<u64, u64>,
    /// The period codes a deposit or extension may use.
    pub available_periods: Vec<u32>,
    /// The account identifier of the reward token collaborator.
    pub reward_token: u64,
    /// Sum of deposited principal.  Deposits increase it; withdrawals,
    /// deliberately, never decrease it.
    pub total_staked: u128,
    /// Pool of reward value available to pay claims.
    pub rewards_balance: u128,
    /// Fixed per-period reward rate.
    pub reward_rate: u128,
    /// Configured but applied nowhere in the lifecycle; stored inert.
    pub early_withdraw_fee: u128,
    /// Pool units are scaled by this rate when paid out in reward tokens.
    pub reward_conversion_rate: u128,
}

impl Staking {
    /// The account's accrual cursor, zero when none was written yet.
    pub open spec fn spec_cursor(self, account: u64) -> u64 {
        if self.last_reward_claims@.contains_key(account) {
            self.last_reward_claims@[account]
        } else {
            0
        }
    }

    /// Whether the account has an open position: an entry with a positive amount.
    pub open spec fn has_position(self, account: u64) -> bool {
        self.stakes@.contains_key(account) && self.stakes@[account].is_open()
    }

    /// The account's recorded principal, zero when no entry exists.
    pub open spec fn spec_amount(self, account: u64) -> u128 {
        if self.stakes@.contains_key(account) {
            self.stakes@[account].amount
        } else {
            0
        }
    }

    /// Whole accrual periods elapsed between the cursor and the clamped
    /// current time.  Meaningful for accounts with a position entry.
    pub open spec fn spec_periods(self, account: u64, now: u64) -> int {
        let t = spec_effective_time(now, self.stakes@[account].active_until);
        (t - self.spec_cursor(account)) / (ACCRUAL_PERIOD as int)
    }

    /// The reward owed to the account for the elapsed whole periods.
    pub open spec fn spec_reward(self, account: u64, now: u64) -> int {
        spec_reward_formula(
            self.stakes@[account].amount,
            self.reward_rate,
            self.spec_periods(account, now),
        )
    }

    /// The accrual arithmetic stays within machine bounds for this account
    /// at this time: the cursor has not run past the clamped clock, the
    /// period count fits the reported word, and each partial product of the
    /// reward formula fits its machine word.  Any violation is fatal to
    /// the whole call, so the host checks this guard first.
    pub open spec fn reward_arith_ok(self, account: u64, now: u64) -> bool {
        let info = self.stakes@[account];
        let t = spec_effective_time(now, info.active_until);
        let p = self.spec_periods(account, now);
        &&& self.spec_cursor(account) <= t
        &&& p <= u32::MAX
        &&& info.amount * self.reward_rate <= u128::MAX
        &&& info.amount * self.reward_rate * p <= u128::MAX
        &&& info.amount * self.reward_rate * p * 100 <= u128::MAX
    }

    /// A settled collection stays within bounds: the pool covers the reward,
    /// the cursor advance fits the word it is computed in, and the payout
    /// conversion does not overflow.
    pub open spec fn settle_ok(self, account: u64, now: u64) -> bool {
        let p = self.spec_periods(account, now);
        &&& self.spec_reward(account, now) <= self.rewards_balance
        &&& (ACCRUAL_PERIOD as int) * p <= u32::MAX
        &&& self.spec_reward(account, now) * self.reward_conversion_rate <= u128::MAX
    }

    /// Everything a forced (non-direct) collection needs from the account's
    /// state: sound arithmetic, and solvency whenever a period has elapsed.
    pub open spec fn collect_ok(self, account: u64, now: u64) -> bool {
        &&& self.reward_arith_ok(account, now)
        &&& self.spec_periods(account, now) > 0 ==> self.settle_ok(account, now)
    }

    /// The construction-time configuration is untouched between `self` and `post`.
    pub open spec fn config_unchanged(self, post: Staking) -> bool {
        &&& post.available_periods@ == self.available_periods@
        &&& post.reward_token == self.reward_token
        &&& post.reward_rate == self.reward_rate
        &&& post.early_withdraw_fee == self.early_withdraw_fee
        &&& post.reward_conversion_rate == self.reward_conversion_rate
    }

    /// How one reward collection for `account` at `now` rewrites `self` into
    /// `post` and what it hands back: with at least one elapsed whole period
    /// the cursor advances by exactly the settled span, the pool shrinks by
    /// the reward, and a settlement is returned; otherwise nothing moves.
    pub open spec fn collect_transition(
        self,
        post: Staking,
        account: u64,
        now: u64,
        r: Option<ClaimSettlement>,
    ) -> bool {
        if self.has_position(account) && self.spec_periods(account, now) > 0 {
            let p = self.spec_periods(account, now);
            let w = self.spec_reward(account, now);
            &&& post.last_reward_claims@ == self.last_reward_claims@.insert(
                account,
                (self.spec_cursor(account) + (ACCRUAL_PERIOD as int) * p) as u64,
            )
            &&& post.rewards_balance == self.rewards_balance - w
            &&& r matches Some(s) && s.event.account == account && s.event.periods == p
                && s.event.amount == w && s.payout == w * self.reward_conversion_rate
        } else {
            &&& post.last_reward_claims@ == self.last_reward_claims@
            &&& post.rewards_balance == self.rewards_balance
            &&& r is None
        }
    }

    /// Reads the account's accrual cursor, defaulting to zero.
    fn cursor_for(&self, account: u64) -> (r: u64)
        ensures
            r == self.spec_cursor(account),
    {
        match self.last_reward_claims.get(&account) {
            Some(c) => *c,
            None => 0,
        }
    }

    /// Copies the account's position entry out of the ledger, if any.
    fn position_of(&self, account: u64) -> (r: Option<StakeInfo>)
        ensures
            r matches Some(info) ==> self.stakes@.contains_key(account) && info
                == self.stakes@[account],
            r is None ==> !self.stakes@.contains_key(account),
    {
        match self.stakes.get(&account) {
            Some(info) => Some(*info),
            None => None,
        }
    }

    /// Whether `period` is one of the configured period codes.
    fn validate_period(&self, period: u32) -> (r: bool)
        ensures
            r == self.available_periods@.contains(period),
    {
        let n = self.available_periods.len();
        let mut i: usize = 0;
        while i < n
            invariant
                n == self.available_periods@.len(),
                i <= n,
                forall|j: int| 0 <= j < i ==> self.available_periods@[j] != period,
            decreases n - i,
        {
            if self.available_periods[i] == period {
                return true;
            }
            i += 1;
        }
        false
    }

    /// Counts the whole periods elapsed since the cursor, clamped to
    /// maturity, and the reward they earn, in exactly the stored order of
    /// operations: multiply through, then divide once.
    fn accrued(&self, account: u64, now: u64) -> (r: (u32, u128))
        requires
            self.has_position(account),
            self.reward_arith_ok(account, now),
        ensures
            r.0 == self.spec_periods(account, now),
            r.1 == self.spec_reward(account, now),
    {
        let info = self.position_of(account).unwrap();
        let cursor = self.cursor_for(account);
        let t = if now > info.active_until {
            info.active_until
        } else {
            now
        };
        let periods: u64 = (t - cursor) / ACCRUAL_PERIOD;
        let reward: u128 = info.amount * self.reward_rate * (periods as u128) * 100 / 36000;
        (periods as u32, reward)
    }

    /// The elapsed whole periods and the reward they earn; `NotFound` for
    /// an account with no open position.
    pub fn reward_amount(&self, account: u64, now: u64) -> (r: Result<(u32, u128), Error>)
        requires
            self.has_position(account) ==> self.reward_arith_ok(account, now),
        ensures
            !self.has_position(account) ==> (r matches Err(e) && e == Error::NotFound),
            self.has_position(account) ==> (r matches Ok(pw) && pw.0 == self.spec_periods(
                account,
                now,
            ) && pw.1 == self.spec_reward(account, now)),
    {
        match self.position_of(account) {
            Some(info) if info.amount > 0 => Ok(self.accrued(account, now)),
            _ => Err(Error::NotFound),
        }
    }

    /// Settles accrued rewards for an account with an open position.
    ///
    /// In non-direct mode (forced by a deposit, extension or withdrawal) a
    /// zero-period span is a silent no-op; the direct mode of `claim` must
    /// only be entered with at least one elapsed whole period.  Once past
    /// that gate the cursor advances by the settled span, the pool pays the
    /// reward, and the settlement to forward is returned.  A fresh
    /// collection at the same instant then finds no elapsed period at all.
    fn collect_rewards(&mut self, account: u64, now: u64, not_direct: bool) -> (r: Option<
        ClaimSettlement,
    >)
        requires
            old(self).has_position(account),
            old(self).reward_arith_ok(account, now),
            !not_direct ==> old(self).spec_periods(account, now) > 0,
            old(self).spec_periods(account, now) > 0 ==> old(self).settle_ok(account, now),
        ensures
            old(self).collect_transition(*final(self), account, now, r),
            final(self).stakes@ == old(self).stakes@,
            final(self).total_staked == old(self).total_staked,
            old(self).config_unchanged(*final(self)),
            final(self).spec_cursor(account) >= old(self).spec_cursor(account),
            final(self).spec_periods(account, now) == 0,
            final(self).spec_reward(account, now) == 0,
    {
        let (periods, reward) = self.accrued(account, now);
        if not_direct && periods == 0 {
            proof {
                assert(self.stakes@[account].amount * self.reward_rate * 0 == 0)
                    by (nonlinear_arith);
            }
            return None;
        }
        let cursor = self.cursor_for(account);
        let step: u32 = (ACCRUAL_PERIOD as u32) * periods;
        proof {
            let info = self.stakes@[account];
            let t = spec_effective_time(now, info.active_until) as int;
            let c = self.spec_cursor(account) as int;
            let d = ACCRUAL_PERIOD as int;
            lemma_fundamental_div_mod(t - c, d);
            lemma_mod_division_less_than_divisor(t - c, d);
            assert(c + d * ((t - c) / d) <= t);
        }
        self.last_reward_claims.insert(account, cursor + (step as u64));
        self.rewards_balance = self.rewards_balance - reward;
        let payout = reward * self.reward_conversion_rate;
        proof {
            let pre = *old(self);
            let info = pre.stakes@[account];
            let t = spec_effective_time(now, info.active_until) as int;
            let c = pre.spec_cursor(account) as int;
            let d = ACCRUAL_PERIOD as int;
            lemma_fundamental_div_mod(t - c, d);
            lemma_mod_division_less_than_divisor(t - c, d);
            let rest = t - self.spec_cursor(account);
            assert(rest == (t - c) % d);
            lemma_basic_div(rest, d);
            assert(self.spec_periods(account, now) == 0);
            assert(info.amount * pre.reward_rate * 0 == 0) by (nonlinear_arith);
        }
        Some(
            ClaimSettlement {
                event: Claim { account, periods, amount: reward },
                payout,
            },
        )
    }

    /// The maturity a deposit writes: a genuine first deposit or an
    /// extension (attached value zero) locks for `period * LOCK_UNIT` from
    /// `now`; a top-up of an open position never moves the maturity.
    pub open spec fn spec_new_until(self, account: u64, period: u32, value: u128, now: u64) -> int {
        if value == 0 || !self.has_position(account) {
            now + period * (LOCK_UNIT as int)
        } else {
            self.stakes@[account].active_until as int
        }
    }

    /// Writes the deposit itself: principal grows by the attached value,
    /// `started_at` is stamped with `now`, the maturity follows
    /// `spec_new_until`, and the pool-wide total grows by the value.
    fn stake_apply(&mut self, account: u64, period: u32, value: u128, now: u64) -> (ev: Stake)
        requires
            old(self).spec_amount(account) + value <= u128::MAX,
            old(self).total_staked + value <= u128::MAX,
            old(self).spec_new_until(account, period, value, now) <= u64::MAX,
        ensures
            final(self).stakes@ == old(self).stakes@.insert(
                account,
                StakeInfo {
                    amount: (old(self).spec_amount(account) + value) as u128,
                    started_at: now,
                    period,
                    active_until: old(self).spec_new_until(account, period, value, now) as u64,
                },
            ),
            final(self).total_staked == old(self).total_staked + value,
            final(self).last_reward_claims@ == old(self).last_reward_claims@,
            final(self).rewards_balance == old(self).rewards_balance,
            old(self).config_unchanged(*final(self)),
            ev.account == account && ev.staked_at == now && ev.period == period && ev.sum == value
                && ev.total_staked == old(self).spec_amount(account) + value,
    {
        let prev = match self.position_of(account) {
            Some(info) => info.amount,
            None => 0,
        };
        let new_amount = prev + value;
        let until: u64 = if value == 0 || prev == 0 {
            now + (period as u64) * LOCK_UNIT
        } else {
            self.position_of(account).unwrap().active_until
        };
        self.stakes.insert(
            account,
            StakeInfo { amount: new_amount, started_at: now, period, active_until: until },
        );
        self.total_staked = self.total_staked + value;
        Stake { account, staked_at: now, period, sum: value, total_staked: new_amount }
    }

    /// Deposit or top-up: locks `value` for the caller.
    ///
    /// An open position first has its accrued rewards force-collected
    /// (silently skipped when no whole period elapsed).  A genuine first
    /// deposit locks until `now + period * LOCK_UNIT`; a top-up leaves the
    /// maturity untouched.  The pool-wide total always grows by exactly the
    /// attached value.  An unknown period code is rejected with the ledger
    /// untouched.  The host must attach a positive value and check
    /// `can_collect` first: a zero deposit or a failed collection check
    /// aborts the call before it reaches the ledger.
    pub fn stake(&mut self, caller: u64, now: u64, period: u32, value: u128) -> (r: Result<
        (Option<ClaimSettlement>, Stake),
        Error,
    >)
        requires
            value > 0,
            old(self).available_periods@.contains(period) ==> {
                &&& old(self).has_position(caller) ==> old(self).collect_ok(caller, now)
                &&& old(self).spec_amount(caller) + value <= u128::MAX
                &&& old(self).total_staked + value <= u128::MAX
                &&& old(self).spec_new_until(caller, period, value, now) <= u64::MAX
            },
        ensures
            !old(self).available_periods@.contains(period) ==> (r matches Err(e) && e
                == Error::InvalidPeriod) && *final(self) == *old(self),
            old(self).available_periods@.contains(period) ==> (r matches Ok(out) && {
                &&& old(self).collect_transition(*final(self), caller, now, out.0)
                &&& final(self).stakes@ == old(self).stakes@.insert(
                    caller,
                    StakeInfo {
                        amount: (old(self).spec_amount(caller) + value) as u128,
                        started_at: now,
                        period,
                        active_until: old(self).spec_new_until(caller, period, value, now) as u64,
                    },
                )
                &&& final(self).total_staked == old(self).total_staked + value
                &&& old(self).config_unchanged(*final(self))
                &&& out.1.account == caller && out.1.staked_at == now && out.1.period == period
                    && out.1.sum == value && out.1.total_staked == old(self).spec_amount(caller)
                    + value
            }),
    {
        if !self.validate_period(period) {
            return Err(Error::InvalidPeriod);
        }
        let settlement = if self.amount_of(caller) != 0 {
            self.collect_rewards(caller, now, true)
        } else {
            None
        };
        let ev = self.stake_apply(caller, period, value, now);
        Ok((settlement, ev))
    }

    /// Reads the recorded principal, zero when no entry exists.
    fn amount_of(&self, account: u64) -> (r: u128)
        ensures
            r == self.spec_amount(account),
    {
        match self.position_of(account) {
            Some(info) => info.amount,
            None => 0,
        }
    }

    /// Re-locks a matured position for a fresh term without adding value.
    ///
    /// Only a matured position may be extended: before maturity the call is
    /// rejected with `StillActive`.  Accrued rewards are force-collected
    /// first, then the deposit path runs with value zero, which stamps
    /// `started_at` with `now` and recomputes the maturity from `now` and
    /// the new period, leaving the principal as it was.
    pub fn extend(&mut self, caller: u64, now: u64, period: u32) -> (r: Result<
        (Option<ClaimSettlement>, Stake),
        Error,
    >)
        requires
            old(self).has_position(caller) && old(self).stakes@[caller].active_until < now && old(self).available_periods@.contains(period) ==> {
                &&& old(self).collect_ok(caller, now)
                &&& now + period * (LOCK_UNIT as int) <= u64::MAX
            },
        ensures
            !old(self).has_position(caller) ==> (r matches Err(e) && e == Error::NotFound) && *final(self) == *old(self),
            old(self).has_position(caller) && now <= old(self).stakes@[caller].active_until ==> (
            r matches Err(e) && e == Error::StillActive) && *final(self) == *old(self),
            old(self).has_position(caller) && old(self).stakes@[caller].active_until < now && !old(self).available_periods@.contains(period) ==> (r matches Err(e) && e
                == Error::InvalidPeriod) && *final(self) == *old(self),
            old(self).has_position(caller) && old(self).stakes@[caller].active_until < now && old(self).available_periods@.contains(period) ==> (r matches Ok(out) && {
                &&& old(self).collect_transition(*final(self), caller, now, out.0)
                &&& final(self).stakes@ == old(self).stakes@.insert(
                    caller,
                    StakeInfo {
                        amount: old(self).stakes@[caller].amount,
                        started_at: now,
                        period,
                        active_until: (now + period * (LOCK_UNIT as int)) as u64,
                    },
                )
                &&& final(self).total_staked == old(self).total_staked
                &&& old(self).config_unchanged(*final(self))
                &&& out.1.account == caller && out.1.staked_at == now && out.1.period == period
                    && out.1.sum == 0 && out.1.total_staked == old(self).stakes@[caller].amount
            }),
    {
        if self.amount_of(caller) == 0 {
            return Err(Error::NotFound);
        }
        let info = self.position_of(caller).unwrap();
        if !(info.active_until < now) {
            return Err(Error::StillActive);
        }
        if !self.validate_period(period) {
            return Err(Error::InvalidPeriod);
        }
        let settlement = self.collect_rewards(caller, now, true);
        let ev = self.stake_apply(caller, period, 0, now);
        Ok((settlement, ev))
    }

    /// Pays a position out at face value and resets it.
    ///
    /// Accrued rewards are force-collected first (a silent no-op when no
    /// whole period elapsed), the position's fields are all reset to zero,
    /// and the principal is owed back to the caller: the host transfers
    /// exactly the returned event's `sum`.  The pool-wide total is left
    /// as it was: deposits raise it, withdrawals deliberately do not lower
    /// it.  An account with no open position gets `NoStake`.
    pub fn withdraw(&mut self, caller: u64, now: u64) -> (r: Result<
        (Option<ClaimSettlement>, Withdraw),
        Error,
    >)
        requires
            old(self).has_position(caller) ==> old(self).collect_ok(caller, now),
        ensures
            !old(self).has_position(caller) ==> (r matches Err(e) && e == Error::NoStake) && *final(self) == *old(self),
            old(self).has_position(caller) ==> (r matches Ok(out) && {
                &&& old(self).collect_transition(*final(self), caller, now, out.0)
                &&& final(self).stakes@ == old(self).stakes@.insert(
                    caller,
                    StakeInfo::spec_zeroed(),
                )
                &&& final(self).total_staked == old(self).total_staked
                &&& old(self).config_unchanged(*final(self))
                &&& out.1.account == caller && out.1.sum == old(self).stakes@[caller].amount
                    && out.1.is_early == false
            }),
    {
        let amount = self.amount_of(caller);
        if amount == 0 {
            return Err(Error::NoStake);
        }
        let settlement = self.collect_rewards(caller, now, true);
        let ev = self.withdraw_apply(caller, amount);
        Ok((settlement, ev))
    }

    /// Forfeits all unclaimed rewards and pays the principal out at once.
    ///
    /// No collection runs and the cursor stays where it was: whatever had
    /// accrued is lost.  The position is reset to zero and the principal is
    /// owed back to the caller regardless of maturity.
    pub fn emergency_withdraw(&mut self, caller: u64) -> (r: Result<Withdraw, Error>)
        ensures
            !old(self).has_position(caller) ==> (r matches Err(e) && e == Error::NoStake) && *final(self) == *old(self),
            old(self).has_position(caller) ==> (r matches Ok(ev) && {
                &&& final(self).stakes@ == old(self).stakes@.insert(
                    caller,
                    StakeInfo::spec_zeroed(),
                )
                &&& final(self).last_reward_claims@ == old(self).last_reward_claims@
                &&& final(self).rewards_balance == old(self).rewards_balance
                &&& final(self).total_staked == old(self).total_staked
                &&& old(self).config_unchanged(*final(self))
                &&& ev.account == caller && ev.sum == old(self).stakes@[caller].amount
                    && ev.is_early == false
            }),
    {
        let amount = self.amount_of(caller);
        if amount == 0 {
            return Err(Error::NoStake);
        }
        let ev = self.withdraw_apply(caller, amount);
        Ok(ev)
    }

    /// Settles the caller's accrued rewards directly.
    ///
    /// The cursor advances by the settled span, the pool pays the reward,
    /// and the returned settlement tells the host what to transfer.  Run
    /// again at the same instant, the engine reports no elapsed period and
    /// no reward.  An account with no open position gets `NoStake`.  The
    /// host must check `can_claim` first: unlike the forced collections, a
    /// direct claim with no elapsed whole period, or one the pool cannot
    /// cover, aborts the call before it reaches the ledger.
    pub fn claim(&mut self, caller: u64, now: u64) -> (r: Result<ClaimSettlement, Error>)
        requires
            old(self).has_position(caller) ==> {
                &&& old(self).reward_arith_ok(caller, now)
                &&& old(self).spec_periods(caller, now) > 0
                &&& old(self).settle_ok(caller, now)
            },
        ensures
            !old(self).has_position(caller) ==> (r matches Err(e) && e == Error::NoStake) && *final(self) == *old(self),
            old(self).has_position(caller) ==> (r matches Ok(s) && {
                &&& old(self).collect_transition(*final(self), caller, now, Some(s))
                &&& final(self).stakes@ == old(self).stakes@
                &&& final(self).total_staked == old(self).total_staked
                &&& old(self).config_unchanged(*final(self))
                &&& final(self).spec_periods(caller, now) == 0
                &&& final(self).spec_reward(caller, now) == 0
                &&& final(self).spec_cursor(caller) > old(self).spec_cursor(caller)
            }),
    {
        if self.amount_of(caller) == 0 {
            return Err(Error::NoStake);
        }
        let settlement = self.collect_rewards(caller, now, false);
        match settlement {
            Some(s) => Ok(s),
            None => {
                proof {
                    assert(false);
                }
                Err(Error::NoStake)
            },
        }
    }

    /// Adds the attached value to the shared reward pool.  The host must
    /// attach a positive value: a zero top-up aborts the call.
    pub fn update_rewards_pool(&mut self, value: u128) -> (ev: RewardPoolUpdated)
        requires
            value > 0,
            old(self).rewards_balance + value <= u128::MAX,
        ensures
            final(self).rewards_balance == old(self).rewards_balance + value,
            final(self).stakes@ == old(self).stakes@,
            final(self).last_reward_claims@ == old(self).last_reward_claims@,
            final(self).total_staked == old(self).total_staked,
            old(self).config_unchanged(*final(self)),
            ev.amount == value,
    {
        self.rewards_balance = self.rewards_balance + value;
        RewardPoolUpdated { amount: value }
    }

    /// Resets the account's position to all-zero and reports the principal
    /// owed back.  The cursor and every pool counter stay untouched.
    fn withdraw_apply(&mut self, account: u64, amount: u128) -> (ev: Withdraw)
        ensures
            final(self).stakes@ == old(self).stakes@.insert(account, StakeInfo::spec_zeroed()),
            final(self).last_reward_claims@ == old(self).last_reward_claims@,
            final(self).rewards_balance == old(self).rewards_balance,
            final(self).total_staked == old(self).total_staked,
            old(self).config_unchanged(*final(self)),
            ev.account == account && ev.sum == amount && ev.is_early == false,
    {
        self.stakes.insert(account, StakeInfo::zeroed());
        Withdraw { account, sum: amount, is_early: false }
    }

    /// The lock duration of the account's open position, in accrual periods.
    pub fn get_staking_period(&self, account: u64) -> (r: Result<u32, Error>)
        requires
            self.has_position(account) ==> self.stakes@[account].started_at
                <= self.stakes@[account].active_until && (self.stakes@[account].active_until
                - self.stakes@[account].started_at) / (ACCRUAL_PERIOD as int) <= u32::MAX,
        ensures
            !self.has_position(account) ==> (r matches Err(e) && e == Error::NotFound),
            self.has_position(account) ==> (r matches Ok(p) && p == (self.stakes@[
                account
            ].active_until - self.stakes@[account].started_at) / (ACCRUAL_PERIOD as int)),
    {
        match self.position_of(account) {
            Some(info) if info.amount > 0 => Ok(
                ((info.active_until - info.started_at) / ACCRUAL_PERIOD) as u32,
            ),
            _ => Err(Error::NotFound),
        }
    }

    /// The reward currently owed to the account.
    pub fn available_rewards(&self, account: u64, now: u64) -> (r: Result<u128, Error>)
        requires
            self.has_position(account) ==> self.reward_arith_ok(account, now),
        ensures
            !self.has_position(account) ==> (r matches Err(e) && e == Error::NotFound),
            self.has_position(account) ==> (r matches Ok(w) && w == self.spec_reward(
                account,
                now,
            )),
    {
        match self.reward_amount(account, now) {
            Ok(pw) => Ok(pw.1),
            Err(e) => Err(e),
        }
    }

    /// The whole accrual periods elapsed since the account's cursor.
    pub fn passed_reward_periods(&self, account: u64, now: u64) -> (r: Result<u32, Error>)
        requires
            self.has_position(account) ==> self.reward_arith_ok(account, now),
        ensures
            !self.has_position(account) ==> (r matches Err(e) && e == Error::NotFound),
            self.has_position(account) ==> (r matches Ok(p) && p == self.spec_periods(
                account,
                now,
            )),
    {
        match self.reward_amount(account, now) {
            Ok(pw) => Ok(pw.0),
            Err(e) => Err(e),
        }
    }

    /// When the account crosses its next accrual boundary: past maturity
    /// that is the maturity itself, otherwise the start of the next whole
    /// period measured from `started_at`.  Needs both an open position and
    /// a written cursor.
    pub fn next_reward_date(&self, account: u64, now: u64) -> (r: Result<u64, Error>)
        requires
            self.has_position(account) && self.last_reward_claims@.contains_key(account) && now
                <= self.stakes@[account].active_until ==> self.stakes@[account].started_at <= now
                && ((now - self.stakes@[account].started_at) / (ACCRUAL_PERIOD as int) + 1) * (
            ACCRUAL_PERIOD as int) + self.stakes@[account].started_at <= u64::MAX,
        ensures
            !(self.has_position(account) && self.last_reward_claims@.contains_key(account)) ==> (
            r matches Err(e) && e == Error::NotFound),
            self.has_position(account) && self.last_reward_claims@.contains_key(account) && now
                > self.stakes@[account].active_until ==> (r matches Ok(d) && d == self.stakes@[
                account
            ].active_until),
            self.has_position(account) && self.last_reward_claims@.contains_key(account) && now
                <= self.stakes@[account].active_until ==> (r matches Ok(d) && d == ((now
                - self.stakes@[account].started_at) / (ACCRUAL_PERIOD as int) + 1) * (
            ACCRUAL_PERIOD as int) + self.stakes@[account].started_at),
    {
        if !self.last_reward_claims.contains_key(&account) {
            return Err(Error::NotFound);
        }
        match self.position_of(account) {
            Some(info) if info.amount > 0 => {
                if now > info.active_until {
                    Ok(info.active_until)
                } else {
                    let passed = (now - info.started_at) / ACCRUAL_PERIOD;
                    Ok((passed + 1) * ACCRUAL_PERIOD + info.started_at)
                }
            },
            _ => Err(Error::NotFound),
        }
    }

    /// The account's full stake record: principal, start, period code,
    /// maturity, the reward owed now, and the next accrual boundary.
    pub fn all_stake_info(&self, account: u64, now: u64) -> (r: Result<
        (u128, u64, u32, u64, u128, u64),
        Error,
    >)
        requires
            self.has_position(account) ==> self.reward_arith_ok(account, now),
            self.has_position(account) && self.last_reward_claims@.contains_key(account) && now
                <= self.stakes@[account].active_until ==> self.stakes@[account].started_at <= now
                && ((now - self.stakes@[account].started_at) / (ACCRUAL_PERIOD as int) + 1) * (
            ACCRUAL_PERIOD as int) + self.stakes@[account].started_at <= u64::MAX,
        ensures
            !(self.has_position(account) && self.last_reward_claims@.contains_key(account)) ==> (
            r matches Err(e) && e == Error::NotFound),
            self.has_position(account) && self.last_reward_claims@.contains_key(account) ==> (
            r matches Ok(t) && {
                let info = self.stakes@[account];
                &&& t.0 == info.amount
                &&& t.1 == info.started_at
                &&& t.2 == info.period
                &&& t.3 == info.active_until
                &&& t.4 == self.spec_reward(account, now)
                &&& t.5 == (if now > info.active_until {
                    info.active_until as int
                } else {
                    ((now - info.started_at) / (ACCRUAL_PERIOD as int) + 1) * (
                    ACCRUAL_PERIOD as int) + info.started_at
                })
            }),
    {
        let info = match self.position_of(account) {
            Some(info) if info.amount > 0 => info,
            _ => {
                return Err(Error::NotFound);
            },
        };
        let (_, reward) = self.accrued(account, now);
        let next = match self.next_reward_date(account, now) {
            Ok(d) => d,
            Err(e) => {
                return Err(e);
            },
        };
        Ok((info.amount, info.started_at, info.period, info.active_until, reward, next))
    }

    /// Decides at run time whether the account's accrual arithmetic stays
    /// within bounds, period count and partial products included.
    fn arith_in_bounds(&self, account: u64, now: u64) -> (r: bool)
        requires
            self.has_position(account),
        ensures
            r == self.reward_arith_ok(account, now),
    {
        let info = self.position_of(account).unwrap();
        let cursor = self.cursor_for(account);
        let t = if now > info.active_until {
            info.active_until
        } else {
            now
        };
        if cursor > t {
            return false;
        }
        let periods: u64 = (t - cursor) / ACCRUAL_PERIOD;
        if periods > (u32::MAX as u64) {
            return false;
        }
        let m1 = match info.amount.checked_mul(self.reward_rate) {
            Some(m) => m,
            None => {
                return false;
            },
        };
        let m2 = match m1.checked_mul(periods as u128) {
            Some(m) => m,
            None => {
                return false;
            },
        };
        m2.checked_mul(100).is_some()
    }

    /// Decides at run time whether a settled collection for the account
    /// would stay within bounds: pool solvency, the cursor advance, and the
    /// payout conversion.  Callers establish the accrual arithmetic first.
    fn settle_in_bounds(&self, account: u64, now: u64) -> (r: bool)
        requires
            self.has_position(account),
            self.reward_arith_ok(account, now),
        ensures
            r == self.settle_ok(account, now),
    {
        let (periods, reward) = self.accrued(account, now);
        if reward > self.rewards_balance {
            return false;
        }
        if (periods as u64) > u32::MAX as u64 / ACCRUAL_PERIOD {
            return false;
        }
        reward.checked_mul(self.reward_conversion_rate).is_some()
    }

    /// The host's guard for a direct claim: true exactly when `claim` may
    /// run, that is when the caller has an open position, at least one
    /// whole period has elapsed, the pool covers the reward, and every
    /// machine word involved holds its value.  Whenever this is false and
    /// the position is open, the claim is fatal and must not be made.
    pub fn can_claim(&self, account: u64, now: u64) -> (r: bool)
        ensures
            r == (self.has_position(account) && self.reward_arith_ok(account, now)
                && self.spec_periods(account, now) > 0 && self.settle_ok(account, now)),
    {
        if self.amount_of(account) == 0 {
            return false;
        }
        if !self.arith_in_bounds(account, now) {
            return false;
        }
        let (periods, _) = self.accrued(account, now);
        if periods == 0 {
            return false;
        }
        self.settle_in_bounds(account, now)
    }

    /// The host's guard for the forced collections inside deposits,
    /// extensions and withdrawals: true exactly when such a collection
    /// cannot abort, either because the account has no open position,
    /// or because its arithmetic is in bounds and any settled span is
    /// covered by the pool.
    pub fn can_collect(&self, account: u64, now: u64) -> (r: bool)
        ensures
            r == (self.has_position(account) ==> self.collect_ok(account, now)),
    {
        if self.amount_of(account) == 0 {
            return true;
        }
        if !self.arith_in_bounds(account, now) {
            return false;
        }
        let (periods, _) = self.accrued(account, now);
        if periods == 0 {
            return true;
        }
        self.settle_in_bounds(account, now)
    }

    /// Builds an empty ledger with the two stock period codes and the fixed
    /// rate parameters.
    pub fn new(reward_token: u64, reward_conversion_rate: u128) -> (s: Staking)
        ensures
            s.stakes@ == Map::<u64, StakeInfo>::empty(),
            s.last_reward_claims@ == Map::<u64, u64>::empty(),
            s.available_periods@ == seq![6u32, 12u32],
            s.reward_token == reward_token,
            s.total_staked == 0,
            s.rewards_balance == 0,
            s.reward_rate == 5,
            s.early_withdraw_fee == 10,
            s.reward_conversion_rate == reward_conversion_rate,
    {
        let mut available_periods: Vec<u32> = Vec::new();
        available_periods.push(6);
        available_periods.push(12);
        proof {
            assert(available_periods@ =~= seq![6u32, 12u32]);
        }
        Staking {
            stakes: HashMap::new(),
            last_reward_claims: HashMap::new(),
            available_periods,
            reward_token,
            total_staked: 0,
            rewards_balance: 0,
            reward_rate: 5,
            early_withdraw_fee: 10,
            reward_conversion_rate,
        }
    }
}

} // verus!

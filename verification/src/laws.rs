//! Statements that hold across operations, proved once and for all.

use vstd::prelude::*;
use vstd::arithmetic::div_mod::{
    lemma_basic_div, lemma_fundamental_div_mod, lemma_mod_division_less_than_divisor,
};

use crate::events::ClaimSettlement;
use crate::position::StakeInfo;
use crate::staking::{Staking, ACCRUAL_PERIOD, LOCK_UNIT};

verus! {

/// A top-up never moves the maturity: with an open position and value
/// attached, the maturity a deposit writes is the one already recorded,
/// whatever period code the top-up names.
pub proof fn lemma_topup_keeps_maturity(
    s: Staking,
    account: u64,
    period: u32,
    value: u128,
    now: u64,
)
    requires
        s.has_position(account),
        value > 0,
    ensures
        s.spec_new_until(account, period, value, now) == s.stakes@[account].active_until,
{
}

/// Only a genuine first deposit (and the extension path, which deposits
/// value zero) computes the maturity from the current clock.
pub proof fn lemma_first_deposit_sets_maturity(
    s: Staking,
    account: u64,
    period: u32,
    value: u128,
    now: u64,
)
    requires
        !s.has_position(account),
    ensures
        s.spec_new_until(account, period, value, now) == now + period * (LOCK_UNIT as int),
{
}

/// A settled collection leaves nothing behind: whatever it paid, the
/// engine run again at the same instant counts no elapsed whole period
/// and owes no reward.
pub proof fn lemma_settled_collection_leaves_nothing(
    pre: Staking,
    post: Staking,
    account: u64,
    now: u64,
    r: Option<ClaimSettlement>,
)
    requires
        pre.has_position(account),
        pre.reward_arith_ok(account, now),
        pre.collect_transition(post, account, now, r),
        post.stakes@ == pre.stakes@,
        post.reward_rate == pre.reward_rate,
    ensures
        post.spec_periods(account, now) == 0,
        post.spec_reward(account, now) == 0,
{
    let info = pre.stakes@[account];
    let t = crate::staking::spec_effective_time(now, info.active_until) as int;
    let c = pre.spec_cursor(account) as int;
    let d = ACCRUAL_PERIOD as int;
    lemma_fundamental_div_mod(t - c, d);
    lemma_mod_division_less_than_divisor(t - c, d);
    if pre.spec_periods(account, now) > 0 {
        let rest = t - post.spec_cursor(account);
        assert(rest == (t - c) % d);
        lemma_basic_div(rest, d);
    } else {
        lemma_basic_div(t - c, d);
    }
    assert(post.stakes@[account].amount * post.reward_rate * 0 == 0) by (nonlinear_arith);
}

/// A withdrawn position is closed: once every field is reset to zero the
/// account no longer has an open position, so a repeated withdrawal must
/// be answered with `NoStake` — `withdraw` and `emergency_withdraw` return
/// exactly that error whenever `has_position` is false.
pub proof fn lemma_withdrawn_position_is_closed(s: Staking, account: u64)
    requires
        s.stakes@.contains_key(account),
        s.stakes@[account] == StakeInfo::spec_zeroed(),
    ensures
        !s.has_position(account),
{
}

/// No reward without an elapsed whole period: whenever the accrual engine
/// counts zero periods — in particular immediately after a collection has
/// advanced the cursor — the reward it owes is zero as well.
pub proof fn lemma_zero_periods_zero_reward(s: Staking, account: u64, now: u64)
    requires
        s.spec_periods(account, now) == 0,
    ensures
        s.spec_reward(account, now) == 0,
{
    assert(s.stakes@[account].amount * s.reward_rate * 0 == 0) by (nonlinear_arith);
}

} // verus!

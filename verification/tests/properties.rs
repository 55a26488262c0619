//! Scenario checks for the stated ledger properties.

use staking::staking::{Staking, ACCRUAL_PERIOD, LOCK_UNIT};
use staking::Error;

const ALICE: u64 = 1;
const BOB: u64 = 2;
const CAROL: u64 = 3;

#[test]
fn deposits_add_to_total_staked() {
    let mut s = Staking::new(ALICE, 1);
    let before = s.total_staked;
    s.stake(BOB, 0, 6, 700).unwrap();
    assert_eq!(s.total_staked, before + 700);
    s.stake(CAROL, 5, 12, 41).unwrap();
    assert_eq!(s.total_staked, before + 700 + 41);
    s.stake(BOB, 10, 12, 9).unwrap();
    assert_eq!(s.total_staked, before + 700 + 41 + 9);
}

#[test]
fn topup_never_moves_maturity() {
    let mut s = Staking::new(ALICE, 1);
    s.stake(BOB, 100, 6, 500).unwrap();
    let until = s.stakes.get(&BOB).unwrap().active_until;
    assert_eq!(until, 100 + 6 * LOCK_UNIT);
    // A top-up, even with a different period code, keeps the maturity.
    s.stake(BOB, 5_000, 12, 200).unwrap();
    let info = *s.stakes.get(&BOB).unwrap();
    assert_eq!(info.active_until, until);
    assert_eq!(info.period, 12);
    assert_eq!(info.started_at, 5_000);
    // A fresh first deposit computes the maturity from its own clock.
    s.stake(CAROL, 9_000, 12, 10).unwrap();
    assert_eq!(s.stakes.get(&CAROL).unwrap().active_until, 9_000 + 12 * LOCK_UNIT);
}

#[test]
fn extend_only_after_maturity() {
    let mut s = Staking::new(ALICE, 1);
    s.stake(BOB, 0, 6, 500).unwrap();
    // The forced collection at extension time must be covered by the pool.
    s.update_rewards_pool(2_000);
    let until = 6 * LOCK_UNIT;
    // Too early, maturity included, the call is refused untouched.
    assert_eq!(s.extend(BOB, until - 1, 6).map(|_| ()), Err(Error::StillActive));
    assert_eq!(s.extend(BOB, until, 6).map(|_| ()), Err(Error::StillActive));
    // Past maturity it resets the clock and recomputes the maturity.
    let (_, ev) = s.extend(BOB, until + 9, 12).unwrap();
    let info = *s.stakes.get(&BOB).unwrap();
    assert_eq!(info.started_at, until + 9);
    assert_eq!(info.active_until, until + 9 + 12 * LOCK_UNIT);
    assert_eq!(info.amount, 500);
    assert_eq!(ev.sum, 0);
}

#[test]
fn extend_needs_a_position() {
    let mut s = Staking::new(ALICE, 1);
    assert_eq!(s.extend(BOB, 50, 6).map(|_| ()), Err(Error::NotFound));
}

#[test]
fn extend_rejects_unknown_period() {
    let mut s = Staking::new(ALICE, 1);
    s.stake(BOB, 0, 6, 500).unwrap();
    let r = s.extend(BOB, 6 * LOCK_UNIT + 1, 7).map(|_| ());
    assert_eq!(r, Err(Error::InvalidPeriod));
}

#[test]
fn stake_rejects_unknown_period() {
    let mut s = Staking::new(ALICE, 1);
    assert_eq!(s.stake(BOB, 0, 5, 100).map(|_| ()), Err(Error::InvalidPeriod));
    assert!(s.stakes.get(&BOB).is_none());
    assert_eq!(s.total_staked, 0);
}

#[test]
fn withdraw_pays_back_the_principal_once() {
    let mut s = Staking::new(ALICE, 1);
    s.stake(BOB, 0, 6, 1_234).unwrap();
    let (settlement, ev) = s.withdraw(BOB, 10).unwrap();
    assert!(settlement.is_none());
    assert_eq!(ev.sum, 1_234);
    assert!(!ev.is_early);
    let info = *s.stakes.get(&BOB).unwrap();
    assert_eq!((info.amount, info.started_at, info.period, info.active_until), (0, 0, 0, 0));
    // The emptied position cannot be withdrawn again.
    assert_eq!(s.withdraw(BOB, 20).map(|_| ()), Err(Error::NoStake));
    assert_eq!(s.emergency_withdraw(BOB).map(|_| ()), Err(Error::NoStake));
    assert_eq!(s.claim(BOB, 20).map(|_| ()), Err(Error::NoStake));
}

#[test]
fn withdraw_keeps_total_staked() {
    // The pool-wide total grows on deposit but is not decreased on
    // withdrawal: the recorded asymmetry is preserved.
    let mut s = Staking::new(ALICE, 1);
    s.stake(BOB, 0, 6, 900).unwrap();
    s.withdraw(BOB, 5).unwrap();
    assert_eq!(s.total_staked, 900);
}

#[test]
fn emergency_withdraw_forfeits_rewards() {
    let mut s = Staking::new(ALICE, 1);
    s.update_rewards_pool(10_000);
    s.stake(BOB, 0, 6, 10_000).unwrap();
    let ev = s.emergency_withdraw(BOB).unwrap();
    assert_eq!(ev.sum, 10_000);
    // No collection ran: the pool and the cursor are untouched.
    assert_eq!(s.rewards_balance, 10_000);
    assert!(s.last_reward_claims.get(&BOB).is_none());
}

#[test]
fn forced_collection_with_zero_periods_is_a_noop() {
    let mut s = Staking::new(ALICE, 1);
    s.update_rewards_pool(10_000);
    s.stake(BOB, 0, 6, 10_000).unwrap();
    // Half a period in: a top-up succeeds and settles nothing.
    let (settlement, _) = s.stake(BOB, ACCRUAL_PERIOD / 2, 6, 5).unwrap();
    assert!(settlement.is_none());
    assert_eq!(s.rewards_balance, 10_000);
    assert!(s.last_reward_claims.get(&BOB).is_none());
    // The same span is fatal for a direct claim: the guard refuses it.
    assert!(!s.can_claim(BOB, ACCRUAL_PERIOD / 2));
    // A withdrawal in the same span also completes without a settlement.
    let (settlement, ev) = s.withdraw(BOB, ACCRUAL_PERIOD / 2).unwrap();
    assert!(settlement.is_none());
    assert_eq!(ev.sum, 10_005);
}

#[test]
fn forced_collection_settles_elapsed_periods() {
    let mut s = Staking::new(ALICE, 1);
    s.update_rewards_pool(10_000);
    s.stake(BOB, 0, 6, 10_000).unwrap();
    // Two whole periods later a top-up first settles the accrued reward.
    let now = 2 * ACCRUAL_PERIOD;
    let (settlement, _) = s.stake(BOB, now, 6, 5).unwrap();
    let settlement = settlement.unwrap();
    assert_eq!(settlement.event.periods, 2);
    assert_eq!(settlement.event.amount, 10_000 * 5 * 2 * 100 / 36000);
    assert_eq!(s.rewards_balance, 10_000 - settlement.event.amount);
    assert_eq!(*s.last_reward_claims.get(&BOB).unwrap(), 2 * ACCRUAL_PERIOD);
}

#[test]
fn claim_settles_and_resets_the_count() {
    let mut s = Staking::new(ALICE, 2);
    s.update_rewards_pool(10_000);
    s.stake(BOB, 0, 6, 10_000).unwrap();
    let now = 3 * ACCRUAL_PERIOD + 11;
    let settlement = s.claim(BOB, now).unwrap();
    assert_eq!(settlement.event.periods, 3);
    assert_eq!(settlement.event.amount, 416);
    // The payout is scaled by the conversion rate.
    assert_eq!(settlement.payout, 832);
    assert_eq!(s.rewards_balance, 10_000 - 416);
    // Run again with no elapsed time, the engine owes nothing.
    assert_eq!(s.reward_amount(BOB, now).unwrap(), (0, 0));
}

#[test]
fn pool_topup_is_exact_and_insolvent_claims_are_refused() {
    let mut s = Staking::new(ALICE, 1);
    s.update_rewards_pool(57);
    assert_eq!(s.rewards_balance, 57);
    s.update_rewards_pool(3);
    assert_eq!(s.rewards_balance, 60);
    // A claim owing more than the pool holds may not run: the guard
    // refuses and the ledger is left untouched.
    s.stake(BOB, 0, 6, 100_000).unwrap();
    let now = 10 * ACCRUAL_PERIOD;
    assert_eq!(s.available_rewards(BOB, now).unwrap(), 13_888);
    assert!(!s.can_claim(BOB, now));
    assert!(!s.can_collect(BOB, now));
    assert_eq!(s.rewards_balance, 60);
    assert!(s.last_reward_claims.get(&BOB).is_none());
}

#[test]
fn redeposit_measures_from_the_old_cursor() {
    // The cursor survives a withdrawal: a fresh deposit by the same
    // account accrues from the boundary its last settlement reached, not
    // from the new deposit's own clock.
    let mut s = Staking::new(ALICE, 1);
    s.update_rewards_pool(10_000);
    s.stake(BOB, 0, 6, 10_000).unwrap();
    s.claim(BOB, 2 * ACCRUAL_PERIOD).unwrap();
    s.withdraw(BOB, 2 * ACCRUAL_PERIOD + 1).unwrap();
    s.stake(BOB, 5 * ACCRUAL_PERIOD, 6, 10_000).unwrap();
    assert_eq!(*s.last_reward_claims.get(&BOB).unwrap(), 2 * ACCRUAL_PERIOD);
    assert_eq!(s.passed_reward_periods(BOB, 5 * ACCRUAL_PERIOD).unwrap(), 3);
}

#[test]
fn emptied_entry_counts_as_absent() {
    let mut s = Staking::new(ALICE, 1);
    s.stake(BOB, 0, 6, 40).unwrap();
    s.emergency_withdraw(BOB).unwrap();
    // The zeroed record stays in the ledger but every operation treats
    // the position as closed.
    assert!(s.stakes.get(&BOB).is_some());
    assert_eq!(s.extend(BOB, 6 * LOCK_UNIT + 1, 6).map(|_| ()), Err(Error::NotFound));
    assert_eq!(s.get_staking_period(BOB), Err(Error::NotFound));
    assert_eq!(s.available_rewards(BOB, 10).unwrap_err(), Error::NotFound);
}

#[test]
fn guards_accept_a_covered_claim() {
    let mut s = Staking::new(ALICE, 1);
    s.update_rewards_pool(20_000);
    s.stake(BOB, 0, 6, 100_000).unwrap();
    let now = 10 * ACCRUAL_PERIOD;
    assert!(s.can_claim(BOB, now));
    assert!(s.can_collect(BOB, now));
    // With no open position a forced collection is vacuously safe and a
    // direct claim is not.
    assert!(s.can_collect(CAROL, now));
    assert!(!s.can_claim(CAROL, now));
}

//! The reward-accrual engine and the read operations.

use staking::staking::{Staking, ACCRUAL_PERIOD, LOCK_UNIT};
use staking::Error;

const ALICE: u64 = 1;
const BOB: u64 = 2;

fn staked(amount: u128) -> Staking {
    let mut s = Staking::new(ALICE, 1);
    s.stake(BOB, 0, 6, amount).unwrap();
    s
}

#[test]
fn reward_formula_exact() {
    // amount = 10000 over 3 whole periods: floor(10000 * 5 * 3 * 100 / 36000) = 416.
    let s = staked(10_000);
    let now = 3 * ACCRUAL_PERIOD + 7;
    assert_eq!(s.passed_reward_periods(BOB, now).unwrap(), 3);
    assert_eq!(s.available_rewards(BOB, now).unwrap(), 416);
    assert_eq!(s.reward_amount(BOB, now).unwrap(), (3, 416));
}

#[test]
fn reward_truncates() {
    // A small principal truncates to zero reward even after a full period.
    let s = staked(10);
    assert_eq!(s.reward_amount(BOB, ACCRUAL_PERIOD).unwrap(), (1, 0));
}

#[test]
fn accrual_clamps_at_maturity() {
    let s = staked(10_000);
    let maturity = 6 * LOCK_UNIT;
    // Far past maturity the count stops at the maturity boundary.
    let capped = s.passed_reward_periods(BOB, maturity + 50 * ACCRUAL_PERIOD).unwrap();
    assert_eq!(capped as u64, maturity / ACCRUAL_PERIOD);
    assert_eq!(
        s.available_rewards(BOB, maturity + 50 * ACCRUAL_PERIOD).unwrap(),
        s.available_rewards(BOB, maturity).unwrap()
    );
}

#[test]
fn reward_reads_need_a_position() {
    let s = Staking::new(ALICE, 1);
    assert_eq!(s.reward_amount(BOB, 0), Err(Error::NotFound));
    assert_eq!(s.available_rewards(BOB, 0), Err(Error::NotFound));
    assert_eq!(s.passed_reward_periods(BOB, 0), Err(Error::NotFound));
    assert_eq!(s.get_staking_period(BOB), Err(Error::NotFound));
    assert_eq!(s.all_stake_info(BOB, 0), Err(Error::NotFound));
}

#[test]
fn staking_period_in_whole_periods() {
    let s = staked(500);
    // A six-unit lock spans 6 * 30 accrual periods.
    assert_eq!(s.get_staking_period(BOB).unwrap(), 180);
}

#[test]
fn next_reward_date_needs_a_cursor() {
    // Before any settled collection there is no cursor to measure from.
    let s = staked(500);
    assert_eq!(s.next_reward_date(BOB, 100), Err(Error::NotFound));
    assert_eq!(s.all_stake_info(BOB, 100), Err(Error::NotFound));
}

#[test]
fn next_reward_date_before_maturity() {
    let mut s = staked(10_000);
    s.update_rewards_pool(1_000);
    s.claim(BOB, ACCRUAL_PERIOD + 5).unwrap();
    // The next boundary is the start of the next whole period from started_at.
    let now = 2 * ACCRUAL_PERIOD + 17;
    assert_eq!(s.next_reward_date(BOB, now).unwrap(), 3 * ACCRUAL_PERIOD);
}

#[test]
fn next_reward_date_after_maturity() {
    let mut s = staked(10_000);
    s.update_rewards_pool(1_000);
    s.claim(BOB, ACCRUAL_PERIOD).unwrap();
    let maturity = 6 * LOCK_UNIT;
    assert_eq!(s.next_reward_date(BOB, maturity + 3).unwrap(), maturity);
}

#[test]
fn all_stake_info_reports_the_record() {
    let mut s = staked(10_000);
    s.update_rewards_pool(1_000);
    s.claim(BOB, ACCRUAL_PERIOD).unwrap();
    let now = 4 * ACCRUAL_PERIOD + 9;
    let (amount, started_at, period, active_until, rewards, next) =
        s.all_stake_info(BOB, now).unwrap();
    assert_eq!(amount, 10_000);
    assert_eq!(started_at, 0);
    assert_eq!(period, 6);
    assert_eq!(active_until, 6 * LOCK_UNIT);
    // Three further whole periods since the cursor at one period.
    assert_eq!(rewards, 10_000 * 5 * 3 * 100 / 36000);
    assert_eq!(next, 5 * ACCRUAL_PERIOD);
}

#[test]
fn absent_cursor_counts_from_zero() {
    // A position opened late with no cursor accrues from the epoch: the
    // cursor defaults to zero, not to the position's start.
    let mut s = Staking::new(ALICE, 1);
    s.stake(BOB, 10 * ACCRUAL_PERIOD, 6, 100).unwrap();
    assert_eq!(s.passed_reward_periods(BOB, 10 * ACCRUAL_PERIOD + 1).unwrap(), 10);
}

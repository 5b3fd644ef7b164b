use stake_pool::error::StakeError;
use stake_pool::utils::{earned, last_time_reward_applicable, rewards_per_token, PRECISION};

#[test]
fn accumulator_unchanged_without_stake() {
    for (t1, t0, rate, stored) in [(10u64, 0u64, 1000u64, 0u128), (0, 50, u64::MAX, 77), (5, 5, 3, u128::MAX)] {
        assert_eq!(rewards_per_token(0, t1, t0, rate, stored), Ok(stored));
    }
}

#[test]
fn accumulator_unchanged_without_elapsed_time() {
    for (total, t, rate, stored) in [(100u64, 10u64, 1000u64, 5u128), (1, 0, u64::MAX, 0), (7, u64::MAX, 9, u128::MAX)] {
        assert_eq!(rewards_per_token(total, t, t, rate, stored), Ok(stored));
    }
}

#[test]
fn accumulator_grows_with_time() {
    let mut last = 0u128;
    for t in 0u64..20 {
        let v = rewards_per_token(37, t, 0, 1000, 11).unwrap();
        assert!(v >= last);
        last = v;
    }
}

#[test]
fn accumulator_scenario() {
    let expected = 1000u128 * 10 * PRECISION / 100;
    assert_eq!(rewards_per_token(100, 10, 0, 1000, 0), Ok(expected));
}

#[test]
fn accumulator_time_running_backwards_fails() {
    assert_eq!(rewards_per_token(100, 5, 10, 1000, 0), Err(StakeError::AmountOverflow));
}

#[test]
fn accumulator_overflow_fails() {
    assert_eq!(rewards_per_token(1, u64::MAX, 0, u64::MAX, 0), Err(StakeError::AmountOverflow));
    assert_eq!(rewards_per_token(1, 1, 0, 1, u128::MAX), Err(StakeError::AmountOverflow));
}

#[test]
fn earned_scenario() {
    assert_eq!(earned(50, 500, 0, 0), Ok((50u128 * 500 / PRECISION) as u64));
    assert_eq!(earned(50, 3 * PRECISION, 0, 7), Ok(157));
}

#[test]
fn earned_grows_with_accumulator() {
    let mut last = 0u64;
    for k in 0u128..20 {
        let v = earned(1234, 10 + k * PRECISION / 3, 10, 5).unwrap();
        assert!(v >= last);
        last = v;
    }
}

#[test]
fn earned_checkpoint_above_accumulator_fails() {
    assert_eq!(earned(1, 4, 5, 0), Err(StakeError::AmountOverflow));
}

#[test]
fn earned_overflow_fails() {
    assert_eq!(earned(u64::MAX, u128::MAX, 0, 0), Err(StakeError::AmountOverflow));
    assert_eq!(earned(1, PRECISION, 0, u64::MAX), Err(StakeError::AmountOverflow));
}

#[test]
fn last_time_is_the_earlier_of_now_and_end() {
    assert_eq!(last_time_reward_applicable(100, 50), 50);
    assert_eq!(last_time_reward_applicable(100, 150), 100);
    assert_eq!(last_time_reward_applicable(100, 100), 100);
}

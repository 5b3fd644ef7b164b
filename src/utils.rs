use vstd::prelude::*;

use crate::account::AccountView;
use crate::error::StakeError;

verus! {

/// Fixed-point scale of the reward-per-share accumulator.
pub const PRECISION: u128 = 18446744073709551615;

/// Shortest reward program a pool may be created with, in seconds.
pub const MIN_DURATION: u64 = 86400;

/// The accumulator after the time from `last_update` to `last_applicable`,
/// or `None` where a checked step overflows or time runs backwards.
pub open spec fn updated_accumulator(
    total_staked: u64,
    last_applicable: u64,
    last_update: u64,
    rate: u64,
    stored: u128,
) -> Option<u128> {
    if total_staked == 0 {
        Some(stored)
    } else if last_applicable < last_update {
        None
    } else {
        let scaled = rate * (last_applicable - last_update) * PRECISION;
        let next = stored + scaled / (total_staked as int);
        if scaled > u128::MAX || next > u128::MAX {
            None
        } else {
            Some(next as u128)
        }
    }
}

/// The pending reward after folding in what `balance` earned while the
/// accumulator moved from `checkpoint` to `stored`, or `None` on overflow.
pub open spec fn earned_spec(balance: u64, stored: u128, checkpoint: u128, pending: u64) -> Option<u64> {
    if stored < checkpoint {
        None
    } else {
        let product = balance * (stored - checkpoint);
        let share = product / (PRECISION as int);
        if product > u128::MAX || share > u64::MAX || pending + share > u64::MAX {
            None
        } else {
            Some((pending + share) as u64)
        }
    }
}

pub open spec fn min_time(end: u64, now: int) -> u64 {
    if now < end {
        now as u64
    } else {
        end
    }
}

/// The reward-per-share accumulator brought forward to `last_time_reward_applicable`.
pub fn rewards_per_token(
    total_your_staked: u64,
    last_time_reward_applicable: u64,
    total_stake_last_update_time: u64,
    your_reward_rate: u64,
    your_reward_per_token_stored: u128,
) -> (r: Result<u128, StakeError>)
    ensures
        match r {
            Ok(v) => updated_accumulator(
                total_your_staked,
                last_time_reward_applicable,
                total_stake_last_update_time,
                your_reward_rate,
                your_reward_per_token_stored,
            ) == Some(v),
            Err(e) => e == StakeError::AmountOverflow && updated_accumulator(
                total_your_staked,
                last_time_reward_applicable,
                total_stake_last_update_time,
                your_reward_rate,
                your_reward_per_token_stored,
            ) is None,
        },
{
    if total_your_staked == 0 {
        return Ok(your_reward_per_token_stored);
    }
    if last_time_reward_applicable < total_stake_last_update_time {
        return Err(StakeError::AmountOverflow);
    }
    let elapsed: u128 = (last_time_reward_applicable - total_stake_last_update_time) as u128;
    let rate: u128 = your_reward_rate as u128;
    proof {
        assert(rate * elapsed <= u64::MAX * u64::MAX) by (nonlinear_arith)
            requires
                rate <= u64::MAX,
                elapsed <= u64::MAX,
        ;
    }
    let accrued: u128 = rate * elapsed;
    let scaled: u128 = match accrued.checked_mul(PRECISION) {
        Some(v) => v,
        None => return Err(StakeError::AmountOverflow),
    };
    let per_share: u128 = scaled / (total_your_staked as u128);
    match your_reward_per_token_stored.checked_add(per_share) {
        Some(v) => Ok(v),
        None => Err(StakeError::AmountOverflow),
    }
}

/// A participant's pending reward with what its stake earned since its checkpoint.
pub fn earned(
    balance_your_staked: u64,
    reward_per_token_stored: u128,
    reward_per_token_complete: u128,
    reward_per_token_pending: u64,
) -> (r: Result<u64, StakeError>)
    ensures
        match r {
            Ok(v) => earned_spec(
                balance_your_staked,
                reward_per_token_stored,
                reward_per_token_complete,
                reward_per_token_pending,
            ) == Some(v),
            Err(e) => e == StakeError::AmountOverflow && earned_spec(
                balance_your_staked,
                reward_per_token_stored,
                reward_per_token_complete,
                reward_per_token_pending,
            ) is None,
        },
{
    if reward_per_token_stored < reward_per_token_complete {
        return Err(StakeError::AmountOverflow);
    }
    let diff: u128 = reward_per_token_stored - reward_per_token_complete;
    let product: u128 = match (balance_your_staked as u128).checked_mul(diff) {
        Some(v) => v,
        None => return Err(StakeError::AmountOverflow),
    };
    let share: u128 = product / PRECISION;
    if share > u64::MAX as u128 {
        return Err(StakeError::AmountOverflow);
    }
    match reward_per_token_pending.checked_add(share as u64) {
        Some(v) => Ok(v),
        None => Err(StakeError::AmountOverflow),
    }
}

/// The last moment at which rewards accrue: the earlier of now and the
/// reward program's end. A clock before the epoch is not accepted.
pub fn last_time_reward_applicable(reward_duration_end: u64, now_unix_timestamp: i64) -> (r: u64)
    requires
        now_unix_timestamp >= 0,
    ensures
        r == min_time(reward_duration_end, now_unix_timestamp as int),
{
    let now: u64 = now_unix_timestamp as u64;
    if now < reward_duration_end {
        now
    } else {
        reward_duration_end
    }
}

/// Moves all lamports of `account_to_close` to `sol_receiving_account` and
/// empties its data, which lets the host reclaim it.
pub fn close_account(account_to_close: &mut AccountView, sol_receiving_account: &mut AccountView) -> (r: Result<(), StakeError>)
    ensures
        r is Ok <==> old(sol_receiving_account).lamports + old(account_to_close).lamports <= u64::MAX,
        r matches Err(e) ==> e == StakeError::AmountOverflow && *final(account_to_close) == *old(account_to_close)
            && *final(sol_receiving_account) == *old(sol_receiving_account),
        r is Ok ==> {
            &&& final(sol_receiving_account).lamports == old(sol_receiving_account).lamports + old(account_to_close).lamports
            &&& final(account_to_close).lamports == 0
            &&& final(account_to_close).data@.len() == 0
            &&& final(account_to_close).key == old(account_to_close).key
            &&& final(account_to_close).owner == old(account_to_close).owner
            &&& final(account_to_close).is_signer == old(account_to_close).is_signer
            &&& final(sol_receiving_account).key == old(sol_receiving_account).key
            &&& final(sol_receiving_account).owner == old(sol_receiving_account).owner
            &&& final(sol_receiving_account).is_signer == old(sol_receiving_account).is_signer
            &&& final(sol_receiving_account).data == old(sol_receiving_account).data
        },
{
    let total: u64 = match sol_receiving_account.lamports.checked_add(account_to_close.lamports) {
        Some(v) => v,
        None => return Err(StakeError::AmountOverflow),
    };
    sol_receiving_account.lamports = total;
    account_to_close.lamports = 0;
    account_to_close.data = Vec::new();
    Ok(())
}

/// With nothing staked the accumulator is left as it was.
pub proof fn lemma_no_stake_no_change(last_applicable: u64, last_update: u64, rate: u64, stored: u128)
    ensures
        updated_accumulator(0, last_applicable, last_update, rate, stored) == Some(stored),
{
}

/// With no time elapsed the accumulator is left as it was.
pub proof fn lemma_no_elapsed_no_change(total_staked: u64, time: u64, rate: u64, stored: u128)
    ensures
        updated_accumulator(total_staked, time, time, rate, stored) == Some(stored),
{
    if total_staked != 0 {
        assert(rate * (time - time) * PRECISION == 0) by (nonlinear_arith);
    }
}

/// Bringing the accumulator forward to a later time never gives a smaller
/// value, and where the later time succeeds so does any earlier time that is
/// not before the last update.
pub proof fn lemma_accumulator_monotone_in_time(
    total_staked: u64,
    earlier: u64,
    later: u64,
    last_update: u64,
    rate: u64,
    stored: u128,
)
    requires
        earlier <= later,
    ensures
        updated_accumulator(total_staked, later, last_update, rate, stored) is Some
            && earlier >= last_update ==> updated_accumulator(
            total_staked,
            earlier,
            last_update,
            rate,
            stored,
        ) is Some,
        updated_accumulator(total_staked, earlier, last_update, rate, stored) is Some
            && updated_accumulator(total_staked, later, last_update, rate, stored) is Some
            ==> updated_accumulator(total_staked, earlier, last_update, rate, stored).unwrap()
            <= updated_accumulator(total_staked, later, last_update, rate, stored).unwrap(),
{
    if total_staked != 0 && earlier >= last_update {
        let s1 = rate * (earlier - last_update) * PRECISION;
        let s2 = rate * (later - last_update) * PRECISION;
        assert(0 <= s1 <= s2) by (nonlinear_arith)
            requires
                s1 == rate * (earlier - last_update) * PRECISION,
                s2 == rate * (later - last_update) * PRECISION,
                last_update <= earlier <= later,
                rate >= 0,
        ;
        vstd::arithmetic::div_mod::lemma_div_is_ordered(s1, s2, total_staked as int);
    }
}

/// A larger accumulator never earns a participant less.
pub proof fn lemma_earned_monotone_in_accumulator(
    balance: u64,
    lower: u128,
    higher: u128,
    checkpoint: u128,
    pending: u64,
)
    requires
        lower <= higher,
    ensures
        earned_spec(balance, lower, checkpoint, pending) is Some && earned_spec(
            balance,
            higher,
            checkpoint,
            pending,
        ) is Some ==> earned_spec(balance, lower, checkpoint, pending).unwrap() <= earned_spec(
            balance,
            higher,
            checkpoint,
            pending,
        ).unwrap(),
{
    if checkpoint <= lower {
        let p1 = balance * (lower - checkpoint);
        let p2 = balance * (higher - checkpoint);
        assert(0 <= p1 <= p2) by (nonlinear_arith)
            requires
                p1 == balance * (lower - checkpoint),
                p2 == balance * (higher - checkpoint),
                checkpoint <= lower <= higher,
                balance >= 0,
        ;
        vstd::arithmetic::div_mod::lemma_div_is_ordered(p1, p2, PRECISION as int);
    }
}

} // verus!

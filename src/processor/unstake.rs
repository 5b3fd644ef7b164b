use vstd::prelude::*;

use crate::account::{
    keys_equal, load_pool, load_user, pool_record_error, pool_record_ok, user_record_error,
    user_record_ok, AccountView,
};
use crate::chain::{token_program_id, token_program_key};
use crate::error::StakeError;
use crate::processor::{check_user_address, user_address_matches};
use crate::state::user_decode;

verus! {

/// Seconds between an unstake request and the moment its amount may leave.
pub const UNSTAKE_DELAY: i64 = 2;

/// The accounts that an unstake request reads.
#[derive(Clone, Debug)]
pub struct UnstakeAccounts {
    pub user_wallet: AccountView,
    pub user_storage: AccountView,
    pub pool_storage: AccountView,
    pub staking_vault: AccountView,
    pub user_token_account: AccountView,
    pub pool_signer: AccountView,
    pub token_program: AccountView,
}

/// A withdrawal that was asked for and may be carried out from `release_time` on.
#[derive(Clone, Copy, Debug, PartialEq, Eq, Structural)]
pub struct PendingWithdrawal {
    pub amount: u64,
    pub release_time: i64,
}

/// The first check that an unstake request fails, if any.
pub open spec fn unstake_error(a: UnstakeAccounts, amount: u64, program_id: Seq<u8>, now: int) -> Option<StakeError> {
    let user = user_decode(a.user_storage.data@);
    if !a.user_wallet.is_signer {
        Some(StakeError::MissingAuthority)
    } else if a.token_program.key@ != token_program_key() {
        Some(StakeError::InvalidServiceReference)
    } else if amount == 0 {
        Some(StakeError::ZeroAmount)
    } else if !user_address_matches(a.user_wallet.key@, a.pool_storage.key@, a.user_storage.key@, program_id) {
        Some(StakeError::AddressDerivationMismatch)
    } else if !pool_record_ok(a.pool_storage.data@) {
        Some(pool_record_error(a.pool_storage.data@))
    } else if !user_record_ok(a.user_storage.data@) {
        Some(user_record_error(a.user_storage.data@))
    } else if user.user_wallet != a.user_wallet.key@ || user.your_pool != a.pool_storage.key@ {
        Some(StakeError::OwnerMismatch)
    } else if user.balance_your_staked < amount {
        Some(StakeError::InsufficientBalance)
    } else if now + UNSTAKE_DELAY > i64::MAX {
        Some(StakeError::AmountOverflow)
    } else {
        None
    }
}

/// What an unstake request returns.
pub open spec fn unstake_outcome(accounts: UnstakeAccounts, amount_to_withdraw: u64, program_id: Seq<u8>, now: int, r: Result<PendingWithdrawal, StakeError>) -> bool {
    &&& (r is Err <==> unstake_error(accounts, amount_to_withdraw, program_id, now) is Some)
    &&& (r matches Err(e) ==> Some(e) == unstake_error(accounts, amount_to_withdraw, program_id, now))
    &&& (r matches Ok(p) ==> p.amount == amount_to_withdraw && p.release_time == now + UNSTAKE_DELAY)
}

/// Records a request to withdraw `amount_to_withdraw` of the participant's
/// stake, to be released `UNSTAKE_DELAY` seconds from `now`. The request is
/// returned to the caller; neither record changes, and the reward
/// accumulator is not brought forward here.
pub fn process_unstake(accounts: &UnstakeAccounts, amount_to_withdraw: u64, program_id: &[u8; 32], now: i64) -> (r: Result<
    PendingWithdrawal,
    StakeError,
>)
    ensures
        unstake_outcome(*accounts, amount_to_withdraw, program_id@, now as int, r),
{
    if !accounts.user_wallet.is_signer {
        return Err(StakeError::MissingAuthority);
    }
    let token_id = token_program_id();
    if !keys_equal(&accounts.token_program.key, &token_id) {
        return Err(StakeError::InvalidServiceReference);
    }
    if amount_to_withdraw == 0 {
        return Err(StakeError::ZeroAmount);
    }
    check_user_address(&accounts.user_wallet.key, &accounts.pool_storage.key, &accounts.user_storage.key, program_id)?;
    let _pool = load_pool(accounts.pool_storage.data.as_slice())?;
    let user = load_user(accounts.user_storage.data.as_slice())?;
    if !keys_equal(&user.user_wallet, &accounts.user_wallet.key) || !keys_equal(&user.your_pool, &accounts.pool_storage.key) {
        return Err(StakeError::OwnerMismatch);
    }
    if user.balance_your_staked < amount_to_withdraw {
        return Err(StakeError::InsufficientBalance);
    }
    let release_time: i64 = match now.checked_add(UNSTAKE_DELAY) {
        Some(t) => t,
        None => return Err(StakeError::AmountOverflow),
    };
    Ok(PendingWithdrawal { amount: amount_to_withdraw, release_time })
}

} // verus!

use vstd::prelude::*;

use crate::account::{
    keys_equal, load_pool, load_user, pool_record_error, pool_record_ok,
    user_record_error, user_record_ok, AccountView,
};
use crate::error::StakeError;
use crate::utils::close_account;
use crate::processor::{check_user_address, user_address_matches};
use crate::state::{pool_decode, pool_encode, user_decode, PoolModel};

verus! {

/// The accounts that closing a participant reads and writes.
#[derive(Clone, Debug)]
pub struct CloseUserAccounts {
    pub user_wallet: AccountView,
    pub user_storage: AccountView,
    pub pool_storage: AccountView,
}

/// The first check that closing the participant fails, if any.
pub open spec fn close_user_error(a: CloseUserAccounts, program_id: Seq<u8>) -> Option<StakeError> {
    let pool = pool_decode(a.pool_storage.data@);
    let user = user_decode(a.user_storage.data@);
    if !a.user_wallet.is_signer {
        Some(StakeError::MissingAuthority)
    } else if !user_address_matches(a.user_wallet.key@, a.pool_storage.key@, a.user_storage.key@, program_id) {
        Some(StakeError::AddressDerivationMismatch)
    } else if !pool_record_ok(a.pool_storage.data@) {
        Some(pool_record_error(a.pool_storage.data@))
    } else if pool.user_stake_count == 0 {
        Some(StakeError::AmountOverflow)
    } else if !user_record_ok(a.user_storage.data@) {
        Some(user_record_error(a.user_storage.data@))
    } else if user.user_wallet != a.user_wallet.key@ || user.your_pool != a.pool_storage.key@ {
        Some(StakeError::OwnerMismatch)
    } else if user.balance_your_staked != 0 || user.your_reward_per_token_pending != 0 {
        Some(StakeError::NonZeroBalanceOnClose)
    } else if a.user_wallet.lamports + a.user_storage.lamports > u64::MAX {
        Some(StakeError::AmountOverflow)
    } else {
        None
    }
}

/// The pool with one participant fewer.
pub open spec fn one_slot_fewer(m: PoolModel) -> PoolModel {
    PoolModel { user_stake_count: (m.user_stake_count - 1) as u32, ..m }
}

/// What closing a participant does, from the accounts before to the accounts after.
pub open spec fn close_user_outcome(before: CloseUserAccounts, after: CloseUserAccounts, program_id: Seq<u8>, r: Result<(), StakeError>) -> bool {
    &&& (r is Err <==> close_user_error(before, program_id) is Some)
    &&& (r matches Err(e) ==> Some(e) == close_user_error(before, program_id) && after
        == before)
    &&& (r is Ok ==> {
        &&& after.pool_storage.data@ == pool_encode(
            one_slot_fewer(pool_decode(before.pool_storage.data@)),
        )
        &&& after.user_storage.data@.len() == 0
        &&& after == (CloseUserAccounts {
            user_wallet: (AccountView {
                lamports: (before.user_wallet.lamports + before.user_storage.lamports) as u64,
                ..before.user_wallet
            }),
            user_storage: (AccountView {
                lamports: 0,
                data: after.user_storage.data,
                ..before.user_storage
            }),
            pool_storage: (AccountView { data: after.pool_storage.data, ..before.pool_storage }),
        })
    })
}

/// Closes an empty participant slot: checks the signer, the derived
/// address and both records, requires no stake and no pending reward,
/// takes one from the pool's participant count and returns the record's
/// lamports to the wallet. On failure nothing is changed.
pub fn process_close_user(accounts: &mut CloseUserAccounts, program_id: &[u8; 32]) -> (r: Result<(), StakeError>)
    ensures
        close_user_outcome(*old(accounts), *final(accounts), program_id@, r),
{
    if !accounts.user_wallet.is_signer {
        return Err(StakeError::MissingAuthority);
    }
    check_user_address(&accounts.user_wallet.key, &accounts.pool_storage.key, &accounts.user_storage.key, program_id)?;
    let mut pool = load_pool(accounts.pool_storage.data.as_slice())?;
    if pool.user_stake_count == 0 {
        return Err(StakeError::AmountOverflow);
    }
    let user = load_user(accounts.user_storage.data.as_slice())?;
    if !keys_equal(&user.user_wallet, &accounts.user_wallet.key) || !keys_equal(&user.your_pool, &accounts.pool_storage.key) {
        return Err(StakeError::OwnerMismatch);
    }
    if user.balance_your_staked != 0 || user.your_reward_per_token_pending != 0 {
        return Err(StakeError::NonZeroBalanceOnClose);
    }
    if accounts.user_wallet.lamports.checked_add(accounts.user_storage.lamports).is_none() {
        return Err(StakeError::AmountOverflow);
    }
    pool.user_stake_count = pool.user_stake_count - 1;
    assert(pool@ == one_slot_fewer(pool_decode(accounts.pool_storage.data@)));
    close_account(&mut accounts.user_storage, &mut accounts.user_wallet)?;
    accounts.pool_storage.data = pool.pack();
    Ok(())
}

} // verus!

use vstd::prelude::*;

use crate::account::{keys_equal, AccountView};
use crate::chain::{token_program_id, token_program_key};
use crate::error::StakeError;
use crate::processor::{check_vault, find_pool_signer, pool_signer_of, vault_bound, zero_key, empty_key};
use crate::state::{pool_encode, AccTypesWithVersion, PoolModel, YourPool, YOUR_POOL_STORAGE_TOTAL_BYTES};
use crate::utils::MIN_DURATION;

verus! {

/// The accounts that creating a pool reads and writes.
#[derive(Clone, Debug)]
pub struct InitializePoolAccounts {
    pub pool_owner_wallet: AccountView,
    pub pool_storage: AccountView,
    pub staking_vault: AccountView,
    pub staking_mint: AccountView,
    pub rewards_vault: AccountView,
    pub rewards_mint: AccountView,
    pub token_program: AccountView,
}

/// The first check that creating a pool fails, if any.
pub open spec fn initialize_pool_error(a: InitializePoolAccounts, reward_duration: u64, program_id: Seq<u8>, now: int) -> Option<StakeError> {
    let signer = pool_signer_of(a.pool_storage.key@, program_id);
    if !a.pool_owner_wallet.is_signer {
        Some(StakeError::MissingAuthority)
    } else if a.token_program.key@ != token_program_key() {
        Some(StakeError::InvalidServiceReference)
    } else if reward_duration < MIN_DURATION {
        Some(StakeError::InvalidDuration)
    } else if a.pool_storage.data@.len() != YOUR_POOL_STORAGE_TOTAL_BYTES {
        Some(StakeError::SchemaSizeMismatch)
    } else if a.pool_storage.data@[0] != 0 {
        Some(StakeError::RecordKindMismatch)
    } else if signer is None {
        Some(StakeError::AddressDerivationMismatch)
    } else if !vault_bound(a.staking_vault, signer.unwrap().0, a.staking_vault.key@) || !vault_bound(
        a.rewards_vault,
        signer.unwrap().0,
        a.rewards_vault.key@,
    ) {
        Some(StakeError::VaultMismatch)
    } else if now < 0 || now + reward_duration > u64::MAX {
        Some(StakeError::AmountOverflow)
    } else {
        None
    }
}

/// A new pool: its owner and vaults, the duration and discriminator given,
/// no rate yet, a zero accumulator and no participants, with rewards
/// running until `now + duration`.
pub open spec fn new_pool(a: InitializePoolAccounts, reward_duration: u64, pool_nonce: u8, now: int) -> PoolModel {
    PoolModel {
        acc_type: AccTypesWithVersion::YourPoolDataV1.spec_tag(),
        owner_wallet: a.pool_owner_wallet.key@,
        your_staking_vault: a.staking_vault.key@,
        your_staking_mint: a.staking_mint.key@,
        your_reward_vault: a.rewards_vault.key@,
        your_reward_mint: a.rewards_mint.key@,
        your_reward_rate: 0,
        your_reward_duration: reward_duration,
        total_stake_last_update_time: 0,
        your_reward_per_token_stored: 0,
        user_stake_count: 0,
        pda_nonce: pool_nonce,
        funders: Seq::new(5, |i: int| zero_key()),
        reward_duration_end: (now + reward_duration) as u64,
    }
}

/// What creating a pool does, from the accounts before to the accounts after.
pub open spec fn initialize_pool_outcome(before: InitializePoolAccounts, after: InitializePoolAccounts, reward_duration: u64, pool_nonce: u8, program_id: Seq<u8>, now: int, r: Result<(), StakeError>) -> bool {
    &&& (r is Err <==> initialize_pool_error(before, reward_duration, program_id, now) is Some)
    &&& (r matches Err(e) ==> Some(e) == initialize_pool_error(before, reward_duration, program_id, now)
        && after == before)
    &&& (r is Ok ==> {
        &&& after.pool_storage.data@ == pool_encode(new_pool(before, reward_duration, pool_nonce, now))
        &&& after == (InitializePoolAccounts {
            pool_storage: (AccountView { data: after.pool_storage.data, ..before.pool_storage }),
            ..before
        })
    })
}

/// Creates a pool in an empty record of the pool layout's length, after
/// checking the duration and that both vaults are token accounts held by
/// the pool's derived custodian. On failure nothing is changed.
pub fn process_initialize_pool(
    accounts: &mut InitializePoolAccounts,
    reward_duration: u64,
    pool_nonce: u8,
    program_id: &[u8; 32],
    now: i64,
) -> (r: Result<(), StakeError>)
    ensures
        initialize_pool_outcome(*old(accounts), *final(accounts), reward_duration, pool_nonce, program_id@, now as int, r),
{
    if !accounts.pool_owner_wallet.is_signer {
        return Err(StakeError::MissingAuthority);
    }
    let token_id = token_program_id();
    if !keys_equal(&accounts.token_program.key, &token_id) {
        return Err(StakeError::InvalidServiceReference);
    }
    if reward_duration < MIN_DURATION {
        return Err(StakeError::InvalidDuration);
    }
    if accounts.pool_storage.data.len() != YOUR_POOL_STORAGE_TOTAL_BYTES {
        return Err(StakeError::SchemaSizeMismatch);
    }
    if accounts.pool_storage.data[0] != 0 {
        return Err(StakeError::RecordKindMismatch);
    }
    let (custodian, _bump) = find_pool_signer(&accounts.pool_storage.key, program_id)?;
    let _staked = check_vault(&accounts.staking_vault, &custodian, &accounts.staking_vault.key)?;
    let _rewards = check_vault(&accounts.rewards_vault, &custodian, &accounts.rewards_vault.key)?;
    if now < 0 || reward_duration > u64::MAX - (now as u64) {
        return Err(StakeError::AmountOverflow);
    }
    let blank = empty_key();
    let pool = YourPool {
        acc_type: AccTypesWithVersion::YourPoolDataV1.tag(),
        owner_wallet: accounts.pool_owner_wallet.key,
        your_staking_vault: accounts.staking_vault.key,
        your_staking_mint: accounts.staking_mint.key,
        your_reward_vault: accounts.rewards_vault.key,
        your_reward_mint: accounts.rewards_mint.key,
        your_reward_rate: 0,
        your_reward_duration: reward_duration,
        total_stake_last_update_time: 0,
        your_reward_per_token_stored: 0,
        user_stake_count: 0,
        pda_nonce: pool_nonce,
        funders: [blank, blank, blank, blank, blank],
        reward_duration_end: (now as u64) + reward_duration,
    };
    assert(pool@.funders =~= Seq::new(5, |i: int| zero_key()));
    accounts.pool_storage.data = pool.pack();
    Ok(())
}

} // verus!

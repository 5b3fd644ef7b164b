use vstd::prelude::*;

use crate::account::{load_pool, pool_record_error, pool_record_ok, AccountView};
use crate::chain::{find_program_address, program_address};
use crate::error::StakeError;
use crate::account::keys_equal;
use crate::processor::key_seeds;
use crate::state::{
    pool_decode, pool_encode, user_encode, AccTypesWithVersion, PoolModel, User, UserModel,
    USER_STORAGE_TOTAL_BYTES,
};

verus! {

/// The accounts that opening a participant slot reads and writes.
#[derive(Clone, Debug)]
pub struct CreateUserAccounts {
    pub user_wallet: AccountView,
    pub user_storage: AccountView,
    pub pool_storage: AccountView,
}

/// The participant address of a wallet in a pool, with its bump byte.
pub open spec fn user_address_of(wallet: Seq<u8>, pool: Seq<u8>, program_id: Seq<u8>) -> Option<(Seq<u8>, u8)> {
    program_address(seq![wallet, pool], program_id)
}

/// The first check that opening a participant slot fails, if any.
pub open spec fn create_user_error(a: CreateUserAccounts, program_id: Seq<u8>) -> Option<StakeError> {
    let pool = pool_decode(a.pool_storage.data@);
    let derived = user_address_of(a.user_wallet.key@, a.pool_storage.key@, program_id);
    if !a.user_wallet.is_signer {
        Some(StakeError::MissingAuthority)
    } else if !pool_record_ok(a.pool_storage.data@) {
        Some(pool_record_error(a.pool_storage.data@))
    } else if derived is None || derived.unwrap().0 != a.user_storage.key@ {
        Some(StakeError::AddressDerivationMismatch)
    } else if a.user_storage.data@.len() != USER_STORAGE_TOTAL_BYTES {
        Some(StakeError::SchemaSizeMismatch)
    } else if a.user_storage.data@[0] != 0 {
        Some(StakeError::RecordKindMismatch)
    } else if pool.user_stake_count == u32::MAX {
        Some(StakeError::AmountOverflow)
    } else {
        None
    }
}

/// A fresh participant of `pool` with nothing staked, settled at the pool's
/// current accumulator.
pub open spec fn new_user(wallet: Seq<u8>, pool_key: Seq<u8>, nonce: u8, pool: PoolModel) -> UserModel {
    UserModel {
        acc_type: AccTypesWithVersion::UserDataV1.spec_tag(),
        user_wallet: wallet,
        your_pool: pool_key,
        balance_your_staked: 0,
        nonce,
        your_reward_per_token_pending: 0,
        your_reward_per_token_completed: pool.your_reward_per_token_stored,
    }
}

/// The pool with one participant more.
pub open spec fn one_slot_more(m: PoolModel) -> PoolModel {
    PoolModel { user_stake_count: (m.user_stake_count + 1) as u32, ..m }
}

/// What opening a participant slot does, from the accounts before to the accounts after.
pub open spec fn create_user_outcome(before: CreateUserAccounts, after: CreateUserAccounts, program_id: Seq<u8>, r: Result<(), StakeError>) -> bool {
    &&& (r is Err <==> create_user_error(before, program_id) is Some)
    &&& (r matches Err(e) ==> Some(e) == create_user_error(before, program_id) && after
        == before)
    &&& (r is Ok ==> {
        let pool = pool_decode(before.pool_storage.data@);
        let derived = user_address_of(before.user_wallet.key@, before.pool_storage.key@, program_id).unwrap();
        &&& after.pool_storage.data@ == pool_encode(one_slot_more(pool))
        &&& after.user_storage.data@ == user_encode(
            new_user(before.user_wallet.key@, before.pool_storage.key@, derived.1, pool),
        )
        &&& after == (CreateUserAccounts {
            pool_storage: (AccountView { data: after.pool_storage.data, ..before.pool_storage }),
            user_storage: (AccountView { data: after.user_storage.data, ..before.user_storage }),
            ..before
        })
    })
}

/// Opens a participant slot for the signing wallet at the address derived
/// from the wallet and the pool, storing the bump byte that the search
/// found, and counts it in the pool. On failure nothing is changed.
pub fn process_create_user(accounts: &mut CreateUserAccounts, program_id: &[u8; 32]) -> (r: Result<(), StakeError>)
    ensures
        create_user_outcome(*old(accounts), *final(accounts), program_id@, r),
{
    if !accounts.user_wallet.is_signer {
        return Err(StakeError::MissingAuthority);
    }
    let mut pool = load_pool(accounts.pool_storage.data.as_slice())?;
    let seed_keys: [[u8; 32]; 2] = [accounts.user_wallet.key, accounts.pool_storage.key];
    let seeds = key_seeds(&seed_keys);
    assert(seed_keys@.map_values(|k: [u8; 32]| k@) =~= seq![accounts.user_wallet.key@, accounts.pool_storage.key@]);
    let (address, nonce) = match find_program_address(&seeds, program_id) {
        Some(v) => v,
        None => return Err(StakeError::AddressDerivationMismatch),
    };
    if !keys_equal(&address, &accounts.user_storage.key) {
        return Err(StakeError::AddressDerivationMismatch);
    }
    if accounts.user_storage.data.len() != USER_STORAGE_TOTAL_BYTES {
        return Err(StakeError::SchemaSizeMismatch);
    }
    if accounts.user_storage.data[0] != 0 {
        return Err(StakeError::RecordKindMismatch);
    }
    if pool.user_stake_count == u32::MAX {
        return Err(StakeError::AmountOverflow);
    }
    let user = User {
        acc_type: AccTypesWithVersion::UserDataV1.tag(),
        user_wallet: accounts.user_wallet.key,
        your_pool: accounts.pool_storage.key,
        balance_your_staked: 0,
        nonce,
        your_reward_per_token_pending: 0,
        your_reward_per_token_completed: pool.your_reward_per_token_stored,
    };
    pool.user_stake_count = pool.user_stake_count + 1;
    assert(pool@ == one_slot_more(pool_decode(accounts.pool_storage.data@)));
    accounts.pool_storage.data = pool.pack();
    accounts.user_storage.data = user.pack();
    Ok(())
}

} // verus!

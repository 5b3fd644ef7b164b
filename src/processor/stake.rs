use vstd::prelude::*;

use crate::account::{
    keys_equal, load_pool, load_user, pool_record_error, pool_record_ok, user_record_error,
    user_record_ok, AccountView,
};
use crate::chain::{token_program_id, token_program_key};
use crate::codec::le_value;
use crate::error::StakeError;
use crate::processor::{
    check_user_address, check_vault, find_pool_signer, pool_signer_of, sync_rewards, synced,
    user_address_matches, vault_bound, TokenAction, TokenActionModel,
};
use crate::state::{pool_decode, pool_encode, user_decode, user_encode, UserModel};

verus! {

/// The accounts that a deposit reads and writes.
#[derive(Clone, Debug)]
pub struct StakeAccounts {
    pub user_wallet: AccountView,
    pub user_storage: AccountView,
    pub pool_storage: AccountView,
    pub staking_vault: AccountView,
    pub user_token_account: AccountView,
    pub token_program: AccountView,
}

/// The stake in the pool's staking vault.
pub open spec fn vault_amount(vault: AccountView) -> u64 {
    le_value(vault.data@.subrange(64, 72)) as u64
}

/// The first check that a deposit fails, if any.
pub open spec fn stake_error(a: StakeAccounts, amount: u64, program_id: Seq<u8>, now: int) -> Option<StakeError> {
    let pool = pool_decode(a.pool_storage.data@);
    let user = user_decode(a.user_storage.data@);
    let signer = pool_signer_of(a.pool_storage.key@, program_id);
    let after = synced(pool, user, vault_amount(a.staking_vault), now);
    if !a.user_wallet.is_signer {
        Some(StakeError::MissingAuthority)
    } else if a.token_program.key@ != token_program_key() {
        Some(StakeError::InvalidServiceReference)
    } else if amount == 0 {
        Some(StakeError::ZeroAmount)
    } else if !user_address_matches(a.user_wallet.key@, a.pool_storage.key@, a.user_storage.key@, program_id) {
        Some(StakeError::AddressDerivationMismatch)
    } else if !pool_record_ok(a.pool_storage.data@) {
        Some(pool_record_error(a.pool_storage.data@))
    } else if !user_record_ok(a.user_storage.data@) {
        Some(user_record_error(a.user_storage.data@))
    } else if user.user_wallet != a.user_wallet.key@ || user.your_pool != a.pool_storage.key@ {
        Some(StakeError::OwnerMismatch)
    } else if signer is None {
        Some(StakeError::AddressDerivationMismatch)
    } else if !vault_bound(a.staking_vault, signer.unwrap().0, pool.your_staking_vault) {
        Some(StakeError::VaultMismatch)
    } else if now < 0 || after is None || after.unwrap().1.balance_your_staked + amount > u64::MAX {
        Some(StakeError::AmountOverflow)
    } else {
        None
    }
}

/// The participant with `amount` more at stake.
pub open spec fn with_deposit(m: UserModel, amount: u64) -> UserModel {
    UserModel { balance_your_staked: (m.balance_your_staked + amount) as u64, ..m }
}

/// What a deposit does, from the accounts before to the accounts after.
pub open spec fn stake_outcome(before: StakeAccounts, after: StakeAccounts, amount_to_deposit: u64, program_id: Seq<u8>, now: int, r: Result<TokenAction, StakeError>) -> bool {
    &&& (r is Err <==> stake_error(before, amount_to_deposit, program_id, now) is Some)
    &&& (r matches Err(e) ==> Some(e) == stake_error(before, amount_to_deposit, program_id, now)
        && after == before)
    &&& (r matches Ok(action) ==> {
        let settled = synced(
            pool_decode(before.pool_storage.data@),
            user_decode(before.user_storage.data@),
            vault_amount(before.staking_vault),
            now,
        ).unwrap();
        &&& after.pool_storage.data@ == pool_encode(settled.0)
        &&& after.user_storage.data@ == user_encode(with_deposit(settled.1, amount_to_deposit))
        &&& after == (StakeAccounts {
            pool_storage: (AccountView { data: after.pool_storage.data, ..before.pool_storage }),
            user_storage: (AccountView { data: after.user_storage.data, ..before.user_storage }),
            ..before
        })
        &&& action@ == (TokenActionModel::Transfer {
            source: before.user_token_account.key@,
            destination: before.staking_vault.key@,
            authority: before.user_wallet.key@,
            amount: amount_to_deposit,
        })
    })
}

/// Deposits `amount_to_deposit`: settles the participant's rewards at the
/// current accumulator first, then raises its stake, stores both records
/// and returns the transfer, signed by the wallet, from its token account
/// into the staking vault. On failure nothing is changed.
pub fn process_stake(accounts: &mut StakeAccounts, amount_to_deposit: u64, program_id: &[u8; 32], now: i64) -> (r: Result<
    TokenAction,
    StakeError,
>)
    ensures
        stake_outcome(*old(accounts), *final(accounts), amount_to_deposit, program_id@, now as int, r),
{
    if !accounts.user_wallet.is_signer {
        return Err(StakeError::MissingAuthority);
    }
    let token_id = token_program_id();
    if !keys_equal(&accounts.token_program.key, &token_id) {
        return Err(StakeError::InvalidServiceReference);
    }
    if amount_to_deposit == 0 {
        return Err(StakeError::ZeroAmount);
    }
    check_user_address(&accounts.user_wallet.key, &accounts.pool_storage.key, &accounts.user_storage.key, program_id)?;
    let mut pool = load_pool(accounts.pool_storage.data.as_slice())?;
    let mut user = load_user(accounts.user_storage.data.as_slice())?;
    if !keys_equal(&user.user_wallet, &accounts.user_wallet.key) || !keys_equal(&user.your_pool, &accounts.pool_storage.key) {
        return Err(StakeError::OwnerMismatch);
    }
    let (custodian, _bump) = find_pool_signer(&accounts.pool_storage.key, program_id)?;
    let total_staked = check_vault(&accounts.staking_vault, &custodian, &pool.your_staking_vault)?;
    if now < 0 {
        return Err(StakeError::AmountOverflow);
    }
    sync_rewards(&mut pool, &mut user, total_staked, now)?;
    user.balance_your_staked = match user.balance_your_staked.checked_add(amount_to_deposit) {
        Some(v) => v,
        None => return Err(StakeError::AmountOverflow),
    };
    accounts.pool_storage.data = pool.pack();
    accounts.user_storage.data = user.pack();
    Ok(TokenAction::Transfer {
        source: accounts.user_token_account.key,
        destination: accounts.staking_vault.key,
        authority: accounts.user_wallet.key,
        amount: amount_to_deposit,
    })
}

} // verus!

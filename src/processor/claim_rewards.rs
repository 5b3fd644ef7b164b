use vstd::prelude::*;

use crate::account::{
    keys_equal, load_pool, load_user, pool_record_error, pool_record_ok, user_record_error,
    user_record_ok, AccountView,
};
use crate::chain::{token_program_id, token_program_key};
use crate::error::StakeError;
use crate::processor::{
    actions_model, check_user_address, check_vault, find_pool_signer, pool_signer_of, sync_rewards,
    synced, user_address_matches, vault_bound, SignedTokenActions, TokenAction, TokenActionModel,
};
use crate::processor::stake::vault_amount;
use crate::state::{pool_decode, pool_encode, user_decode, user_encode, UserModel};

verus! {

/// The accounts that a reward claim reads and writes.
#[derive(Clone, Debug)]
pub struct ClaimRewardsAccounts {
    pub user_wallet: AccountView,
    pub user_storage: AccountView,
    pub pool_storage: AccountView,
    pub staking_vault: AccountView,
    pub rewards_vault: AccountView,
    pub user_token_account: AccountView,
    pub token_program: AccountView,
}

/// The first check that a reward claim fails, if any.
pub open spec fn claim_error(a: ClaimRewardsAccounts, program_id: Seq<u8>, now: int) -> Option<StakeError> {
    let pool = pool_decode(a.pool_storage.data@);
    let user = user_decode(a.user_storage.data@);
    let signer = pool_signer_of(a.pool_storage.key@, program_id);
    if !a.user_wallet.is_signer {
        Some(StakeError::MissingAuthority)
    } else if a.token_program.key@ != token_program_key() {
        Some(StakeError::InvalidServiceReference)
    } else if !user_address_matches(a.user_wallet.key@, a.pool_storage.key@, a.user_storage.key@, program_id) {
        Some(StakeError::AddressDerivationMismatch)
    } else if !pool_record_ok(a.pool_storage.data@) {
        Some(pool_record_error(a.pool_storage.data@))
    } else if !user_record_ok(a.user_storage.data@) {
        Some(user_record_error(a.user_storage.data@))
    } else if user.user_wallet != a.user_wallet.key@ || user.your_pool != a.pool_storage.key@ {
        Some(StakeError::OwnerMismatch)
    } else if signer is None {
        Some(StakeError::AddressDerivationMismatch)
    } else if !vault_bound(a.staking_vault, signer.unwrap().0, pool.your_staking_vault) || !vault_bound(
        a.rewards_vault,
        signer.unwrap().0,
        pool.your_reward_vault,
    ) {
        Some(StakeError::VaultMismatch)
    } else if now < 0 || synced(pool, user, vault_amount(a.staking_vault), now) is None {
        Some(StakeError::AmountOverflow)
    } else {
        None
    }
}

/// The participant with its pending reward paid out.
pub open spec fn paid_out(m: UserModel) -> UserModel {
    UserModel { your_reward_per_token_pending: 0, ..m }
}

/// What a reward claim does, from the accounts before to the accounts after.
pub open spec fn claim_outcome(before: ClaimRewardsAccounts, after: ClaimRewardsAccounts, program_id: Seq<u8>, now: int, r: Result<SignedTokenActions, StakeError>) -> bool {
    &&& (r is Err <==> claim_error(before, program_id, now) is Some)
    &&& (r matches Err(e) ==> Some(e) == claim_error(before, program_id, now) && after
        == before)
    &&& (r matches Ok(plan) ==> {
        let settled = synced(
            pool_decode(before.pool_storage.data@),
            user_decode(before.user_storage.data@),
            vault_amount(before.staking_vault),
            now,
        ).unwrap();
        let signer = pool_signer_of(before.pool_storage.key@, program_id).unwrap();
        &&& after.pool_storage.data@ == pool_encode(settled.0)
        &&& after.user_storage.data@ == user_encode(paid_out(settled.1))
        &&& after == (ClaimRewardsAccounts {
            pool_storage: (AccountView { data: after.pool_storage.data, ..before.pool_storage }),
            user_storage: (AccountView { data: after.user_storage.data, ..before.user_storage }),
            ..before
        })
        &&& plan.signer_seed@ == before.pool_storage.key@
        &&& plan.bump == signer.1
        &&& actions_model(plan.actions@) == seq![
            TokenActionModel::Transfer {
                source: before.rewards_vault.key@,
                destination: before.user_token_account.key@,
                authority: signer.0,
                amount: settled.1.your_reward_per_token_pending,
            },
        ]
    })
}

/// Pays a participant its rewards: settles it at the current accumulator,
/// zeroes its pending reward, stores both records and returns the transfer
/// of the settled amount from the rewards vault to its token account,
/// signed by the pool's custodian. On failure nothing is changed.
pub fn process_claim_rewards(accounts: &mut ClaimRewardsAccounts, program_id: &[u8; 32], now: i64) -> (r: Result<
    SignedTokenActions,
    StakeError,
>)
    ensures
        claim_outcome(*old(accounts), *final(accounts), program_id@, now as int, r),
{
    if !accounts.user_wallet.is_signer {
        return Err(StakeError::MissingAuthority);
    }
    let token_id = token_program_id();
    if !keys_equal(&accounts.token_program.key, &token_id) {
        return Err(StakeError::InvalidServiceReference);
    }
    check_user_address(&accounts.user_wallet.key, &accounts.pool_storage.key, &accounts.user_storage.key, program_id)?;
    let mut pool = load_pool(accounts.pool_storage.data.as_slice())?;
    let mut user = load_user(accounts.user_storage.data.as_slice())?;
    if !keys_equal(&user.user_wallet, &accounts.user_wallet.key) || !keys_equal(&user.your_pool, &accounts.pool_storage.key) {
        return Err(StakeError::OwnerMismatch);
    }
    let (custodian, bump) = find_pool_signer(&accounts.pool_storage.key, program_id)?;
    let total_staked = check_vault(&accounts.staking_vault, &custodian, &pool.your_staking_vault)?;
    let _rewards = check_vault(&accounts.rewards_vault, &custodian, &pool.your_reward_vault)?;
    if now < 0 {
        return Err(StakeError::AmountOverflow);
    }
    sync_rewards(&mut pool, &mut user, total_staked, now)?;
    let amount = user.your_reward_per_token_pending;
    user.your_reward_per_token_pending = 0;
    accounts.pool_storage.data = pool.pack();
    accounts.user_storage.data = user.pack();
    let mut actions: Vec<TokenAction> = Vec::new();
    actions.push(TokenAction::Transfer {
        source: accounts.rewards_vault.key,
        destination: accounts.user_token_account.key,
        authority: custodian,
        amount,
    });
    assert(actions_model(actions@) =~= seq![
        TokenActionModel::Transfer {
            source: old(accounts).rewards_vault.key@,
            destination: old(accounts).user_token_account.key@,
            authority: custodian@,
            amount,
        },
    ]);
    Ok(SignedTokenActions { signer_seed: accounts.pool_storage.key, bump, actions })
}

} // verus!

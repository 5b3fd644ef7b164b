use vstd::prelude::*;

use crate::account::{keys_equal, load_pool, pool_record_error, pool_record_ok, AccountView};
use crate::chain::{token_program_id, token_program_key};
use crate::codec::le_value;
use crate::error::StakeError;
use crate::processor::{
    actions_model, check_vault, empty_key, find_pool_signer, pool_signer_of, vault_bound, zero_key,
    SignedTokenActions, TokenAction, TokenActionModel,
};
use crate::state::{lemma_pool_model_round_trip, pool_decode, pool_encode, PoolModel};

verus! {

/// The accounts that closing a pool reads and writes.
#[derive(Clone, Debug)]
pub struct ClosePoolAccounts {
    pub pool_owner_wallet: AccountView,
    pub staking_vault: AccountView,
    pub staking_refund: AccountView,
    pub rewards_vault: AccountView,
    pub rewards_refund: AccountView,
    pub pool_storage: AccountView,
    pub pool_signer: AccountView,
    pub token_program: AccountView,
}

/// The first check that closing the pool fails, if any.
pub open spec fn close_pool_error(a: ClosePoolAccounts, program_id: Seq<u8>, now: int) -> Option<StakeError> {
    let pool = pool_decode(a.pool_storage.data@);
    let signer = pool_signer_of(a.pool_storage.key@, program_id);
    if !a.pool_owner_wallet.is_signer {
        Some(StakeError::MissingAuthority)
    } else if a.token_program.key@ != token_program_key() {
        Some(StakeError::InvalidServiceReference)
    } else if !pool_record_ok(a.pool_storage.data@) {
        Some(pool_record_error(a.pool_storage.data@))
    } else if pool.owner_wallet != a.pool_owner_wallet.key@ {
        Some(StakeError::OwnerMismatch)
    } else if a.staking_vault.owner@ != a.token_program.key@ {
        Some(StakeError::VaultMismatch)
    } else if signer is None {
        Some(StakeError::AddressDerivationMismatch)
    } else if !vault_bound(a.staking_vault, signer.unwrap().0, pool.your_staking_vault) {
        Some(StakeError::VaultMismatch)
    } else if pool.user_stake_count != 0 || le_value(a.staking_vault.data@.subrange(64, 72)) != 0 || now
        < pool.reward_duration_end {
        Some(StakeError::PoolStillActive)
    } else if !vault_bound(a.rewards_vault, signer.unwrap().0, pool.your_reward_vault) {
        Some(StakeError::VaultMismatch)
    } else {
        None
    }
}

/// The pool once both vault references are cleared.
pub open spec fn without_vaults(m: PoolModel) -> PoolModel {
    PoolModel { your_staking_vault: zero_key(), your_reward_vault: zero_key(), ..m }
}

/// The token calls that empty both vaults into the refund accounts and then
/// close them, returning their rent to the owner.
pub open spec fn close_pool_actions(a: ClosePoolAccounts, custodian: Seq<u8>) -> Seq<TokenActionModel> {
    seq![
        TokenActionModel::Transfer {
            source: a.staking_vault.key@,
            destination: a.staking_refund.key@,
            authority: custodian,
            amount: le_value(a.staking_vault.data@.subrange(64, 72)) as u64,
        },
        TokenActionModel::Transfer {
            source: a.rewards_vault.key@,
            destination: a.rewards_refund.key@,
            authority: custodian,
            amount: le_value(a.rewards_vault.data@.subrange(64, 72)) as u64,
        },
        TokenActionModel::CloseAccount {
            account: a.staking_vault.key@,
            destination: a.pool_owner_wallet.key@,
            authority: custodian,
        },
        TokenActionModel::CloseAccount {
            account: a.rewards_vault.key@,
            destination: a.pool_owner_wallet.key@,
            authority: custodian,
        },
    ]
}

/// What closing a pool does, from the accounts before to the accounts after.
pub open spec fn close_pool_outcome(before: ClosePoolAccounts, after: ClosePoolAccounts, program_id: Seq<u8>, now: int, r: Result<SignedTokenActions, StakeError>) -> bool {
    &&& (r is Err <==> close_pool_error(before, program_id, now) is Some)
    &&& (r matches Err(e) ==> Some(e) == close_pool_error(before, program_id, now)
        && after == before)
    &&& (r matches Ok(plan) ==> {
        let signer = pool_signer_of(before.pool_storage.key@, program_id).unwrap();
        &&& after.pool_storage.data@ == pool_encode(
            without_vaults(pool_decode(before.pool_storage.data@)),
        )
        &&& after == (ClosePoolAccounts {
            pool_storage: (AccountView { data: after.pool_storage.data, ..before.pool_storage }),
            ..before
        })
        &&& plan.signer_seed@ == before.pool_storage.key@
        &&& plan.bump == signer.1
        &&& actions_model(plan.actions@) == close_pool_actions(before, signer.0)
    })
}

/// Tears a finished pool down: checks the owner, the record and both vaults,
/// requires no participants, no stake and an elapsed reward program, clears
/// the vault references in the record and returns the token calls that
/// empty and close the vaults. On failure nothing is changed.
pub fn process_close_pool(accounts: &mut ClosePoolAccounts, program_id: &[u8; 32], now: i64) -> (r: Result<
    SignedTokenActions,
    StakeError,
>)
    ensures
        close_pool_outcome(*old(accounts), *final(accounts), program_id@, now as int, r),
{
    if !accounts.pool_owner_wallet.is_signer {
        return Err(StakeError::MissingAuthority);
    }
    let token_id = token_program_id();
    if !keys_equal(&accounts.token_program.key, &token_id) {
        return Err(StakeError::InvalidServiceReference);
    }
    let mut pool = load_pool(accounts.pool_storage.data.as_slice())?;
    if !keys_equal(&pool.owner_wallet, &accounts.pool_owner_wallet.key) {
        return Err(StakeError::OwnerMismatch);
    }
    if !keys_equal(&accounts.staking_vault.owner, &accounts.token_program.key) {
        return Err(StakeError::VaultMismatch);
    }
    let (custodian, bump) = find_pool_signer(&accounts.pool_storage.key, program_id)?;
    let staked = check_vault(&accounts.staking_vault, &custodian, &pool.your_staking_vault)?;
    let still_running: bool = now < 0 || (now as u64) < pool.reward_duration_end;
    if pool.user_stake_count != 0 || staked != 0 || still_running {
        return Err(StakeError::PoolStillActive);
    }
    let rewards = check_vault(&accounts.rewards_vault, &custodian, &pool.your_reward_vault)?;
    let mut actions: Vec<TokenAction> = Vec::new();
    actions.push(TokenAction::Transfer {
        source: accounts.staking_vault.key,
        destination: accounts.staking_refund.key,
        authority: custodian,
        amount: staked,
    });
    actions.push(TokenAction::Transfer {
        source: accounts.rewards_vault.key,
        destination: accounts.rewards_refund.key,
        authority: custodian,
        amount: rewards,
    });
    actions.push(TokenAction::CloseAccount {
        account: accounts.staking_vault.key,
        destination: accounts.pool_owner_wallet.key,
        authority: custodian,
    });
    actions.push(TokenAction::CloseAccount {
        account: accounts.rewards_vault.key,
        destination: accounts.pool_owner_wallet.key,
        authority: custodian,
    });
    pool.your_staking_vault = empty_key();
    pool.your_reward_vault = empty_key();
    assert(pool@ == without_vaults(pool_decode(accounts.pool_storage.data@)));
    accounts.pool_storage.data = pool.pack();
    assert(actions_model(actions@) =~= close_pool_actions(*old(accounts), custodian@));
    Ok(SignedTokenActions { signer_seed: accounts.pool_storage.key, bump, actions })
}

/// Once the signer, the pool record and the staking vault are accepted, a
/// pool that still counts participants cannot be closed: the attempt fails
/// as still active. With no participants, an empty staking vault, the reward
/// program over and a valid rewards vault, closing succeeds, and the record
/// it stores holds no vault references.
pub proof fn lemma_close_pool_activity(a: ClosePoolAccounts, program_id: Seq<u8>, now: int)
    requires
        a.pool_owner_wallet.is_signer,
        a.token_program.key@ == token_program_key(),
        pool_record_ok(a.pool_storage.data@),
        pool_decode(a.pool_storage.data@).owner_wallet == a.pool_owner_wallet.key@,
        a.staking_vault.owner@ == a.token_program.key@,
        pool_signer_of(a.pool_storage.key@, program_id) is Some,
        vault_bound(
            a.staking_vault,
            pool_signer_of(a.pool_storage.key@, program_id).unwrap().0,
            pool_decode(a.pool_storage.data@).your_staking_vault,
        ),
    ensures
        pool_decode(a.pool_storage.data@).user_stake_count != 0 ==> close_pool_error(a, program_id, now)
            == Some(StakeError::PoolStillActive),
        ({
            let pool = pool_decode(a.pool_storage.data@);
            pool.user_stake_count == 0 && le_value(a.staking_vault.data@.subrange(64, 72)) == 0 && now
                >= pool.reward_duration_end && vault_bound(
                a.rewards_vault,
                pool_signer_of(a.pool_storage.key@, program_id).unwrap().0,
                pool.your_reward_vault,
            ) ==> close_pool_error(a, program_id, now) is None && pool_decode(
                pool_encode(without_vaults(pool)),
            ).your_staking_vault == zero_key() && pool_decode(pool_encode(without_vaults(pool))).your_reward_vault
                == zero_key()
        }),
{
    let pool = pool_decode(a.pool_storage.data@);
    let cleared = without_vaults(pool);
    assert(cleared.funders.len() == 5);
    assert forall|i: int| 0 <= i < 5 implies #[trigger] crate::state::is_key(cleared.funders[i]) by {
        assert(cleared.funders[i].len() == 32);
    }
    lemma_pool_model_round_trip(cleared);
}

} // verus!

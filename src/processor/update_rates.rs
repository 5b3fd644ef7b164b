use vstd::prelude::*;

use crate::account::{keys_equal, load_pool, pool_record_error, pool_record_ok, AccountView};
use crate::error::StakeError;
use crate::state::{pool_decode, pool_encode, PoolModel};

verus! {

/// The accounts that changing a pool's reward rate reads and writes.
#[derive(Clone, Debug)]
pub struct UpdateRatesAccounts {
    pub pool_owner_wallet: AccountView,
    pub pool_storage: AccountView,
}

/// The first check that a rate change fails, if any.
pub open spec fn update_rates_error(a: UpdateRatesAccounts) -> Option<StakeError> {
    if !a.pool_owner_wallet.is_signer {
        Some(StakeError::MissingAuthority)
    } else if !pool_record_ok(a.pool_storage.data@) {
        Some(pool_record_error(a.pool_storage.data@))
    } else if pool_decode(a.pool_storage.data@).owner_wallet != a.pool_owner_wallet.key@ {
        Some(StakeError::OwnerMismatch)
    } else {
        None
    }
}

pub open spec fn with_rate(m: PoolModel, rate: u64) -> PoolModel {
    PoolModel { your_reward_rate: rate, ..m }
}

/// Sets the pool's reward rate, at the owner's request. The accumulator is
/// not brought forward first. On failure nothing is changed.
pub fn process_update_rates(accounts: &mut UpdateRatesAccounts, your_reward_rate: u64) -> (r: Result<(), StakeError>)
    ensures
        r is Err <==> update_rates_error(*old(accounts)) is Some,
        r matches Err(e) ==> Some(e) == update_rates_error(*old(accounts)) && *final(accounts) == *old(accounts),
        r is Ok ==> {
            &&& final(accounts).pool_storage.data@ == pool_encode(
                with_rate(pool_decode(old(accounts).pool_storage.data@), your_reward_rate),
            )
            &&& *final(accounts) == (UpdateRatesAccounts {
                pool_storage: (AccountView { data: final(accounts).pool_storage.data, ..old(accounts).pool_storage }),
                ..*old(accounts)
            })
        },
{
    if !accounts.pool_owner_wallet.is_signer {
        return Err(StakeError::MissingAuthority);
    }
    let mut pool = load_pool(accounts.pool_storage.data.as_slice())?;
    if !keys_equal(&pool.owner_wallet, &accounts.pool_owner_wallet.key) {
        return Err(StakeError::OwnerMismatch);
    }
    pool.your_reward_rate = your_reward_rate;
    assert(pool@ == with_rate(pool_decode(accounts.pool_storage.data@), your_reward_rate));
    accounts.pool_storage.data = pool.pack();
    Ok(())
}

} // verus!

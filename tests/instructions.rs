use solana_program::program_pack::Pack;
use solana_program::pubkey::Pubkey;
use spl_token::state::{Account as TokenAccount, AccountState};
use stake_pool::account::AccountView;
use stake_pool::error::StakeError;
use stake_pool::processor::claim_rewards::{process_claim_rewards, ClaimRewardsAccounts};
use stake_pool::processor::close_pool::{process_close_pool, ClosePoolAccounts};
use stake_pool::processor::close_user::{process_close_user, CloseUserAccounts};
use stake_pool::processor::create_user::{process_create_user, CreateUserAccounts};
use stake_pool::processor::initialize_pool::{process_initialize_pool, InitializePoolAccounts};
use stake_pool::processor::stake::{process_stake, StakeAccounts};
use stake_pool::processor::unstake::{process_unstake, PendingWithdrawal, UnstakeAccounts};
use stake_pool::processor::update_rates::{process_update_rates, UpdateRatesAccounts};
use stake_pool::processor::{InstructionAccounts, Outcome, Processor, TokenAction};
use stake_pool::state::{User, YourPool};
use stake_pool::utils::{close_account, PRECISION};

const PROGRAM: [u8; 32] = [7; 32];
const POOL: [u8; 32] = [20; 32];
const OWNER: [u8; 32] = [21; 32];
const STAKING_VAULT: [u8; 32] = [22; 32];
const REWARDS_VAULT: [u8; 32] = [23; 32];
const WALLET: [u8; 32] = [30; 32];
const USER_TOKENS: [u8; 32] = [31; 32];

fn pda(seeds: &[&[u8]]) -> ([u8; 32], u8) {
    let (k, b) = Pubkey::find_program_address(seeds, &Pubkey::new_from_array(PROGRAM));
    (k.to_bytes(), b)
}

fn custodian() -> [u8; 32] {
    pda(&[&POOL]).0
}

fn user_address() -> ([u8; 32], u8) {
    pda(&[&WALLET, &POOL])
}

fn token_data(holder: [u8; 32], amount: u64) -> Vec<u8> {
    let a = TokenAccount {
        mint: Pubkey::new_from_array([9; 32]),
        owner: Pubkey::new_from_array(holder),
        amount,
        state: AccountState::Initialized,
        ..TokenAccount::default()
    };
    let mut d = vec![0u8; TokenAccount::LEN];
    TokenAccount::pack(a, &mut d).unwrap();
    d
}

fn acct(key: [u8; 32], is_signer: bool, data: Vec<u8>) -> AccountView {
    AccountView { key, is_signer, owner: [0; 32], lamports: 1_000, data }
}

fn vault(key: [u8; 32], amount: u64) -> AccountView {
    AccountView { key, is_signer: false, owner: spl_token::id().to_bytes(), lamports: 2_000, data: token_data(custodian(), amount) }
}

fn token_program() -> AccountView {
    acct(spl_token::id().to_bytes(), false, vec![])
}

fn pool_record(count: u32, end: u64) -> YourPool {
    YourPool {
        acc_type: 2,
        owner_wallet: OWNER,
        your_staking_vault: STAKING_VAULT,
        your_staking_mint: [9; 32],
        your_reward_vault: REWARDS_VAULT,
        your_reward_mint: [9; 32],
        your_reward_rate: 1000,
        your_reward_duration: 86400,
        total_stake_last_update_time: 0,
        your_reward_per_token_stored: 0,
        user_stake_count: count,
        pda_nonce: 1,
        funders: [[0; 32]; 5],
        reward_duration_end: end,
    }
}

fn user_record(balance: u64, pending: u64) -> User {
    User {
        acc_type: 3,
        user_wallet: WALLET,
        your_pool: POOL,
        balance_your_staked: balance,
        nonce: user_address().1,
        your_reward_per_token_pending: pending,
        your_reward_per_token_completed: 0,
    }
}

fn close_pool_accounts(count: u32, staked: u64, end: u64) -> ClosePoolAccounts {
    ClosePoolAccounts {
        pool_owner_wallet: acct(OWNER, true, vec![]),
        staking_vault: vault(STAKING_VAULT, staked),
        staking_refund: acct([24; 32], false, vec![]),
        rewards_vault: vault(REWARDS_VAULT, 30),
        rewards_refund: acct([25; 32], false, vec![]),
        pool_storage: acct(POOL, false, pool_record(count, end).pack()),
        pool_signer: acct(custodian(), false, vec![]),
        token_program: token_program(),
    }
}

#[test]
fn close_pool_with_participants_is_still_active() {
    let mut a = close_pool_accounts(1, 0, 100);
    assert_eq!(process_close_pool(&mut a, &PROGRAM, 200).err(), Some(StakeError::PoolStillActive));
    assert_eq!(a.pool_storage.data, pool_record(1, 100).pack());
}

#[test]
fn close_pool_with_stake_or_running_rewards_is_still_active() {
    let mut a = close_pool_accounts(0, 5, 100);
    assert_eq!(process_close_pool(&mut a, &PROGRAM, 200).err(), Some(StakeError::PoolStillActive));
    let mut b = close_pool_accounts(0, 0, 100);
    assert_eq!(process_close_pool(&mut b, &PROGRAM, 99).err(), Some(StakeError::PoolStillActive));
}

#[test]
fn close_pool_empties_and_closes_vaults() {
    let mut a = close_pool_accounts(0, 0, 100);
    let plan = process_close_pool(&mut a, &PROGRAM, 100).unwrap();
    let c = custodian();
    assert_eq!(plan.signer_seed, POOL);
    assert_eq!(plan.bump, pda(&[&POOL]).1);
    assert_eq!(plan.actions.len(), 4);
    assert!(matches!(plan.actions[0], TokenAction::Transfer { source, destination, authority, amount }
        if source == STAKING_VAULT && destination == [24; 32] && authority == c && amount == 0));
    assert!(matches!(plan.actions[1], TokenAction::Transfer { source, destination, authority, amount }
        if source == REWARDS_VAULT && destination == [25; 32] && authority == c && amount == 30));
    assert!(matches!(plan.actions[2], TokenAction::CloseAccount { account, destination, authority }
        if account == STAKING_VAULT && destination == OWNER && authority == c));
    assert!(matches!(plan.actions[3], TokenAction::CloseAccount { account, destination, authority }
        if account == REWARDS_VAULT && destination == OWNER && authority == c));
    let pool = YourPool::unpack(&a.pool_storage.data).unwrap();
    assert_eq!(pool.your_staking_vault, [0; 32]);
    assert_eq!(pool.your_reward_vault, [0; 32]);
    assert_eq!(pool.owner_wallet, OWNER);
}

#[test]
fn close_pool_refuses_foreign_token_program() {
    let mut a = close_pool_accounts(0, 0, 100);
    a.token_program.key = [1; 32];
    assert_eq!(process_close_pool(&mut a, &PROGRAM, 200).err(), Some(StakeError::InvalidServiceReference));
}

#[test]
fn close_pool_refuses_foreign_or_malformed_vault() {
    let mut a = close_pool_accounts(0, 0, 100);
    a.rewards_vault.data = token_data([3; 32], 30);
    assert_eq!(process_close_pool(&mut a, &PROGRAM, 200).err(), Some(StakeError::VaultMismatch));
    let mut b = close_pool_accounts(0, 0, 100);
    b.staking_vault.data = vec![0; 165];
    assert_eq!(process_close_pool(&mut b, &PROGRAM, 200).err(), Some(StakeError::VaultMismatch));
}

#[test]
fn close_pool_needs_owner_signature() {
    let mut a = close_pool_accounts(0, 0, 100);
    a.pool_owner_wallet.is_signer = false;
    assert_eq!(process_close_pool(&mut a, &PROGRAM, 200).err(), Some(StakeError::MissingAuthority));
    let mut b = close_pool_accounts(0, 0, 100);
    b.pool_owner_wallet.key = [5; 32];
    assert_eq!(process_close_pool(&mut b, &PROGRAM, 200).err(), Some(StakeError::OwnerMismatch));
}

fn close_user_accounts(balance: u64, pending: u64) -> CloseUserAccounts {
    CloseUserAccounts {
        user_wallet: acct(WALLET, true, vec![]),
        user_storage: acct(user_address().0, false, user_record(balance, pending).pack()),
        pool_storage: acct(POOL, false, pool_record(3, 100).pack()),
    }
}

#[test]
fn close_user_with_pending_reward_fails() {
    let mut a = close_user_accounts(0, 5);
    assert_eq!(process_close_user(&mut a, &PROGRAM), Err(StakeError::NonZeroBalanceOnClose));
    let mut b = close_user_accounts(5, 0);
    assert_eq!(process_close_user(&mut b, &PROGRAM), Err(StakeError::NonZeroBalanceOnClose));
}

#[test]
fn close_user_returns_lamports_and_frees_slot() {
    let mut a = close_user_accounts(0, 0);
    assert_eq!(process_close_user(&mut a, &PROGRAM), Ok(()));
    assert_eq!(a.user_wallet.lamports, 2_000);
    assert_eq!(a.user_storage.lamports, 0);
    assert!(a.user_storage.data.is_empty());
    assert_eq!(YourPool::unpack(&a.pool_storage.data).unwrap().user_stake_count, 2);
}

#[test]
fn close_user_refuses_underived_address() {
    let mut a = close_user_accounts(0, 0);
    a.user_storage.key = [40; 32];
    assert_eq!(process_close_user(&mut a, &PROGRAM), Err(StakeError::AddressDerivationMismatch));
}

fn unstake_accounts(balance: u64) -> UnstakeAccounts {
    UnstakeAccounts {
        user_wallet: acct(WALLET, true, vec![]),
        user_storage: acct(user_address().0, false, user_record(balance, 0).pack()),
        pool_storage: acct(POOL, false, pool_record(1, 100).pack()),
        staking_vault: vault(STAKING_VAULT, balance),
        user_token_account: acct(USER_TOKENS, false, vec![]),
        pool_signer: acct(custodian(), false, vec![]),
        token_program: token_program(),
    }
}

#[test]
fn unstake_beyond_balance_fails() {
    let a = unstake_accounts(40);
    assert_eq!(process_unstake(&a, 50, &PROGRAM, 1_000), Err(StakeError::InsufficientBalance));
    assert_eq!(process_unstake(&a, 0, &PROGRAM, 1_000), Err(StakeError::ZeroAmount));
}

#[test]
fn unstake_records_pending_withdrawal() {
    let a = unstake_accounts(40);
    assert_eq!(process_unstake(&a, 40, &PROGRAM, 1_000), Ok(PendingWithdrawal { amount: 40, release_time: 1_002 }));
    assert_eq!(process_unstake(&a, 1, &PROGRAM, i64::MAX), Err(StakeError::AmountOverflow));
}

fn stake_accounts(total: u64) -> StakeAccounts {
    StakeAccounts {
        user_wallet: acct(WALLET, true, vec![]),
        user_storage: acct(user_address().0, false, user_record(10, 0).pack()),
        pool_storage: acct(POOL, false, pool_record(1, 1_000).pack()),
        staking_vault: vault(STAKING_VAULT, total),
        user_token_account: acct(USER_TOKENS, false, vec![]),
        token_program: token_program(),
    }
}

#[test]
fn stake_settles_rewards_before_deposit() {
    let mut a = stake_accounts(100);
    let t = process_stake(&mut a, 50, &PROGRAM, 10).unwrap();
    assert!(matches!(t, TokenAction::Transfer { source, destination, authority, amount }
        if source == USER_TOKENS && destination == STAKING_VAULT && authority == WALLET && amount == 50));
    let pool = YourPool::unpack(&a.pool_storage.data).unwrap();
    assert_eq!(pool.your_reward_per_token_stored, 1000 * 10 * PRECISION / 100);
    assert_eq!(pool.total_stake_last_update_time, 10);
    let user = User::unpack(&a.user_storage.data).unwrap();
    assert_eq!(user.balance_your_staked, 60);
    assert_eq!(user.your_reward_per_token_pending, 1000);
    assert_eq!(user.your_reward_per_token_completed, 1000 * 10 * PRECISION / 100);
}

#[test]
fn stake_of_zero_fails() {
    let mut a = stake_accounts(100);
    assert_eq!(process_stake(&mut a, 0, &PROGRAM, 10).err(), Some(StakeError::ZeroAmount));
}

#[test]
fn claim_pays_settled_rewards() {
    let mut a = ClaimRewardsAccounts {
        user_wallet: acct(WALLET, true, vec![]),
        user_storage: acct(user_address().0, false, user_record(10, 0).pack()),
        pool_storage: acct(POOL, false, pool_record(1, 1_000).pack()),
        staking_vault: vault(STAKING_VAULT, 100),
        rewards_vault: vault(REWARDS_VAULT, 5_000),
        user_token_account: acct(USER_TOKENS, false, vec![]),
        token_program: token_program(),
    };
    let plan = process_claim_rewards(&mut a, &PROGRAM, 10).unwrap();
    assert_eq!(plan.actions.len(), 1);
    let c = custodian();
    assert!(matches!(plan.actions[0], TokenAction::Transfer { source, destination, authority, amount }
        if source == REWARDS_VAULT && destination == USER_TOKENS && authority == c && amount == 1000));
    let user = User::unpack(&a.user_storage.data).unwrap();
    assert_eq!(user.your_reward_per_token_pending, 0);
    assert_eq!(user.balance_your_staked, 10);
}

#[test]
fn create_user_opens_slot() {
    let (address, bump) = user_address();
    let mut a = CreateUserAccounts {
        user_wallet: acct(WALLET, true, vec![]),
        user_storage: acct(address, false, vec![0; 98]),
        pool_storage: acct(POOL, false, pool_record(4, 100).pack()),
    };
    assert_eq!(process_create_user(&mut a, &PROGRAM), Ok(()));
    let user = User::unpack(&a.user_storage.data).unwrap();
    assert_eq!(user.acc_type, 3);
    assert_eq!(user.user_wallet, WALLET);
    assert_eq!(user.your_pool, POOL);
    assert_eq!(user.nonce, bump);
    assert_eq!(YourPool::unpack(&a.pool_storage.data).unwrap().user_stake_count, 5);
    assert_eq!(process_create_user(&mut a, &PROGRAM), Err(StakeError::RecordKindMismatch));
}

fn initialize_accounts() -> InitializePoolAccounts {
    InitializePoolAccounts {
        pool_owner_wallet: acct(OWNER, true, vec![]),
        pool_storage: acct(POOL, false, vec![0; 374]),
        staking_vault: vault(STAKING_VAULT, 0),
        staking_mint: acct([9; 32], false, vec![]),
        rewards_vault: vault(REWARDS_VAULT, 0),
        rewards_mint: acct([9; 32], false, vec![]),
        token_program: token_program(),
    }
}

#[test]
fn initialize_pool_writes_record() {
    let mut a = initialize_accounts();
    assert_eq!(process_initialize_pool(&mut a, 86_400, 3, &PROGRAM, 5), Ok(()));
    let pool = YourPool::unpack(&a.pool_storage.data).unwrap();
    assert_eq!(pool.acc_type, 2);
    assert_eq!(pool.owner_wallet, OWNER);
    assert_eq!(pool.your_staking_vault, STAKING_VAULT);
    assert_eq!(pool.your_reward_vault, REWARDS_VAULT);
    assert_eq!(pool.your_reward_duration, 86_400);
    assert_eq!(pool.reward_duration_end, 86_405);
    assert_eq!(pool.user_stake_count, 0);
    assert_eq!(pool.pda_nonce, 3);
    assert_eq!(pool.your_reward_per_token_stored, 0);
}

#[test]
fn initialize_pool_refuses_short_duration() {
    let mut a = initialize_accounts();
    assert_eq!(process_initialize_pool(&mut a, 86_399, 3, &PROGRAM, 5), Err(StakeError::InvalidDuration));
}

#[test]
fn update_rates_needs_owner() {
    let mut a = UpdateRatesAccounts {
        pool_owner_wallet: acct(OWNER, true, vec![]),
        pool_storage: acct(POOL, false, pool_record(0, 100).pack()),
    };
    assert_eq!(process_update_rates(&mut a, 77), Ok(()));
    assert_eq!(YourPool::unpack(&a.pool_storage.data).unwrap().your_reward_rate, 77);
    a.pool_owner_wallet.key = [1; 32];
    assert_eq!(process_update_rates(&mut a, 5), Err(StakeError::OwnerMismatch));
}

#[test]
fn router_dispatches_and_refuses_mismatched_accounts() {
    let mut a = InstructionAccounts::CloseUser(close_user_accounts(0, 0));
    assert!(matches!(Processor::process(&PROGRAM, &mut a, &[6], 0), Ok(Outcome::Done)));
    let mut b = InstructionAccounts::CloseUser(close_user_accounts(0, 0));
    assert!(matches!(Processor::process(&PROGRAM, &mut b, &[5], 0), Err(StakeError::MalformedInstruction)));
    assert!(matches!(Processor::process(&PROGRAM, &mut b, &[9], 0), Err(StakeError::MalformedInstruction)));
}

#[test]
fn close_account_moves_all_lamports() {
    let mut closing = acct([50; 32], false, vec![1, 2, 3]);
    let mut receiver = acct([51; 32], false, vec![]);
    assert_eq!(close_account(&mut closing, &mut receiver), Ok(()));
    assert_eq!(receiver.lamports, 2_000);
    assert_eq!(closing.lamports, 0);
    assert!(closing.data.is_empty());
    let mut full = acct([52; 32], false, vec![]);
    full.lamports = u64::MAX;
    let mut other = acct([53; 32], false, vec![9]);
    assert_eq!(close_account(&mut other, &mut full), Err(StakeError::AmountOverflow));
    assert_eq!(other.lamports, 1_000);
    assert_eq!(other.data, vec![9]);
}

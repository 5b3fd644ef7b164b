use vstd::prelude::*;

use crate::account::keys_equal;
use crate::account::AccountView;
use crate::chain::{find_program_address, program_address, token_account_valid, unpack_token_account};
use crate::codec::write_key;
use crate::error::StakeError;
use crate::instruction::{instruction_decode, Instruction};
use claim_rewards::{claim_outcome, process_claim_rewards, ClaimRewardsAccounts};
use close_pool::{close_pool_outcome, process_close_pool, ClosePoolAccounts};
use close_user::{close_user_outcome, process_close_user, CloseUserAccounts};
use create_user::{create_user_outcome, process_create_user, CreateUserAccounts};
use initialize_pool::{initialize_pool_outcome, process_initialize_pool, InitializePoolAccounts};
use stake::{process_stake, stake_outcome, StakeAccounts};
use unstake::{process_unstake, unstake_outcome, PendingWithdrawal, UnstakeAccounts};
use crate::state::{PoolModel, User, UserModel, YourPool};
use crate::utils::{earned, earned_spec, last_time_reward_applicable, min_time, rewards_per_token, updated_accumulator};

pub mod claim_rewards;
pub mod close_pool;
pub mod close_user;
pub mod create_user;
pub mod initialize_pool;
pub mod stake;
pub mod unstake;
pub mod update_rates;

verus! {

/// Routes a decoded instruction to its handler.
pub struct Processor;

/// A token-program call that the caller must make, signed by the pool's
/// derived custodian.
#[derive(Clone, Copy, Debug)]
pub enum TokenAction {
    Transfer { source: [u8; 32], destination: [u8; 32], authority: [u8; 32], amount: u64 },
    CloseAccount { account: [u8; 32], destination: [u8; 32], authority: [u8; 32] },
}

/// A token-program call with keys as byte sequences.
pub enum TokenActionModel {
    Transfer { source: Seq<u8>, destination: Seq<u8>, authority: Seq<u8>, amount: u64 },
    CloseAccount { account: Seq<u8>, destination: Seq<u8>, authority: Seq<u8> },
}

impl View for TokenAction {
    type V = TokenActionModel;

    open spec fn view(&self) -> TokenActionModel {
        match *self {
            TokenAction::Transfer { source, destination, authority, amount } => TokenActionModel::Transfer {
                source: source@,
                destination: destination@,
                authority: authority@,
                amount,
            },
            TokenAction::CloseAccount { account, destination, authority } => TokenActionModel::CloseAccount {
                account: account@,
                destination: destination@,
                authority: authority@,
            },
        }
    }
}

/// Token-program calls to be signed with the seed `signer_seed` and bump
/// byte `bump`, in order.
#[derive(Clone, Debug)]
pub struct SignedTokenActions {
    pub signer_seed: [u8; 32],
    pub bump: u8,
    pub actions: Vec<TokenAction>,
}

pub open spec fn actions_model(v: Seq<TokenAction>) -> Seq<TokenActionModel> {
    v.map_values(|a: TokenAction| a@)
}

/// The bytes of a key as a vector, for use as a derivation seed.
pub fn key_seed(k: &[u8; 32]) -> (r: Vec<u8>)
    ensures
        r@ == k@,
{
    let mut out: Vec<u8> = Vec::new();
    write_key(&mut out, k);
    assert(out@ =~= k@);
    out
}

/// Derivation seeds made of the bytes of each key, in order.
pub fn key_seeds(keys: &[[u8; 32]]) -> (r: Vec<Vec<u8>>)
    ensures
        r.deep_view() == keys@.map_values(|k: [u8; 32]| k@),
{
    let mut out: Vec<Vec<u8>> = Vec::new();
    let mut i: usize = 0;
    while i < keys.len()
        invariant
            i <= keys@.len(),
            out@.len() == i,
            forall|j: int| 0 <= j < i ==> #[trigger] out@[j]@ == keys@[j]@,
        decreases keys@.len() - i,
    {
        out.push(key_seed(&keys[i]));
        i = i + 1;
    }
    proof {
        assert forall|j: int| 0 <= j < i implies #[trigger] out@[j].deep_view() == out@[j]@ by {
            assert(out@[j].deep_view() =~= out@[j]@);
        }
    }
    assert(out.deep_view() =~= keys@.map_values(|k: [u8; 32]| k@));
    out
}

pub open spec fn zero_key() -> Seq<u8> {
    Seq::new(32, |i: int| 0u8)
}

/// The all-zero key, which marks an unset address.
pub fn empty_key() -> (r: [u8; 32])
    ensures
        r@ == zero_key(),
{
    let k: [u8; 32] = [0u8; 32];
    assert(k@ =~= zero_key());
    k
}

/// Whether `storage` is the participant address derived from the wallet
/// and the pool.
pub open spec fn user_address_matches(wallet: Seq<u8>, pool: Seq<u8>, storage: Seq<u8>, program_id: Seq<u8>) -> bool {
    match program_address(seq![wallet, pool], program_id) {
        Some((k, _)) => k == storage,
        None => false,
    }
}

/// Checks that a participant record sits at the address derived from its
/// wallet and its pool.
pub fn check_user_address(wallet: &[u8; 32], pool: &[u8; 32], storage: &[u8; 32], program_id: &[u8; 32]) -> (r: Result<(), StakeError>)
    ensures
        r is Ok <==> user_address_matches(wallet@, pool@, storage@, program_id@),
        r matches Err(e) ==> e == StakeError::AddressDerivationMismatch,
{
    let seed_keys: [[u8; 32]; 2] = [*wallet, *pool];
    let seeds = key_seeds(&seed_keys);
    assert(seed_keys@.map_values(|k: [u8; 32]| k@) =~= seq![wallet@, pool@]);
    match find_program_address(&seeds, program_id) {
        Some((k, _)) => {
            if keys_equal(&k, storage) {
                Ok(())
            } else {
                Err(StakeError::AddressDerivationMismatch)
            }
        },
        None => Err(StakeError::AddressDerivationMismatch),
    }
}

/// The custodian address derived from a pool record's address.
pub open spec fn pool_signer_of(pool_key: Seq<u8>, program_id: Seq<u8>) -> Option<(Seq<u8>, u8)> {
    program_address(seq![pool_key], program_id)
}

/// Derives the custodian of the pool stored at `pool_key`.
pub fn find_pool_signer(pool_key: &[u8; 32], program_id: &[u8; 32]) -> (r: Result<([u8; 32], u8), StakeError>)
    ensures
        r is Ok <==> pool_signer_of(pool_key@, program_id@) is Some,
        r matches Ok((k, n)) ==> pool_signer_of(pool_key@, program_id@) == Some((k@, n)),
        r matches Err(e) ==> e == StakeError::AddressDerivationMismatch,
{
    let seed_keys: [[u8; 32]; 1] = [*pool_key];
    let seeds = key_seeds(&seed_keys);
    assert(seed_keys@.map_values(|k: [u8; 32]| k@) =~= seq![pool_key@]);
    match find_program_address(&seeds, program_id) {
        Some(v) => Ok(v),
        None => Err(StakeError::AddressDerivationMismatch),
    }
}

/// A vault whose data is a token account held by `custodian` at the
/// address that the pool records for it.
pub open spec fn vault_bound(vault: AccountView, custodian: Seq<u8>, recorded: Seq<u8>) -> bool {
    token_account_valid(vault.data@) && vault.data@.subrange(32, 64) == custodian && recorded == vault.key@
}

/// Checks that `vault` is the pool's vault under its custodian, and returns
/// the amount it holds.
pub fn check_vault(vault: &AccountView, custodian: &[u8; 32], recorded: &[u8; 32]) -> (r: Result<u64, StakeError>)
    ensures
        r is Ok <==> vault_bound(*vault, custodian@, recorded@),
        r matches Ok(n) ==> n as nat == crate::codec::le_value(vault.data@.subrange(64, 72)),
        r matches Err(e) ==> e == StakeError::VaultMismatch,
{
    let (holder, amount) = match unpack_token_account(vault.data.as_slice()) {
        Ok(v) => v,
        Err(_) => return Err(StakeError::VaultMismatch),
    };
    if !keys_equal(&holder, custodian) || !keys_equal(recorded, &vault.key) {
        return Err(StakeError::VaultMismatch);
    }
    Ok(amount)
}

/// The pool and participant after bringing the accumulator forward to `now`
/// and folding the participant's earnings into its pending reward, or
/// `None` where a checked step fails.
pub open spec fn synced(pool: PoolModel, user: UserModel, total_staked: u64, now: int) -> Option<(PoolModel, UserModel)> {
    let acc = updated_accumulator(
        total_staked,
        min_time(pool.reward_duration_end, now),
        pool.total_stake_last_update_time,
        pool.your_reward_rate,
        pool.your_reward_per_token_stored,
    );
    if acc is None {
        None
    } else {
        let e = earned_spec(
            user.balance_your_staked,
            acc.unwrap(),
            user.your_reward_per_token_completed,
            user.your_reward_per_token_pending,
        );
        if e is None {
            None
        } else {
            Some(
                (
                    PoolModel {
                        your_reward_per_token_stored: acc.unwrap(),
                        total_stake_last_update_time: now as u64,
                        ..pool
                    },
                    UserModel {
                        your_reward_per_token_pending: e.unwrap(),
                        your_reward_per_token_completed: acc.unwrap(),
                        ..user
                    },
                ),
            )
        }
    }
}

/// Settling never lowers the pool's accumulator, and leaves the
/// participant's checkpoint equal to it.
pub proof fn lemma_sync_keeps_checkpoint(pool: PoolModel, user: UserModel, total_staked: u64, now: int)
    ensures
        synced(pool, user, total_staked, now) matches Some((p, u)) ==> p.your_reward_per_token_stored
            >= pool.your_reward_per_token_stored && u.your_reward_per_token_completed
            == p.your_reward_per_token_stored,
{
    let t = min_time(pool.reward_duration_end, now);
    if total_staked != 0 && t >= pool.total_stake_last_update_time {
        let scaled = pool.your_reward_rate * (t - pool.total_stake_last_update_time) * crate::utils::PRECISION;
        assert(scaled >= 0) by (nonlinear_arith)
            requires
                scaled == pool.your_reward_rate * (t - pool.total_stake_last_update_time)
                    * crate::utils::PRECISION,
                t >= pool.total_stake_last_update_time,
                pool.your_reward_rate >= 0,
        ;
        assert(scaled / (total_staked as int) >= 0) by (nonlinear_arith)
            requires
                scaled >= 0,
                total_staked > 0,
        ;
    }
}

/// Brings the pool's accumulator forward to `now`, with `total_staked` in
/// its staking vault, and settles the participant against it before its
/// stake changes. On failure neither record changes.
pub fn sync_rewards(pool: &mut YourPool, user: &mut User, total_staked: u64, now: i64) -> (r: Result<(), StakeError>)
    requires
        now >= 0,
    ensures
        r is Ok <==> synced(old(pool)@, old(user)@, total_staked, now as int) is Some,
        r matches Err(e) ==> e == StakeError::AmountOverflow && *final(pool) == *old(pool) && *final(user)
            == *old(user),
        r is Ok ==> synced(old(pool)@, old(user)@, total_staked, now as int) == Some((final(pool)@, final(user)@)),
{
    let applicable = last_time_reward_applicable(pool.reward_duration_end, now);
    let acc = rewards_per_token(
        total_staked,
        applicable,
        pool.total_stake_last_update_time,
        pool.your_reward_rate,
        pool.your_reward_per_token_stored,
    )?;
    let pending = earned(
        user.balance_your_staked,
        acc,
        user.your_reward_per_token_completed,
        user.your_reward_per_token_pending,
    )?;
    pool.your_reward_per_token_stored = acc;
    pool.total_stake_last_update_time = now as u64;
    user.your_reward_per_token_pending = pending;
    user.your_reward_per_token_completed = acc;
    proof {
        let s = synced(old(pool)@, old(user)@, total_staked, now as int).unwrap();
        assert(pool@.funders =~= s.0.funders);
    }
    Ok(())
}

/// The accounts of one instruction, each under its role.
#[derive(Clone, Debug)]
pub enum InstructionAccounts {
    InitializePool(InitializePoolAccounts),
    CreateUser(CreateUserAccounts),
    Stake(StakeAccounts),
    Unstake(UnstakeAccounts),
    ClaimRewards(ClaimRewardsAccounts),
    ClosePool(ClosePoolAccounts),
    CloseUser(CloseUserAccounts),
}

/// What an instruction leaves for the caller to carry out.
#[derive(Clone, Debug)]
pub enum Outcome {
    /// Nothing beyond the records already written.
    Done,
    /// A transfer that the signing wallet authorizes.
    Deposit(TokenAction),
    /// Calls that the pool's custodian signs.
    Signed(SignedTokenActions),
    /// A withdrawal to carry out once its time has come.
    Pending(PendingWithdrawal),
}

/// What routing an instruction does: bytes that spell no instruction, or
/// accounts for another instruction, are refused with nothing changed;
/// otherwise the instruction's handler runs on its accounts.
pub open spec fn process_outcome(
    before: InstructionAccounts,
    after: InstructionAccounts,
    program_id: Seq<u8>,
    data: Seq<u8>,
    now: int,
    r: Result<Outcome, StakeError>,
) -> bool {
    match (instruction_decode(data), before, after) {
        (
            Some(Instruction::InitializePool { reward_duration, pool_nonce }),
            InstructionAccounts::InitializePool(b),
            InstructionAccounts::InitializePool(a),
        ) => match r {
            Ok(Outcome::Done) => initialize_pool_outcome(b, a, reward_duration, pool_nonce, program_id, now, Ok(())),
            Err(e) => initialize_pool_outcome(b, a, reward_duration, pool_nonce, program_id, now, Err(e)),
            _ => false,
        },
        (Some(Instruction::CreateUser { nonce }), InstructionAccounts::CreateUser(b), InstructionAccounts::CreateUser(a)) => match r {
            Ok(Outcome::Done) => create_user_outcome(b, a, program_id, Ok(())),
            Err(e) => create_user_outcome(b, a, program_id, Err(e)),
            _ => false,
        },
        (Some(Instruction::Stake { amount_to_deposit }), InstructionAccounts::Stake(b), InstructionAccounts::Stake(a)) => match r {
            Ok(Outcome::Deposit(t)) => stake_outcome(b, a, amount_to_deposit, program_id, now, Ok(t)),
            Err(e) => stake_outcome(b, a, amount_to_deposit, program_id, now, Err(e)),
            _ => false,
        },
        (Some(Instruction::Unstake { amount_to_withdraw }), InstructionAccounts::Unstake(b), InstructionAccounts::Unstake(a)) => a == b
            && match r {
            Ok(Outcome::Pending(p)) => unstake_outcome(b, amount_to_withdraw, program_id, now, Ok(p)),
            Err(e) => unstake_outcome(b, amount_to_withdraw, program_id, now, Err(e)),
            _ => false,
        },
        (Some(Instruction::ClaimRewards), InstructionAccounts::ClaimRewards(b), InstructionAccounts::ClaimRewards(a)) => match r {
            Ok(Outcome::Signed(p)) => claim_outcome(b, a, program_id, now, Ok(p)),
            Err(e) => claim_outcome(b, a, program_id, now, Err(e)),
            _ => false,
        },
        (Some(Instruction::ClosePool), InstructionAccounts::ClosePool(b), InstructionAccounts::ClosePool(a)) => match r {
            Ok(Outcome::Signed(p)) => close_pool_outcome(b, a, program_id, now, Ok(p)),
            Err(e) => close_pool_outcome(b, a, program_id, now, Err(e)),
            _ => false,
        },
        (Some(Instruction::CloseUser), InstructionAccounts::CloseUser(b), InstructionAccounts::CloseUser(a)) => match r {
            Ok(Outcome::Done) => close_user_outcome(b, a, program_id, Ok(())),
            Err(e) => close_user_outcome(b, a, program_id, Err(e)),
            _ => false,
        },
        _ => r == Err::<Outcome, StakeError>(StakeError::MalformedInstruction) && after == before,
    }
}

impl Processor {
    /// Decodes `instruction_data` and runs its handler on `accounts`, which
    /// must hold the accounts of that same instruction.
    pub fn process(
        program_id: &[u8; 32],
        accounts: &mut InstructionAccounts,
        instruction_data: &[u8],
        now: i64,
    ) -> (r: Result<Outcome, StakeError>)
        ensures
            process_outcome(*old(accounts), *final(accounts), program_id@, instruction_data@, now as int, r),
    {
        let instruction = Instruction::unpack(instruction_data)?;
        match instruction {
            Instruction::InitializePool { reward_duration, pool_nonce } => match accounts {
                InstructionAccounts::InitializePool(a) => {
                    process_initialize_pool(a, reward_duration, pool_nonce, program_id, now)?;
                    Ok(Outcome::Done)
                },
                _ => Err(StakeError::MalformedInstruction),
            },
            Instruction::CreateUser { nonce: _ } => match accounts {
                InstructionAccounts::CreateUser(a) => {
                    process_create_user(a, program_id)?;
                    Ok(Outcome::Done)
                },
                _ => Err(StakeError::MalformedInstruction),
            },
            Instruction::Stake { amount_to_deposit } => match accounts {
                InstructionAccounts::Stake(a) => {
                    let t = process_stake(a, amount_to_deposit, program_id, now)?;
                    Ok(Outcome::Deposit(t))
                },
                _ => Err(StakeError::MalformedInstruction),
            },
            Instruction::Unstake { amount_to_withdraw } => match accounts {
                InstructionAccounts::Unstake(a) => {
                    let p = process_unstake(a, amount_to_withdraw, program_id, now)?;
                    Ok(Outcome::Pending(p))
                },
                _ => Err(StakeError::MalformedInstruction),
            },
            Instruction::ClaimRewards => match accounts {
                InstructionAccounts::ClaimRewards(a) => {
                    let p = process_claim_rewards(a, program_id, now)?;
                    Ok(Outcome::Signed(p))
                },
                _ => Err(StakeError::MalformedInstruction),
            },
            Instruction::ClosePool => match accounts {
                InstructionAccounts::ClosePool(a) => {
                    let p = process_close_pool(a, program_id, now)?;
                    Ok(Outcome::Signed(p))
                },
                _ => Err(StakeError::MalformedInstruction),
            },
            Instruction::CloseUser => match accounts {
                InstructionAccounts::CloseUser(a) => {
                    process_close_user(a, program_id)?;
                    Ok(Outcome::Done)
                },
                _ => Err(StakeError::MalformedInstruction),
            },
        }
    }
}

} // verus!

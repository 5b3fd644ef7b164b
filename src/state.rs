use vstd::prelude::*;

use crate::codec::{
    le_bytes, le_value, read_key, write_key, lemma_le_bytes_len, lemma_le_bytes_of_value, lemma_le_value_bound,
    lemma_le_value_of_bytes, lemma_pow256_facts, read_le, write_le,
};
use crate::error::StakeError;

verus! {

/// The kind and layout version that a record's first byte names.
#[derive(Clone, Copy, Debug, PartialEq, Eq, Structural)]
pub enum AccTypesWithVersion {
    YourPoolDataV1,
    UserDataV1,
}

impl AccTypesWithVersion {
    pub open spec fn spec_tag(self) -> u8 {
        match self {
            AccTypesWithVersion::YourPoolDataV1 => 2,
            AccTypesWithVersion::UserDataV1 => 3,
        }
    }

    /// The byte that leads a record of this kind.
    pub fn tag(self) -> (r: u8)
        ensures
            r == self.spec_tag(),
    {
        match self {
            AccTypesWithVersion::YourPoolDataV1 => 2,
            AccTypesWithVersion::UserDataV1 => 3,
        }
    }
}

pub const YOUR_POOL_STORAGE_TOTAL_BYTES: usize = 374;

pub const USER_STORAGE_TOTAL_BYTES: usize = 98;

/// A pool record. Keys are 32-byte account addresses.
#[derive(Clone, Copy, Debug, PartialEq, Eq)]
pub struct YourPool {
    pub acc_type: u8,
    pub owner_wallet: [u8; 32],
    pub your_staking_vault: [u8; 32],
    pub your_staking_mint: [u8; 32],
    pub your_reward_vault: [u8; 32],
    pub your_reward_mint: [u8; 32],
    pub your_reward_rate: u64,
    pub your_reward_duration: u64,
    pub total_stake_last_update_time: u64,
    pub your_reward_per_token_stored: u128,
    pub user_stake_count: u32,
    pub pda_nonce: u8,
    pub funders: [[u8; 32]; 5],
    pub reward_duration_end: u64,
}

/// A participant record.
#[derive(Clone, Copy, Debug, PartialEq, Eq)]
pub struct User {
    pub acc_type: u8,
    pub user_wallet: [u8; 32],
    pub your_pool: [u8; 32],
    pub balance_your_staked: u64,
    pub nonce: u8,
    pub your_reward_per_token_pending: u64,
    pub your_reward_per_token_completed: u128,
}

/// What a pool record holds, with keys as byte sequences.
pub struct PoolModel {
    pub acc_type: u8,
    pub owner_wallet: Seq<u8>,
    pub your_staking_vault: Seq<u8>,
    pub your_staking_mint: Seq<u8>,
    pub your_reward_vault: Seq<u8>,
    pub your_reward_mint: Seq<u8>,
    pub your_reward_rate: u64,
    pub your_reward_duration: u64,
    pub total_stake_last_update_time: u64,
    pub your_reward_per_token_stored: u128,
    pub user_stake_count: u32,
    pub pda_nonce: u8,
    pub funders: Seq<Seq<u8>>,
    pub reward_duration_end: u64,
}

/// What a participant record holds, with keys as byte sequences.
pub struct UserModel {
    pub acc_type: u8,
    pub user_wallet: Seq<u8>,
    pub your_pool: Seq<u8>,
    pub balance_your_staked: u64,
    pub nonce: u8,
    pub your_reward_per_token_pending: u64,
    pub your_reward_per_token_completed: u128,
}

impl View for YourPool {
    type V = PoolModel;

    open spec fn view(&self) -> PoolModel {
        PoolModel {
            acc_type: self.acc_type,
            owner_wallet: self.owner_wallet@,
            your_staking_vault: self.your_staking_vault@,
            your_staking_mint: self.your_staking_mint@,
            your_reward_vault: self.your_reward_vault@,
            your_reward_mint: self.your_reward_mint@,
            your_reward_rate: self.your_reward_rate,
            your_reward_duration: self.your_reward_duration,
            total_stake_last_update_time: self.total_stake_last_update_time,
            your_reward_per_token_stored: self.your_reward_per_token_stored,
            user_stake_count: self.user_stake_count,
            pda_nonce: self.pda_nonce,
            funders: self.funders@.map_values(|k: [u8; 32]| k@),
            reward_duration_end: self.reward_duration_end,
        }
    }
}

impl View for User {
    type V = UserModel;

    open spec fn view(&self) -> UserModel {
        UserModel {
            acc_type: self.acc_type,
            user_wallet: self.user_wallet@,
            your_pool: self.your_pool@,
            balance_your_staked: self.balance_your_staked,
            nonce: self.nonce,
            your_reward_per_token_pending: self.your_reward_per_token_pending,
            your_reward_per_token_completed: self.your_reward_per_token_completed,
        }
    }
}

pub open spec fn is_key(k: Seq<u8>) -> bool {
    k.len() == 32
}

/// Every key of the model has the length of an address.
pub open spec fn pool_model_wf(m: PoolModel) -> bool {
    &&& is_key(m.owner_wallet)
    &&& is_key(m.your_staking_vault)
    &&& is_key(m.your_staking_mint)
    &&& is_key(m.your_reward_vault)
    &&& is_key(m.your_reward_mint)
    &&& m.funders.len() == 5
    &&& forall|i: int| 0 <= i < 5 ==> #[trigger] is_key(m.funders[i])
}

pub open spec fn user_model_wf(m: UserModel) -> bool {
    is_key(m.user_wallet) && is_key(m.your_pool)
}

/// The stored layout of a pool: its fields in order, integers little-endian.
pub open spec fn pool_encode(m: PoolModel) -> Seq<u8> {
    seq![m.acc_type] + m.owner_wallet + m.your_staking_vault + m.your_staking_mint
        + m.your_reward_vault + m.your_reward_mint + le_bytes(m.your_reward_rate as nat, 8)
        + le_bytes(m.your_reward_duration as nat, 8) + le_bytes(
        m.total_stake_last_update_time as nat,
        8,
    ) + le_bytes(m.your_reward_per_token_stored as nat, 16) + le_bytes(
        m.user_stake_count as nat,
        4,
    ) + seq![m.pda_nonce] + m.funders[0] + m.funders[1] + m.funders[2] + m.funders[3]
        + m.funders[4] + le_bytes(m.reward_duration_end as nat, 8)
}

/// The pool that a record of the pool layout's length holds.
pub open spec fn pool_decode(b: Seq<u8>) -> PoolModel {
    PoolModel {
        acc_type: b[0],
        owner_wallet: b.subrange(1, 33),
        your_staking_vault: b.subrange(33, 65),
        your_staking_mint: b.subrange(65, 97),
        your_reward_vault: b.subrange(97, 129),
        your_reward_mint: b.subrange(129, 161),
        your_reward_rate: le_value(b.subrange(161, 169)) as u64,
        your_reward_duration: le_value(b.subrange(169, 177)) as u64,
        total_stake_last_update_time: le_value(b.subrange(177, 185)) as u64,
        your_reward_per_token_stored: le_value(b.subrange(185, 201)) as u128,
        user_stake_count: le_value(b.subrange(201, 205)) as u32,
        pda_nonce: b[205],
        funders: seq![
            b.subrange(206, 238),
            b.subrange(238, 270),
            b.subrange(270, 302),
            b.subrange(302, 334),
            b.subrange(334, 366),
        ],
        reward_duration_end: le_value(b.subrange(366, 374)) as u64,
    }
}

/// The stored layout of a participant: its fields in order, integers little-endian.
pub open spec fn user_encode(m: UserModel) -> Seq<u8> {
    seq![m.acc_type] + m.user_wallet + m.your_pool + le_bytes(m.balance_your_staked as nat, 8)
        + seq![m.nonce] + le_bytes(m.your_reward_per_token_pending as nat, 8) + le_bytes(
        m.your_reward_per_token_completed as nat,
        16,
    )
}

/// The participant that a record of the participant layout's length holds.
pub open spec fn user_decode(b: Seq<u8>) -> UserModel {
    UserModel {
        acc_type: b[0],
        user_wallet: b.subrange(1, 33),
        your_pool: b.subrange(33, 65),
        balance_your_staked: le_value(b.subrange(65, 73)) as u64,
        nonce: b[73],
        your_reward_per_token_pending: le_value(b.subrange(74, 82)) as u64,
        your_reward_per_token_completed: le_value(b.subrange(82, 98)) as u128,
    }
}

proof fn lemma_join(b: Seq<u8>, i: int, j: int, k: int)
    requires
        0 <= i <= j <= k <= b.len(),
    ensures
        b.subrange(i, j) + b.subrange(j, k) == b.subrange(i, k),
{
    assert(b.subrange(i, j) + b.subrange(j, k) =~= b.subrange(i, k));
}

/// The integer field stored in `b[i..j]`, written back, gives the same bytes.
proof fn lemma_int_field(b: Seq<u8>, i: int, j: int)
    requires
        0 <= i <= j <= b.len(),
        j - i == 4 || j - i == 8 || j - i == 16,
    ensures
        le_value(b.subrange(i, j)) < crate::codec::pow256((j - i) as nat),
        le_bytes(le_value(b.subrange(i, j)), (j - i) as nat) == b.subrange(i, j),
        j - i == 4 ==> le_value(b.subrange(i, j)) <= u32::MAX,
        j - i == 8 ==> le_value(b.subrange(i, j)) <= u64::MAX,
        j - i == 16 ==> le_value(b.subrange(i, j)) <= u128::MAX,
{
    lemma_pow256_facts();
    lemma_le_value_bound(b.subrange(i, j));
    lemma_le_bytes_of_value(b.subrange(i, j));
}

/// Decoding any participant-sized record and encoding the result gives back
/// the same bytes.
pub proof fn lemma_user_bytes_round_trip(b: Seq<u8>)
    requires
        b.len() == USER_STORAGE_TOTAL_BYTES,
    ensures
        user_encode(user_decode(b)) == b,
{
    lemma_int_field(b, 65, 73);
    lemma_int_field(b, 74, 82);
    lemma_int_field(b, 82, 98);
    assert(seq![b[0]] =~= b.subrange(0, 1));
    assert(seq![b[73]] =~= b.subrange(73, 74));
    lemma_join(b, 0, 1, 33);
    lemma_join(b, 0, 33, 65);
    lemma_join(b, 0, 65, 73);
    lemma_join(b, 0, 73, 74);
    lemma_join(b, 0, 74, 82);
    lemma_join(b, 0, 82, 98);
    assert(b.subrange(0, 98) =~= b);
}

/// Encoding a participant and decoding the bytes gives back the participant.
pub proof fn lemma_user_model_round_trip(m: UserModel)
    requires
        user_model_wf(m),
    ensures
        user_decode(user_encode(m)) == m,
{
    lemma_pow256_facts();
    lemma_le_bytes_len(m.balance_your_staked as nat, 8);
    lemma_le_bytes_len(m.your_reward_per_token_pending as nat, 8);
    lemma_le_bytes_len(m.your_reward_per_token_completed as nat, 16);
    lemma_le_value_of_bytes(m.balance_your_staked as nat, 8);
    lemma_le_value_of_bytes(m.your_reward_per_token_pending as nat, 8);
    lemma_le_value_of_bytes(m.your_reward_per_token_completed as nat, 16);
    let e = user_encode(m);
    assert(e.subrange(1, 33) =~= m.user_wallet);
    assert(e.subrange(33, 65) =~= m.your_pool);
    assert(e.subrange(65, 73) =~= le_bytes(m.balance_your_staked as nat, 8));
    assert(e.subrange(74, 82) =~= le_bytes(m.your_reward_per_token_pending as nat, 8));
    assert(e.subrange(82, 98) =~= le_bytes(m.your_reward_per_token_completed as nat, 16));
}

/// Decoding any pool-sized record and encoding the result gives back the
/// same bytes.
#[verifier::rlimit(40)]
pub proof fn lemma_pool_bytes_round_trip(b: Seq<u8>)
    requires
        b.len() == YOUR_POOL_STORAGE_TOTAL_BYTES,
    ensures
        pool_encode(pool_decode(b)) == b,
{
    lemma_int_field(b, 161, 169);
    lemma_int_field(b, 169, 177);
    lemma_int_field(b, 177, 185);
    lemma_int_field(b, 185, 201);
    lemma_int_field(b, 201, 205);
    lemma_int_field(b, 366, 374);
    assert(seq![b[0]] =~= b.subrange(0, 1));
    assert(seq![b[205]] =~= b.subrange(205, 206));
    lemma_join(b, 0, 1, 33);
    lemma_join(b, 0, 33, 65);
    lemma_join(b, 0, 65, 97);
    lemma_join(b, 0, 97, 129);
    lemma_join(b, 0, 129, 161);
    lemma_join(b, 0, 161, 169);
    lemma_join(b, 0, 169, 177);
    lemma_join(b, 0, 177, 185);
    lemma_join(b, 0, 185, 201);
    lemma_join(b, 0, 201, 205);
    lemma_join(b, 0, 205, 206);
    lemma_join(b, 0, 206, 238);
    lemma_join(b, 0, 238, 270);
    lemma_join(b, 0, 270, 302);
    lemma_join(b, 0, 302, 334);
    lemma_join(b, 0, 334, 366);
    lemma_join(b, 0, 366, 374);
    assert(b.subrange(0, 374) =~= b);
}

/// Encoding a pool and decoding the bytes gives back the pool.
#[verifier::rlimit(40)]
pub proof fn lemma_pool_model_round_trip(m: PoolModel)
    requires
        pool_model_wf(m),
    ensures
        pool_decode(pool_encode(m)) == m,
{
    lemma_pow256_facts();
    lemma_le_bytes_len(m.your_reward_rate as nat, 8);
    lemma_le_bytes_len(m.your_reward_duration as nat, 8);
    lemma_le_bytes_len(m.total_stake_last_update_time as nat, 8);
    lemma_le_bytes_len(m.your_reward_per_token_stored as nat, 16);
    lemma_le_bytes_len(m.user_stake_count as nat, 4);
    lemma_le_bytes_len(m.reward_duration_end as nat, 8);
    lemma_le_value_of_bytes(m.your_reward_rate as nat, 8);
    lemma_le_value_of_bytes(m.your_reward_duration as nat, 8);
    lemma_le_value_of_bytes(m.total_stake_last_update_time as nat, 8);
    lemma_le_value_of_bytes(m.your_reward_per_token_stored as nat, 16);
    lemma_le_value_of_bytes(m.user_stake_count as nat, 4);
    lemma_le_value_of_bytes(m.reward_duration_end as nat, 8);
    assert(is_key(m.funders[0]) && is_key(m.funders[1]) && is_key(m.funders[2]));
    assert(is_key(m.funders[3]) && is_key(m.funders[4]));
    let e = pool_encode(m);
    assert(e.subrange(1, 33) =~= m.owner_wallet);
    assert(e.subrange(33, 65) =~= m.your_staking_vault);
    assert(e.subrange(65, 97) =~= m.your_staking_mint);
    assert(e.subrange(97, 129) =~= m.your_reward_vault);
    assert(e.subrange(129, 161) =~= m.your_reward_mint);
    assert(e.subrange(161, 169) =~= le_bytes(m.your_reward_rate as nat, 8));
    assert(e.subrange(169, 177) =~= le_bytes(m.your_reward_duration as nat, 8));
    assert(e.subrange(177, 185) =~= le_bytes(m.total_stake_last_update_time as nat, 8));
    assert(e.subrange(185, 201) =~= le_bytes(m.your_reward_per_token_stored as nat, 16));
    assert(e.subrange(201, 205) =~= le_bytes(m.user_stake_count as nat, 4));
    assert(e.subrange(206, 238) =~= m.funders[0]);
    assert(e.subrange(238, 270) =~= m.funders[1]);
    assert(e.subrange(270, 302) =~= m.funders[2]);
    assert(e.subrange(302, 334) =~= m.funders[3]);
    assert(e.subrange(334, 366) =~= m.funders[4]);
    assert(e.subrange(366, 374) =~= le_bytes(m.reward_duration_end as nat, 8));
    assert(pool_decode(e).funders =~= m.funders);
}

impl YourPool {
    /// Reads a pool from a record of the pool layout's length; the tag is
    /// left for the caller to check.
    pub fn unpack(b: &[u8]) -> (r: Result<YourPool, StakeError>)
        ensures
            r is Ok <==> b@.len() == YOUR_POOL_STORAGE_TOTAL_BYTES,
            r matches Ok(p) ==> p@ == pool_decode(b@),
            r matches Err(e) ==> e == StakeError::SchemaSizeMismatch,
    {
        if b.len() != YOUR_POOL_STORAGE_TOTAL_BYTES {
            return Err(StakeError::SchemaSizeMismatch);
        }
        proof {
            lemma_int_field(b@, 161, 169);
            lemma_int_field(b@, 169, 177);
            lemma_int_field(b@, 177, 185);
            lemma_int_field(b@, 185, 201);
            lemma_int_field(b@, 201, 205);
            lemma_int_field(b@, 366, 374);
        }
        let mut funders: [[u8; 32]; 5] = [[0u8; 32]; 5];
        funders[0] = read_key(b, 206);
        funders[1] = read_key(b, 238);
        funders[2] = read_key(b, 270);
        funders[3] = read_key(b, 302);
        funders[4] = read_key(b, 334);
        let p = YourPool {
            acc_type: b[0],
            owner_wallet: read_key(b, 1),
            your_staking_vault: read_key(b, 33),
            your_staking_mint: read_key(b, 65),
            your_reward_vault: read_key(b, 97),
            your_reward_mint: read_key(b, 129),
            your_reward_rate: read_le(b, 161, 8) as u64,
            your_reward_duration: read_le(b, 169, 8) as u64,
            total_stake_last_update_time: read_le(b, 177, 8) as u64,
            your_reward_per_token_stored: read_le(b, 185, 16),
            user_stake_count: read_le(b, 201, 4) as u32,
            pda_nonce: b[205],
            funders,
            reward_duration_end: read_le(b, 366, 8) as u64,
        };
        assert(p@.funders =~= pool_decode(b@).funders);
        Ok(p)
    }

    /// The record that stores this pool.
    pub fn pack(&self) -> (r: Vec<u8>)
        ensures
            r@ == pool_encode(self@),
            r@.len() == YOUR_POOL_STORAGE_TOTAL_BYTES,
    {
        let mut out: Vec<u8> = Vec::new();
        out.push(self.acc_type);
        write_key(&mut out, &self.owner_wallet);
        write_key(&mut out, &self.your_staking_vault);
        write_key(&mut out, &self.your_staking_mint);
        write_key(&mut out, &self.your_reward_vault);
        write_key(&mut out, &self.your_reward_mint);
        write_le(&mut out, self.your_reward_rate as u128, 8);
        write_le(&mut out, self.your_reward_duration as u128, 8);
        write_le(&mut out, self.total_stake_last_update_time as u128, 8);
        write_le(&mut out, self.your_reward_per_token_stored, 16);
        write_le(&mut out, self.user_stake_count as u128, 4);
        out.push(self.pda_nonce);
        write_key(&mut out, &self.funders[0]);
        write_key(&mut out, &self.funders[1]);
        write_key(&mut out, &self.funders[2]);
        write_key(&mut out, &self.funders[3]);
        write_key(&mut out, &self.funders[4]);
        write_le(&mut out, self.reward_duration_end as u128, 8);
        proof {
            lemma_le_bytes_len(self.your_reward_rate as nat, 8);
            lemma_le_bytes_len(self.your_reward_duration as nat, 8);
            lemma_le_bytes_len(self.total_stake_last_update_time as nat, 8);
            lemma_le_bytes_len(self.your_reward_per_token_stored as nat, 16);
            lemma_le_bytes_len(self.user_stake_count as nat, 4);
            lemma_le_bytes_len(self.reward_duration_end as nat, 8);
        }
        assert(out@ =~= pool_encode(self@));
        out
    }
}

impl User {
    /// Reads a participant from a record of the participant layout's length;
    /// the tag is left for the caller to check.
    pub fn unpack(b: &[u8]) -> (r: Result<User, StakeError>)
        ensures
            r is Ok <==> b@.len() == USER_STORAGE_TOTAL_BYTES,
            r matches Ok(u) ==> u@ == user_decode(b@),
            r matches Err(e) ==> e == StakeError::SchemaSizeMismatch,
    {
        if b.len() != USER_STORAGE_TOTAL_BYTES {
            return Err(StakeError::SchemaSizeMismatch);
        }
        proof {
            lemma_int_field(b@, 65, 73);
            lemma_int_field(b@, 74, 82);
            lemma_int_field(b@, 82, 98);
        }
        Ok(User {
            acc_type: b[0],
            user_wallet: read_key(b, 1),
            your_pool: read_key(b, 33),
            balance_your_staked: read_le(b, 65, 8) as u64,
            nonce: b[73],
            your_reward_per_token_pending: read_le(b, 74, 8) as u64,
            your_reward_per_token_completed: read_le(b, 82, 16),
        })
    }

    /// The record that stores this participant.
    pub fn pack(&self) -> (r: Vec<u8>)
        ensures
            r@ == user_encode(self@),
            r@.len() == USER_STORAGE_TOTAL_BYTES,
    {
        let mut out: Vec<u8> = Vec::new();
        out.push(self.acc_type);
        write_key(&mut out, &self.user_wallet);
        write_key(&mut out, &self.your_pool);
        write_le(&mut out, self.balance_your_staked as u128, 8);
        out.push(self.nonce);
        write_le(&mut out, self.your_reward_per_token_pending as u128, 8);
        write_le(&mut out, self.your_reward_per_token_completed, 16);
        proof {
            lemma_le_bytes_len(self.balance_your_staked as nat, 8);
            lemma_le_bytes_len(self.your_reward_per_token_pending as nat, 8);
            lemma_le_bytes_len(self.your_reward_per_token_completed as nat, 16);
        }
        assert(out@ =~= user_encode(self@));
        out
    }
}

} // verus!

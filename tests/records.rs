use stake_pool::error::StakeError;
use stake_pool::instruction::Instruction;
use stake_pool::state::{User, YourPool, USER_STORAGE_TOTAL_BYTES, YOUR_POOL_STORAGE_TOTAL_BYTES};

fn bytes(n: usize, seed: u32) -> Vec<u8> {
    let mut x = seed;
    (0..n)
        .map(|_| {
            x = x.wrapping_mul(1103515245).wrapping_add(12345);
            (x >> 16) as u8
        })
        .collect()
}

#[test]
fn pool_bytes_round_trip() {
    for seed in 0..20 {
        let b = bytes(YOUR_POOL_STORAGE_TOTAL_BYTES, seed);
        let p = YourPool::unpack(&b).unwrap();
        assert_eq!(p.pack(), b);
    }
}

#[test]
fn user_bytes_round_trip() {
    for seed in 0..20 {
        let b = bytes(USER_STORAGE_TOTAL_BYTES, seed);
        let u = User::unpack(&b).unwrap();
        assert_eq!(u.pack(), b);
    }
}

#[test]
fn pool_layout_matches_borsh_field_encoding() {
    let p = YourPool {
        acc_type: 2,
        owner_wallet: [1; 32],
        your_staking_vault: [2; 32],
        your_staking_mint: [3; 32],
        your_reward_vault: [4; 32],
        your_reward_mint: [5; 32],
        your_reward_rate: 0x0102030405060708,
        your_reward_duration: 86400,
        total_stake_last_update_time: 99,
        your_reward_per_token_stored: 0x0102030405060708090a0b0c0d0e0f10,
        user_stake_count: 0xaabbccdd,
        pda_nonce: 254,
        funders: [[6; 32], [7; 32], [8; 32], [9; 32], [10; 32]],
        reward_duration_end: u64::MAX,
    };
    let b = p.pack();
    assert_eq!(b.len(), 374);
    assert_eq!(b[0], 2);
    assert_eq!(&b[1..33], &[1u8; 32]);
    assert_eq!(b[161..169].to_vec(), borsh::to_vec(&p.your_reward_rate).unwrap());
    assert_eq!(b[185..201].to_vec(), borsh::to_vec(&p.your_reward_per_token_stored).unwrap());
    assert_eq!(b[201..205].to_vec(), borsh::to_vec(&p.user_stake_count).unwrap());
    assert_eq!(b[205], 254);
    assert_eq!(&b[334..366], &[10u8; 32]);
    assert_eq!(b[366..374].to_vec(), borsh::to_vec(&u64::MAX).unwrap());
    assert_eq!(YourPool::unpack(&b).unwrap(), p);
}

#[test]
fn user_layout_matches_borsh_field_encoding() {
    let u = User {
        acc_type: 3,
        user_wallet: [1; 32],
        your_pool: [2; 32],
        balance_your_staked: 500,
        nonce: 7,
        your_reward_per_token_pending: 42,
        your_reward_per_token_completed: 1 << 100,
    };
    let b = u.pack();
    assert_eq!(b.len(), 98);
    assert_eq!(b[65..73].to_vec(), borsh::to_vec(&500u64).unwrap());
    assert_eq!(b[73], 7);
    assert_eq!(b[74..82].to_vec(), borsh::to_vec(&42u64).unwrap());
    assert_eq!(b[82..98].to_vec(), borsh::to_vec(&(1u128 << 100)).unwrap());
    assert_eq!(User::unpack(&b).unwrap(), u);
}

#[test]
fn wrong_record_length_is_refused() {
    assert_eq!(YourPool::unpack(&bytes(373, 1)), Err(StakeError::SchemaSizeMismatch));
    assert_eq!(User::unpack(&bytes(99, 1)), Err(StakeError::SchemaSizeMismatch));
}

#[test]
fn instructions_decode() {
    let mut init = vec![0u8];
    init.extend_from_slice(&86400u64.to_le_bytes());
    init.push(9);
    assert_eq!(Instruction::unpack(&init), Ok(Instruction::InitializePool { reward_duration: 86400, pool_nonce: 9 }));
    assert_eq!(Instruction::unpack(&[1, 4]), Ok(Instruction::CreateUser { nonce: 4 }));
    let mut stake = vec![2u8];
    stake.extend_from_slice(&50u64.to_le_bytes());
    assert_eq!(Instruction::unpack(&stake), Ok(Instruction::Stake { amount_to_deposit: 50 }));
    stake[0] = 3;
    assert_eq!(Instruction::unpack(&stake), Ok(Instruction::Unstake { amount_to_withdraw: 50 }));
    assert_eq!(Instruction::unpack(&[4]), Ok(Instruction::ClaimRewards));
    assert_eq!(Instruction::unpack(&[5]), Ok(Instruction::ClosePool));
    assert_eq!(Instruction::unpack(&[6]), Ok(Instruction::CloseUser));
}

#[test]
fn malformed_instructions_are_refused() {
    for b in [vec![], vec![7u8], vec![4u8, 0], vec![2u8, 1, 2, 3], vec![1u8]] {
        assert_eq!(Instruction::unpack(&b), Err(StakeError::MalformedInstruction));
    }
}

use vstd::prelude::*;

use crate::codec::{le_value, lemma_pow256_facts, lemma_le_value_bound, read_le};
use crate::error::StakeError;

verus! {

/// An instruction of the pool program, decoded from its bytes: a leading
/// opcode and then its fields, integers little-endian.
#[derive(Clone, Copy, Debug, PartialEq, Eq, Structural)]
pub enum Instruction {
    InitializePool { reward_duration: u64, pool_nonce: u8 },
    CreateUser { nonce: u8 },
    Stake { amount_to_deposit: u64 },
    Unstake { amount_to_withdraw: u64 },
    ClaimRewards,
    ClosePool,
    CloseUser,
}

pub open spec fn le_u64_at(b: Seq<u8>, off: int) -> u64 {
    le_value(b.subrange(off, off + 8)) as u64
}

/// The instruction that bytes spell, if they spell one exactly.
pub open spec fn instruction_decode(b: Seq<u8>) -> Option<Instruction> {
    if b.len() == 0 {
        None
    } else if b[0] == 0 && b.len() == 10 {
        Some(Instruction::InitializePool { reward_duration: le_u64_at(b, 1), pool_nonce: b[9] })
    } else if b[0] == 1 && b.len() == 2 {
        Some(Instruction::CreateUser { nonce: b[1] })
    } else if b[0] == 2 && b.len() == 9 {
        Some(Instruction::Stake { amount_to_deposit: le_u64_at(b, 1) })
    } else if b[0] == 3 && b.len() == 9 {
        Some(Instruction::Unstake { amount_to_withdraw: le_u64_at(b, 1) })
    } else if b[0] == 4 && b.len() == 1 {
        Some(Instruction::ClaimRewards)
    } else if b[0] == 5 && b.len() == 1 {
        Some(Instruction::ClosePool)
    } else if b[0] == 6 && b.len() == 1 {
        Some(Instruction::CloseUser)
    } else {
        None
    }
}

fn read_u64(b: &[u8], off: usize) -> (r: u64)
    requires
        off + 8 <= b@.len(),
    ensures
        r == le_u64_at(b@, off as int),
{
    proof {
        lemma_pow256_facts();
        lemma_le_value_bound(b@.subrange(off as int, off + 8));
    }
    read_le(b, off, 8) as u64
}

impl Instruction {
    /// Decodes instruction bytes; an unknown opcode or a wrong length is
    /// refused.
    pub fn unpack(input: &[u8]) -> (r: Result<Instruction, StakeError>)
        ensures
            match r {
                Ok(i) => instruction_decode(input@) == Some(i),
                Err(e) => e == StakeError::MalformedInstruction && instruction_decode(input@) is None,
            },
    {
        let n: usize = input.len();
        if n == 0 {
            return Err(StakeError::MalformedInstruction);
        }
        let op: u8 = input[0];
        if op == 0 && n == 10 {
            Ok(Instruction::InitializePool { reward_duration: read_u64(input, 1), pool_nonce: input[9] })
        } else if op == 1 && n == 2 {
            Ok(Instruction::CreateUser { nonce: input[1] })
        } else if op == 2 && n == 9 {
            Ok(Instruction::Stake { amount_to_deposit: read_u64(input, 1) })
        } else if op == 3 && n == 9 {
            Ok(Instruction::Unstake { amount_to_withdraw: read_u64(input, 1) })
        } else if op == 4 && n == 1 {
            Ok(Instruction::ClaimRewards)
        } else if op == 5 && n == 1 {
            Ok(Instruction::ClosePool)
        } else if op == 6 && n == 1 {
            Ok(Instruction::CloseUser)
        } else {
            Err(StakeError::MalformedInstruction)
        }
    }
}

} // verus!

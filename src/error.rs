use vstd::prelude::*;

verus! {

/// Every way an instruction can be refused.
#[derive(Clone, Copy, Debug, PartialEq, Eq, Structural)]
pub enum StakeError {
    /// A required signer did not sign.
    MissingAuthority,
    /// The presented token program is not the expected one.
    InvalidServiceReference,
    /// A record's length differs from its layout's length.
    SchemaSizeMismatch,
    /// A record's leading tag names another kind of record.
    RecordKindMismatch,
    /// A record belongs to another wallet or another pool.
    OwnerMismatch,
    /// A vault is not the pool's vault, is not held by the pool's custodian,
    /// or does not hold a token account.
    VaultMismatch,
    /// The pool still has participants, stake, or running rewards.
    PoolStillActive,
    /// A checked arithmetic step overflowed or underflowed.
    AmountOverflow,
    /// An amount of zero was requested.
    ZeroAmount,
    /// An unstake asks for more than is staked.
    InsufficientBalance,
    /// A participant still holds stake or unclaimed rewards.
    NonZeroBalanceOnClose,
    /// An address is not the one derived from its seeds.
    AddressDerivationMismatch,
    /// The instruction bytes or its account list cannot be read.
    MalformedInstruction,
    /// The reward duration is below the minimum.
    InvalidDuration,
}

} // verus!

use vstd::prelude::*;

use crate::error::StakeError;
use crate::state::{
    pool_decode, user_decode, AccTypesWithVersion, User, YourPool, USER_STORAGE_TOTAL_BYTES,
    YOUR_POOL_STORAGE_TOTAL_BYTES,
};

verus! {

/// An account as the host presents it to an instruction.
#[derive(Clone, Debug)]
pub struct AccountView {
    pub key: [u8; 32],
    pub is_signer: bool,
    pub owner: [u8; 32],
    pub lamports: u64,
    pub data: Vec<u8>,
}

/// Whether two keys are the same address.
pub fn keys_equal(a: &[u8; 32], b: &[u8; 32]) -> (r: bool)
    ensures
        r == (a@ == b@),
{
    let mut i: usize = 0;
    while i < 32
        invariant
            i <= 32,
            forall|j: int| 0 <= j < i ==> a@[j] == b@[j],
        decreases 32 - i,
    {
        if a[i] != b[i] {
            return false;
        }
        i = i + 1;
    }
    assert(a@ =~= b@);
    true
}

/// Bytes that hold a pool record: the pool layout's length and the pool tag.
pub open spec fn pool_record_ok(d: Seq<u8>) -> bool {
    d.len() == YOUR_POOL_STORAGE_TOTAL_BYTES && d[0] == AccTypesWithVersion::YourPoolDataV1.spec_tag()
}

/// Bytes that hold a participant record.
pub open spec fn user_record_ok(d: Seq<u8>) -> bool {
    d.len() == USER_STORAGE_TOTAL_BYTES && d[0] == AccTypesWithVersion::UserDataV1.spec_tag()
}

/// Why bytes are not a pool record: the length first, then the tag.
pub open spec fn pool_record_error(d: Seq<u8>) -> StakeError {
    if d.len() != YOUR_POOL_STORAGE_TOTAL_BYTES {
        StakeError::SchemaSizeMismatch
    } else {
        StakeError::RecordKindMismatch
    }
}

pub open spec fn user_record_error(d: Seq<u8>) -> StakeError {
    if d.len() != USER_STORAGE_TOTAL_BYTES {
        StakeError::SchemaSizeMismatch
    } else {
        StakeError::RecordKindMismatch
    }
}

/// Reads a pool record after checking its length and its tag.
pub fn load_pool(data: &[u8]) -> (r: Result<YourPool, StakeError>)
    ensures
        r is Ok <==> pool_record_ok(data@),
        r matches Ok(p) ==> p@ == pool_decode(data@),
        r matches Err(e) ==> e == pool_record_error(data@),
{
    let pool = YourPool::unpack(data)?;
    if pool.acc_type != AccTypesWithVersion::YourPoolDataV1.tag() {
        return Err(StakeError::RecordKindMismatch);
    }
    Ok(pool)
}

/// Reads a participant record after checking its length and its tag.
pub fn load_user(data: &[u8]) -> (r: Result<User, StakeError>)
    ensures
        r is Ok <==> user_record_ok(data@),
        r matches Ok(u) ==> u@ == user_decode(data@),
        r matches Err(e) ==> e == user_record_error(data@),
{
    let user = User::unpack(data)?;
    if user.acc_type != AccTypesWithVersion::UserDataV1.tag() {
        return Err(StakeError::RecordKindMismatch);
    }
    Ok(user)
}

} // verus!

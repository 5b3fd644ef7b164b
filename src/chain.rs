use vstd::prelude::*;

use solana_program::program_error::ProgramError;
use solana_program::program_pack::Pack;
use solana_program::pubkey::Pubkey;

use crate::codec::le_value;

verus! {

#[verifier::external_type_specification]
#[verifier::external_body]
pub struct ExProgramError(ProgramError);

/// The address derived from `seeds` under `program_id` with the bump byte
/// that found it, or `None` where no bump gives an address.
pub uninterp spec fn program_address(seeds: Seq<Seq<u8>>, program_id: Seq<u8>) -> Option<(Seq<u8>, u8)>;

/// Relies on `Pubkey::try_find_program_address`: a search over bump bytes
/// whose outcome depends on the seeds and the program id alone.
#[verifier::external_body]
pub(crate) fn find_program_address(seeds: &Vec<Vec<u8>>, program_id: &[u8; 32]) -> (r: Option<([u8; 32], u8)>)
    ensures
        match r {
            Some((k, n)) => program_address(seeds.deep_view(), program_id@) == Some((k@, n)),
            None => program_address(seeds.deep_view(), program_id@) is None,
        },
{
    let s: Vec<&[u8]> = seeds.iter().map(|x| x.as_slice()).collect();
    let id = Pubkey::new_from_array(*program_id);
    Pubkey::try_find_program_address(&s, &id).map(|(k, n)| (k.to_bytes(), n))
}

/// The address of the token program.
pub open spec fn token_program_key() -> Seq<u8> {
    seq![
        6u8, 221, 246, 225, 215, 101, 161, 147, 217, 203, 225, 70, 206, 235, 121, 172,
        28, 180, 133, 237, 95, 91, 55, 145, 58, 140, 245, 133, 126, 255, 0, 169,
    ]
}

/// Relies on `spl_token::id`: the token program's fixed address.
#[verifier::external_body]
pub(crate) fn token_program_id() -> (r: [u8; 32])
    ensures
        r@ == token_program_key(),
{
    spl_token::id().to_bytes()
}

/// An optional-value tag of the token account layout: none or some.
pub open spec fn option_tag_valid(t: Seq<u8>) -> bool {
    t == seq![0u8, 0, 0, 0] || t == seq![1u8, 0, 0, 0]
}

/// Bytes that the token program reads as an initialized token account:
/// the layout's length, an initialized or frozen state, and well-formed
/// optional fields.
pub open spec fn token_account_valid(d: Seq<u8>) -> bool {
    &&& d.len() == 165
    &&& (d[108] == 1 || d[108] == 2)
    &&& option_tag_valid(d.subrange(72, 76))
    &&& option_tag_valid(d.subrange(109, 113))
    &&& option_tag_valid(d.subrange(129, 133))
}

/// Relies on `spl_token::state::Account::unpack`: the owner at bytes 32..64
/// and the little-endian amount at bytes 64..72 of a valid token account.
#[verifier::external_body]
pub(crate) fn unpack_token_account(data: &[u8]) -> (r: Result<([u8; 32], u64), ProgramError>)
    ensures
        r is Ok <==> token_account_valid(data@),
        r matches Ok((owner, amount)) ==> owner@ == data@.subrange(32, 64) && amount as nat
            == le_value(data@.subrange(64, 72)),
{
    spl_token::state::Account::unpack(data).map(|a| (a.owner.to_bytes(), a.amount))
}

} // verus!

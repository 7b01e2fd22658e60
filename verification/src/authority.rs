use vstd::prelude::*;

use crate::account::AccountId;

verus! {

/// The outcome of deriving the escrow authority for the record stored at
/// `escrow_key` under the protocol deployed at `program_id`: the authority's
/// 32-byte address together with the bump seed that completes its derivation
/// proof, or `None` in the statistically improbable event that no bump seed
/// is viable. The derivation is a pure function of exactly these two values.
pub uninterp spec fn authority_of(escrow_key: Seq<u8>, program_id: Seq<u8>) -> Option<
    (Seq<u8>, u8),
>;

/// Relies on solana_program's Pubkey::try_find_program_address: over the
/// seeds [b"escrow", escrow_key] it is a deterministic derivation, a pure
/// function of the seed bytes and the program id, and the address it finds
/// lies off the signing curve, so no private key for it exists. It returns
/// `None` only when no bump seed is viable, never panicking for these two
/// seeds (fewer than the seed-count limit, each within the length limit).
#[verifier::external_body]
fn derive_authority(escrow_key: &AccountId, program_id: &AccountId) -> (r: Option<(
    AccountId,
    u8,
)>)
    ensures
        r is Some <==> authority_of(escrow_key@, program_id@) is Some,
        r matches Some(a) ==> authority_of(escrow_key@, program_id@) == Some((a.0@, a.1)),
{
    let program = solana_program::pubkey::Pubkey::new_from_array(program_id.bytes);
    let seeds: [&[u8]; 2] = [b"escrow".as_slice(), escrow_key.bytes.as_slice()];
    match solana_program::pubkey::Pubkey::try_find_program_address(&seeds, &program) {
        Some((address, bump)) => Some((AccountId { bytes: address.to_bytes() }, bump)),
        None => None,
    }
}

/// Derives the escrow authority for the record stored at `escrow_key`: the
/// only identity the ledger accepts for outbound transfers from the record's
/// held account. It is a pure function of the record's identity, so the
/// settlement logic can reproduce it without any stored secret, and no party
/// off the record can forge it. Returns the authority's address together
/// with the bump seed that completes its derivation proof; it returns `None`
/// exactly when the derivation finds no viable bump seed, a statistically
/// improbable event.
pub fn escrow_authority(escrow_key: &AccountId, program_id: &AccountId) -> (r: Option<(
    AccountId,
    u8,
)>)
    ensures
        r is Some <==> authority_of(escrow_key@, program_id@) is Some,
        r matches Some(a) ==> authority_of(escrow_key@, program_id@) == Some((a.0@, a.1)),
{
    derive_authority(escrow_key, program_id)
}

} // verus!

//! Deterministic account-address derivation.
//!
//! An address derived from a namespace tag and a seed is guaranteed to lie off
//! the ledger's native signing curve, so no externally held private key can
//! ever control it. The auxiliary byte that pushes the candidate off the curve
//! is the bump.

use vstd::prelude::*;
use crate::address::Address;
use crate::error::DeriveError;

verus! {

/// Whether the scan over bump values finds an off-curve address for this
/// namespace, seed and program id.
pub uninterp spec fn derivation_found(namespace: Seq<u8>, seed: Seq<u8>, program: Seq<u8>) -> bool;

/// The derived 32-byte address, for inputs on which the scan succeeds.
pub uninterp spec fn derived_key(namespace: Seq<u8>, seed: Seq<u8>, program: Seq<u8>) -> Seq<u8>;

/// The bump found by the scan, for inputs on which it succeeds.
pub uninterp spec fn derived_bump(namespace: Seq<u8>, seed: Seq<u8>, program: Seq<u8>) -> u8;

/// Relies on solana_pubkey::Pubkey::try_find_program_address: scanning from a
/// fixed upper bound downward, it returns the first (address, bump) whose
/// address is not a valid curve point, or None if no bump in range works. The
/// result is a deterministic function of the seeds and the program id alone,
/// and the returned address is 32 bytes.
#[verifier::external_body]
pub(crate) fn find_derived(namespace: &Vec<u8>, seed: &Vec<u8>, program: &Vec<u8>) -> (r: Option<
    (Vec<u8>, u8),
>)
    requires
        program@.len() == 32,
    ensures
        r is Some <==> derivation_found(namespace@, seed@, program@),
        r matches Some(p) ==> p.0@ == derived_key(namespace@, seed@, program@)
            && p.0@.len() == 32 && p.1 == derived_bump(namespace@, seed@, program@),
{
    let mut arr = [0u8; 32];
    arr.copy_from_slice(program.as_slice());
    let pid = solana_pubkey::Pubkey::new_from_array(arr);
    let seeds: [&[u8]; 2] = [namespace.as_slice(), seed.as_slice()];
    solana_pubkey::Pubkey::try_find_program_address(&seeds, &pid)
        .map(|(key, bump)| (key.to_bytes().to_vec(), bump))
}

/// Compute the deterministic account address for `namespace` and `seed` under
/// `program`, together with the bump that pushed it off the signing curve.
///
/// For fixed inputs the result is always the same pair; the only failure is an
/// exhausted bump scan.
pub fn derive_address(namespace: &Vec<u8>, seed: &Vec<u8>, program: &Address) -> (r: Result<
    (Address, u8),
    DeriveError,
>)
    requires
        program.wf(),
    ensures
        r is Ok <==> derivation_found(namespace@, seed@, program@),
        r matches Ok(p) ==> p.0@ == derived_key(namespace@, seed@, program@) && p.0.wf() && p.1
            == derived_bump(namespace@, seed@, program@),
        r is Err ==> r == Err::<(Address, u8), DeriveError>(DeriveError::DerivationExhausted),
{
    match find_derived(namespace, seed, &program.bytes) {
        Some((key, bump)) => Ok((Address { bytes: key }, bump)),
        None => Err(DeriveError::DerivationExhausted),
    }
}

} // verus!

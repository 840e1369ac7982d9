//! Program-derived addresses.
use vstd::prelude::*;

verus! {

/// The program address that `pinocchio_pubkey` derives from the seeds
/// `[prefix, key, [bump]]` under `program_id`: the SHA-256 hash of the seeds,
/// the program id and the PDA marker.
pub uninterp spec fn derived_address(prefix: Seq<u8>, key: Seq<u8>, bump: u8, program_id: Seq<u8>) -> Seq<u8>;

/// Derives the address of the seeds `[prefix, key, [bump]]`, with no separate
/// bump, under `program_id`, by `pinocchio_pubkey::derive_address_const`.
/// Trusted: the result is `derived_address` of the arguments; the function
/// hashes its arguments and nothing else, and does not check that the address
/// is off the curve.
#[verifier::external_body]
pub(crate) fn derive_address(prefix: &[u8], key: &[u8; 32], bump: u8, program_id: &[u8; 32]) -> (address: [u8; 32])
    ensures
        address@ == derived_address(prefix@, key@, bump, program_id@),
{
    let bump_seed = [bump];
    pinocchio_pubkey::derive_address_const(&[prefix, key.as_slice(), bump_seed.as_slice()], None, program_id)
}

} // verus!

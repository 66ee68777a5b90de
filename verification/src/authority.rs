//! The program-derived signing authority.
//!
//! Every position this system opens is owned by one deterministic address,
//! derived from a single fixed seed and the deploying program's address.  No
//! private key for it exists anywhere: at harvest time the workflow proves
//! control structurally, by supplying the same seed and derivation salt, and
//! the ledger re-derives the address and accepts it as a signer for that one
//! call.  The derivation itself is the ledger SDK's hash-based search; its
//! result is named, not restated, and everything downstream is verified
//! against that name.

use vstd::prelude::*;
use crate::account::Address;
use crate::DeployError;

verus! {

/// What the ledger SDK's program-derived-address search returns for a seed
/// and a program address: the derived address and its salt, or nothing in
/// the statistically improbable case that no salt yields a valid address.
pub uninterp spec fn pda_of(seed: Seq<u8>, program: Address) -> Option<(Address, u8)>;

/// The capability value that authorizes harvest calls: the derived authority
/// address together with the salt that re-derives it.  It is produced once
/// by [`derive_signing_authority`] and threaded explicitly through any call
/// that signs as the authority.
#[derive(Clone, Copy, PartialEq, Eq, Structural, Debug)]
pub struct SigningAuthority {
    pub address: Address,
    pub bump: u8,
}

/// The fixed seed the signing authority is derived from, as bytes:
/// `position_nft_owner_pda`.
pub open spec fn authority_seed() -> Seq<u8> {
    seq![
        112u8, 111u8, 115u8, 105u8, 116u8, 105u8, 111u8, 110u8, 95u8, 110u8, 102u8, 116u8, 95u8,
        111u8, 119u8, 110u8, 101u8, 114u8, 95u8, 112u8, 100u8, 97u8,
    ]
}

/// Builds the fixed derivation seed.  The dispatching shell also passes these
/// bytes, together with the salt, as the signer proof of a harvest call.
pub fn authority_seed_bytes() -> (seed: Vec<u8>)
    ensures
        seed@ == authority_seed(),
{
    let mut seed: Vec<u8> = Vec::new();
    seed.push(112u8);
    seed.push(111u8);
    seed.push(115u8);
    seed.push(105u8);
    seed.push(116u8);
    seed.push(105u8);
    seed.push(111u8);
    seed.push(110u8);
    seed.push(95u8);
    seed.push(110u8);
    seed.push(102u8);
    seed.push(116u8);
    seed.push(95u8);
    seed.push(111u8);
    seed.push(119u8);
    seed.push(110u8);
    seed.push(101u8);
    seed.push(114u8);
    seed.push(95u8);
    seed.push(112u8);
    seed.push(100u8);
    seed.push(97u8);
    proof {
        assert(seed@ =~= authority_seed());
    }
    seed
}

/// Relies on `solana_program::pubkey::Pubkey::try_find_program_address`: the
/// search is a pure function of the seeds and the program address, returns
/// the first valid derived address with the highest viable salt, and returns
/// `None` only in the statistically improbable case that no salt is viable.
#[verifier::external_body]
fn find_authority_address(seed: &Vec<u8>, program: &Address) -> (r: Option<(Address, u8)>)
    ensures
        r == pda_of(seed@, *program),
{
    let mut bytes = [0u8; 32];
    bytes[..16].copy_from_slice(&program.lo.to_le_bytes());
    bytes[16..].copy_from_slice(&program.hi.to_le_bytes());
    let program_key = solana_program::pubkey::Pubkey::from(bytes);
    let (address, bump) = solana_program::pubkey::Pubkey::try_find_program_address(
        &[seed.as_slice()],
        &program_key,
    )?;
    let out = address.to_bytes();
    let lo = u128::from_le_bytes(out[..16].try_into().unwrap());
    let hi = u128::from_le_bytes(out[16..].try_into().unwrap());
    Some((Address { lo, hi }, bump))
}

/// Derives the signing authority for the deploying program: the one
/// well-known address, from the one fixed seed, reused as the owning
/// authority of every position this system ever opens.
pub fn derive_signing_authority(program: &Address) -> (r: Result<SigningAuthority, DeployError>)
    ensures
        match r {
            Ok(auth) => pda_of(authority_seed(), *program) == Some((auth.address, auth.bump)),
            Err(e) => e == DeployError::NoViableAuthorityBump && pda_of(
                authority_seed(),
                *program,
            ) is None,
        },
{
    let seed = authority_seed_bytes();
    match find_authority_address(&seed, program) {
        Some((address, bump)) => Ok(SigningAuthority { address, bump }),
        None => Err(DeployError::NoViableAuthorityBump),
    }
}

} // verus!

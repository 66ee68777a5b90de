use token_deployer::account::Address;
use token_deployer::authority::{authority_seed_bytes, derive_signing_authority};

fn addr(n: u128) -> Address {
    Address { lo: n, hi: 7000 + n }
}

#[test]
fn seed_bytes_spell_the_fixed_seed() {
    assert_eq!(authority_seed_bytes(), b"position_nft_owner_pda".to_vec());
}

#[test]
fn derivation_is_deterministic() {
    let program = addr(1);
    let a = derive_signing_authority(&program).unwrap();
    let b = derive_signing_authority(&program).unwrap();
    assert_eq!(a, b);
}

#[test]
fn derivation_depends_on_the_program() {
    let a = derive_signing_authority(&addr(1)).unwrap();
    let b = derive_signing_authority(&addr(2)).unwrap();
    assert_ne!(a.address, b.address);
}

#[test]
fn derived_address_is_not_the_program() {
    let program = addr(3);
    let auth = derive_signing_authority(&program).unwrap();
    assert_ne!(auth.address, program);
}

#[test]
fn derivation_round_trips_through_the_ledger_sdk() {
    // The derived address must be exactly what the ledger SDK computes for
    // the same seed and program, so the ledger will accept the seed-based
    // signature at harvest time.
    let program = addr(4);
    let mut bytes = [0u8; 32];
    bytes[..16].copy_from_slice(&program.lo.to_le_bytes());
    bytes[16..].copy_from_slice(&program.hi.to_le_bytes());
    let program_key = solana_program::pubkey::Pubkey::from(bytes);
    let (expected, expected_bump) = solana_program::pubkey::Pubkey::find_program_address(
        &[b"position_nft_owner_pda"],
        &program_key,
    );
    let auth = derive_signing_authority(&program).unwrap();
    assert_eq!(auth.bump, expected_bump);
    let out = expected.to_bytes();
    assert_eq!(auth.address.lo, u128::from_le_bytes(out[..16].try_into().unwrap()));
    assert_eq!(auth.address.hi, u128::from_le_bytes(out[16..].try_into().unwrap()));
}

// PDA derivation and seed construction.

use treasury::account::AccountId;
use treasury::account::ProgramId;
use treasury::pda::compute_multisig_state_pda;
use treasury::pda::compute_treasury_state_pda;
use treasury::pda::compute_vault_holding_pda;
use treasury::pda::constant_seed;
use treasury::pda::derive_pda;
use treasury::pda::multisig_state_pda_seed;
use treasury::pda::treasury_state_pda_seed;
use treasury::pda::vault_holding_pda_seed;
use treasury::state::TreasuryState;

fn expected_digest(a: &[u8; 32], b: &[u8; 32]) -> [u8; 32] {
    let mut hasher = <sha2::Sha256 as sha2::Digest>::new();
    sha2::Digest::update(&mut hasher, a);
    sha2::Digest::update(&mut hasher, b);
    sha2::Digest::finalize(hasher).into()
}

// A small deterministic pseudo-random byte generator for seed pairs.
fn next_key(state: &mut u64) -> [u8; 32] {
    let mut key = [0u8; 32];
    for chunk in key.chunks_mut(8) {
        *state = state.wrapping_mul(6364136223846793005).wrapping_add(1442695040888963407);
        chunk.copy_from_slice(&state.to_le_bytes());
    }
    key
}

#[test]
fn test_derive_deterministic() {
    let program = ProgramId::new([3u8; 32]);
    let seed = vault_holding_pda_seed(&AccountId::new([9u8; 32]));
    let a = derive_pda(&program, &seed);
    let b = derive_pda(&program, &seed);
    assert_eq!(a.bytes, b.bytes);
}

#[test]
fn test_derive_distinct_over_random_seed_pairs() {
    // derive(P, S1) != derive(P, S2) for S1 != S2, over many random pairs.
    let program = ProgramId::new([3u8; 32]);
    let mut rng: u64 = 42;
    for _ in 0..200 {
        let s1 = next_key(&mut rng);
        let s2 = next_key(&mut rng);
        assert_ne!(s1, s2);
        let a = derive_pda(&program, &treasury::account::PdaSeed::new(s1));
        let b = derive_pda(&program, &treasury::account::PdaSeed::new(s2));
        assert_ne!(a.bytes, b.bytes);
    }
}

#[test]
fn test_derive_matches_sha256_of_program_and_seed() {
    // The derivation is exactly the SHA-256 digest of the program
    // identity followed by the seed.
    let program = ProgramId::new([0x10; 32]);
    let seed = treasury::account::PdaSeed::new([0x20; 32]);
    let id = derive_pda(&program, &seed);
    assert_eq!(id.bytes, expected_digest(&[0x10; 32], &[0x20; 32]));
}

#[test]
fn test_constant_seed_pads_with_zero_bytes() {
    let seed = constant_seed(b"treasury_state").unwrap();
    let mut expected = [0u8; 32];
    expected[..14].copy_from_slice(b"treasury_state");
    assert_eq!(seed.bytes, expected);
    assert_eq!(treasury_state_pda_seed().bytes, expected);

    let mut expected = [0u8; 32];
    expected[..14].copy_from_slice(b"multisig_state");
    assert_eq!(multisig_state_pda_seed().bytes, expected);
}

#[test]
fn test_constant_seed_rejects_long_tag() {
    assert!(constant_seed(&[7u8; 33]).is_none());
    assert!(constant_seed(&[7u8; 32]).is_some());
}

#[test]
fn test_compute_pdas() {
    let program = ProgramId::new([5u8; 32]);
    let treasury_id = compute_treasury_state_pda(&program);
    assert_eq!(
        treasury_id.bytes,
        expected_digest(&[5u8; 32], &treasury_state_pda_seed().bytes)
    );
    let multisig_id = compute_multisig_state_pda(&program);
    assert_eq!(
        multisig_id.bytes,
        expected_digest(&[5u8; 32], &multisig_state_pda_seed().bytes)
    );
    let definition = AccountId::new([9u8; 32]);
    let vault_id = compute_vault_holding_pda(&program, &definition);
    assert_eq!(vault_id.bytes, expected_digest(&[5u8; 32], &[9u8; 32]));
}

#[test]
fn test_treasury_record_roundtrip() {
    let state = TreasuryState { vault_count: 12, authorized_accounts: vec![[1u8; 32], [2u8; 32]] };
    let bytes = state.serialize();
    let back = TreasuryState::deserialize(&bytes).unwrap();
    assert_eq!(back.vault_count, 12);
    assert_eq!(back.authorized_accounts, vec![[1u8; 32], [2u8; 32]]);
}

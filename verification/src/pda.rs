//! Program-derived addresses: deterministic derivation of an account
//! identifier from a program identity and a fixed 32-byte seed.
//!
//! `derive(program, seed)` is a pure function — the same pair always yields
//! the same identifier — and collision resistance comes from the underlying
//! cryptographic digest.  A seed is either a short ASCII tag right-padded
//! with zero bytes (rejected if longer than 32 bytes) or the raw identifier
//! of another account, which binds a vault's address to the token
//! definition it holds.

use vstd::prelude::*;
use crate::account::AccountId;
use crate::account::PdaSeed;
use crate::account::ProgramId;

verus! {

/// The 32-byte digest a PDA is: a function of the program identity's bytes
/// followed by the seed's bytes, and of nothing else.
pub uninterp spec fn pda_digest(program: Seq<u8>, seed: Seq<u8>) -> Seq<u8>;

/// Relies on sha2::Sha256 (new/update/finalize): the 32-byte digest of the
/// program identity followed by the seed depends on those bytes alone.
#[verifier::external_body]
fn sha256_pair(a: &[u8; 32], b: &[u8; 32]) -> (r: [u8; 32])
    ensures
        r@ == pda_digest(a@, b@),
{
    let mut hasher = <sha2::Sha256 as sha2::Digest>::new();
    sha2::Digest::update(&mut hasher, a);
    sha2::Digest::update(&mut hasher, b);
    sha2::Digest::finalize(hasher).into()
}

/// A tag right-padded with zero bytes to 32 bytes.
pub open spec fn padded_tag(tag: Seq<u8>) -> Seq<u8> {
    tag + Seq::new((32 - tag.len()) as nat, |i: int| 0u8)
}

/// The constant seed of the treasury state PDA: the ASCII tag
/// "treasury_state", zero-padded.
pub open spec fn treasury_state_seed() -> Seq<u8> {
    padded_tag(
        seq![
            116u8, 114u8, 101u8, 97u8, 115u8, 117u8, 114u8, 121u8, 95u8, 115u8, 116u8, 97u8,
            116u8, 101u8,
        ],
    )
}

/// The constant seed of the multisig state PDA: the ASCII tag
/// "multisig_state", zero-padded.
pub open spec fn multisig_state_seed() -> Seq<u8> {
    padded_tag(
        seq![
            109u8, 117u8, 108u8, 116u8, 105u8, 115u8, 105u8, 103u8, 95u8, 115u8, 116u8, 97u8,
            116u8, 101u8,
        ],
    )
}

/// Build a seed from a short ASCII tag, right-padded with zero bytes.
/// The one failure mode of seed construction: a tag longer than 32 bytes
/// is rejected.
pub fn constant_seed(tag: &[u8]) -> (r: Option<PdaSeed>)
    ensures
        tag@.len() <= 32 ==> (r matches Some(s) && s@ == padded_tag(tag@)),
        tag@.len() > 32 ==> r is None,
{
    let n = tag.len();
    if n > 32 {
        return None;
    }
    let mut bytes: [u8; 32] = [0u8; 32];
    let mut i: usize = 0;
    while i < n
        invariant
            i <= n <= 32,
            n == tag@.len(),
            forall|j: int| 0 <= j < i ==> bytes@[j] == tag@[j],
            forall|j: int| i <= j < 32 ==> bytes@[j] == 0,
        decreases n - i,
    {
        bytes[i] = tag[i];
        i += 1;
    }
    assert(bytes@ =~= padded_tag(tag@));
    Some(PdaSeed::new(bytes))
}

/// The seed of the treasury state PDA, for chained-call authorization.
pub fn treasury_state_pda_seed() -> (r: PdaSeed)
    ensures
        r@ == treasury_state_seed(),
{
    let tag: Vec<u8> = vec![116, 114, 101, 97, 115, 117, 114, 121, 95, 115, 116, 97, 116, 101];
    let seed = constant_seed(tag.as_slice()).unwrap();
    assert(seed@ =~= treasury_state_seed());
    seed
}

/// The seed of the multisig state PDA, for chained-call authorization.
pub fn multisig_state_pda_seed() -> (r: PdaSeed)
    ensures
        r@ == multisig_state_seed(),
{
    let tag: Vec<u8> = vec![109, 117, 108, 116, 105, 115, 105, 103, 95, 115, 116, 97, 116, 101];
    let seed = constant_seed(tag.as_slice()).unwrap();
    assert(seed@ =~= multisig_state_seed());
    seed
}

/// The seed of a vault holding PDA: the raw identifier of the token
/// definition the vault holds.
pub fn vault_holding_pda_seed(token_definition_id: &AccountId) -> (r: PdaSeed)
    ensures
        r@ == token_definition_id@,
{
    PdaSeed::new(*token_definition_id.value())
}

/// Derive the account identifier of a PDA.
pub fn derive_pda(program_id: &ProgramId, seed: &PdaSeed) -> (r: AccountId)
    ensures
        r@ == pda_digest(program_id@, seed@),
{
    AccountId::new(sha256_pair(&program_id.bytes, &seed.bytes))
}

/// The treasury state PDA of a treasury program.
pub fn compute_treasury_state_pda(treasury_program_id: &ProgramId) -> (r: AccountId)
    ensures
        r@ == pda_digest(treasury_program_id@, treasury_state_seed()),
{
    let seed = treasury_state_pda_seed();
    derive_pda(treasury_program_id, &seed)
}

/// The multisig state PDA of a treasury program.
pub fn compute_multisig_state_pda(treasury_program_id: &ProgramId) -> (r: AccountId)
    ensures
        r@ == pda_digest(treasury_program_id@, multisig_state_seed()),
{
    let seed = multisig_state_pda_seed();
    derive_pda(treasury_program_id, &seed)
}

/// The vault holding PDA for a given token definition.
pub fn compute_vault_holding_pda(
    treasury_program_id: &ProgramId,
    token_definition_id: &AccountId,
) -> (r: AccountId)
    ensures
        r@ == pda_digest(treasury_program_id@, token_definition_id@),
{
    let seed = vault_holding_pda_seed(token_definition_id);
    derive_pda(treasury_program_id, &seed)
}

/// Derivation is deterministic: the same program identity and seed always
/// yield the same identifier.  (That different seeds yield different
/// identifiers is the digest's collision resistance, stated by no contract
/// here and exercised by tests over many seed pairs.)
pub proof fn lemma_pda_deterministic(p1: Seq<u8>, s1: Seq<u8>, p2: Seq<u8>, s2: Seq<u8>)
    requires
        p1 == p2,
        s1 == s2,
    ensures
        pda_digest(p1, s1) == pda_digest(p2, s2),
{
}

} // verus!

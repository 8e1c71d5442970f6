//! The instructions the treasury program understands: a tagged union with
//! one case per operation, dispatched totally by `process`.

use vstd::prelude::*;
use crate::account::ProgramId;

verus! {

/// A decoded treasury instruction.
///
/// Account layout per variant, in pre-state order:
/// - `CreateVault`: `[treasury_state, token_definition, vault_holding]`
/// - `Send`: `[treasury_state, vault_holding, recipient, signer]`
/// - `Deposit`: `[treasury_state, sender_holding, vault_holding]`
/// - `CreateMultisig`: `[multisig_state]`
/// - `Execute`: `[multisig_state, vault_holding, recipient, signers...]`
/// - `AddMember`, `RemoveMember`, `ChangeThreshold`:
///   `[multisig_state, signers...]`
#[derive(Debug)]
pub enum Instruction {
    /// Create a new vault for a token: chains to the token program's
    /// create-definition instruction to mint the initial supply into the
    /// treasury's vault holding PDA.
    CreateVault {
        token_name: [u8; 6],
        initial_supply: u128,
        token_program_id: ProgramId,
        authorized_accounts: Vec<[u8; 32]>,
    },
    /// Send tokens from the treasury vault to a recipient.
    Send { amount: u128, token_program_id: ProgramId },
    /// Deposit tokens into the treasury vault from an external sender.
    Deposit { amount: u128, token_program_id: ProgramId },
    /// Initialize the M-of-N multisig state.
    CreateMultisig { threshold: u8, members: Vec<[u8; 32]> },
    /// Transfer from the multisig-controlled vault under the signer quorum.
    /// The recipient is the third pre-state account; the transfer itself
    /// is delegated to the token program through a chained call.
    Execute { amount: u128, token_program_id: ProgramId },
    /// Add a member to the multisig under the signer quorum.
    AddMember { new_member: [u8; 32] },
    /// Remove a member from the multisig under the signer quorum.
    RemoveMember { member_to_remove: [u8; 32] },
    /// Change the M-of-N threshold under the signer quorum.
    ChangeThreshold { new_threshold: u8 },
}

} // verus!

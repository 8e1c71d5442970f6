//! Send: move tokens from the treasury vault PDA to a recipient by
//! chaining to the token program's transfer instruction.
//!
//! Account layout: `[treasury_state, vault_holding, recipient, signer]`.
//! The signer must be in the treasury's authorized-signer set *and* be
//! marked authorized by the host.  The treasury program is the authority
//! of the vault PDA, so it sets `is_authorized` on the vault for the
//! chained call and supplies the vault's PDA seed — the token definition's
//! identifier, re-read from the vault's own bytes — as the evidence.

use vstd::prelude::*;
use crate::account::AccountPostState;
use crate::account::AccountWithMetadata;
use crate::account::ChainedCall;
use crate::account::PdaSeed;
use crate::account::ProgramId;
use crate::account::ProgramOutput;
use crate::codec::build_transfer_instruction;
use crate::codec::extract_definition_id;
use crate::codec::transfer_payload;
use crate::error::CodecError;
use crate::error::Error;
use crate::pda::vault_holding_pda_seed;
use crate::state::TreasuryState;
use crate::state::spec_parse_treasury;

verus! {

/// The essence of a Send call: either the error it fails with, or the
/// token definition identifier read out of the vault holding, from which
/// the chained call's PDA seed is built.
pub open spec fn send_outcome(accs: Seq<AccountWithMetadata>) -> Result<Seq<u8>, Error> {
    if accs.len() != 4 {
        Err(Error::MalformedAccountList { expected: 4, got: accs.len() as usize })
    } else {
        match spec_parse_treasury(accs[0].account@) {
            Err(c) => Err(Error::DeserializationError { account_index: 0, detail: c }),
            Ok(m) => {
                if !m.authorized_accounts.contains(accs[3].account_id@) {
                    Err(Error::Unauthorized)
                } else if !accs[3].is_authorized {
                    Err(Error::Unauthorized)
                } else if accs[1].account@.len() < 33 {
                    Err(
                        Error::DeserializationError {
                            account_index: 1,
                            detail: CodecError::Truncated,
                        },
                    )
                } else {
                    Ok(accs[1].account@.subrange(1, 33))
                }
            },
        }
    }
}

/// The whole contract of a Send call, shared with the dispatcher: how the
/// result `r` relates to the account list and the arguments.
pub open spec fn send_post(
    accs: Seq<AccountWithMetadata>,
    amount: u128,
    token_program: Seq<u8>,
    r: Result<ProgramOutput, Error>,
) -> bool {
    &&& (r matches Err(e) ==> send_outcome(accs) == Err::<Seq<u8>, Error>(e))
    &&& (r matches Ok(out) ==> (send_outcome(accs) matches Ok(definition_id) && {
        &&& out.post_states@.len() == 4
        &&& forall|i: int|
            0 <= i < 4 ==> (#[trigger] out.post_states@[i]).account@ == accs[i].account@
                && !out.post_states@[i].claimed
        &&& out.chained_calls@.len() == 1
        &&& out.chained_calls@[0].program_id@ == token_program
        &&& out.chained_calls@[0].instruction_data@ == transfer_payload(amount)
        &&& out.chained_calls@[0].pre_states@.len() == 2
        &&& out.chained_calls@[0].pre_states@[0].account@ == accs[1].account@
        &&& out.chained_calls@[0].pre_states@[0].account_id@ == accs[1].account_id@
        &&& out.chained_calls@[0].pre_states@[0].is_authorized
        &&& out.chained_calls@[0].pre_states@[1].account@ == accs[2].account@
        &&& out.chained_calls@[0].pre_states@[1].account_id@ == accs[2].account_id@
        &&& out.chained_calls@[0].pre_states@[1].is_authorized == accs[2].is_authorized
        &&& out.chained_calls@[0].pda_seeds@.len() == 1
        &&& out.chained_calls@[0].pda_seeds@[0]@ == definition_id
    }))
}

/// Handle a Send instruction.
///
/// On success every account is returned unchanged — the token program
/// performs the balance mutation in the chained call — and the one chained
/// call moves `amount` from the vault holding (authorized here, with its
/// PDA seed attached) to the recipient.
pub fn send(accounts: &Vec<AccountWithMetadata>, amount: u128, token_program_id: &ProgramId) -> (r:
    Result<ProgramOutput, Error>)
    ensures
        send_post(accounts@, amount, token_program_id@, r),
{
    if accounts.len() != 4 {
        return Err(Error::MalformedAccountList { expected: 4, got: accounts.len() });
    }
    let state = match TreasuryState::deserialize(&accounts[0].account.data) {
        Ok(s) => s,
        Err(c) => {
            return Err(Error::DeserializationError { account_index: 0, detail: c });
        },
    };
    if !state.is_authorized_account(&accounts[3].account_id.bytes) {
        return Err(Error::Unauthorized);
    }
    if !accounts[3].is_authorized {
        return Err(Error::Unauthorized);
    }
    let definition_id = match extract_definition_id(&accounts[1].account.data) {
        Ok(id) => id,
        Err(c) => {
            return Err(Error::DeserializationError { account_index: 1, detail: c });
        },
    };

    let payload = build_transfer_instruction(amount);
    let vault_for_chain = AccountWithMetadata::new(
        accounts[1].account.duplicate(),
        true,
        accounts[1].account_id,
    );
    let recipient_for_chain = accounts[2].duplicate();
    let mut chain_pre_states: Vec<AccountWithMetadata> = Vec::new();
    chain_pre_states.push(vault_for_chain);
    chain_pre_states.push(recipient_for_chain);
    let mut pda_seeds: Vec<PdaSeed> = Vec::new();
    pda_seeds.push(vault_holding_pda_seed(&definition_id));
    let chained = ChainedCall {
        program_id: ProgramId::new(*token_program_id.value()),
        instruction_data: payload,
        pre_states: chain_pre_states,
        pda_seeds,
    };

    let mut post_states: Vec<AccountPostState> = Vec::new();
    post_states.push(AccountPostState::new(accounts[0].account.duplicate()));
    post_states.push(AccountPostState::new(accounts[1].account.duplicate()));
    post_states.push(AccountPostState::new(accounts[2].account.duplicate()));
    post_states.push(AccountPostState::new(accounts[3].account.duplicate()));
    let mut chained_calls: Vec<ChainedCall> = Vec::new();
    chained_calls.push(chained);
    Ok(ProgramOutput { post_states, chained_calls })
}

} // verus!

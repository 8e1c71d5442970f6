//! Execute: transfer tokens from the multisig-controlled vault to a
//! recipient under the signer quorum, by chaining to the token program's
//! transfer instruction.
//!
//! Account layout: `[multisig_state, vault_holding, recipient,
//! signers...]`.  The quorum rule is the same as for the other mutating multisig
//! instructions; on success the nonce advances and the vault's authority
//! is delegated to the token program with the vault's PDA seed — the token
//! definition's identifier, re-read from the vault's own bytes.

use vstd::prelude::*;
use crate::account::Account;
use crate::account::AccountPostState;
use crate::account::AccountWithMetadata;
use crate::account::ChainedCall;
use crate::account::PdaSeed;
use crate::account::ProgramId;
use crate::account::ProgramOutput;
use crate::account::authorized_ids;
use crate::account::collect_authorized_signers;
use crate::codec::build_transfer_instruction;
use crate::codec::extract_definition_id;
use crate::codec::transfer_payload;
use crate::error::CodecError;
use crate::error::Error;
use crate::multisig::MultisigState;
use crate::multisig::multisig_record;
use crate::multisig::spec_execute;
use crate::multisig::spec_parse_multisig;
use crate::pda::vault_holding_pda_seed;

verus! {

/// The essence of an Execute call: either the error it fails with, or the
/// new multisig record together with the token definition identifier read
/// out of the vault holding.
pub open spec fn execute_outcome(accs: Seq<AccountWithMetadata>) -> Result<(Seq<u8>, Seq<u8>), Error> {
    if accs.len() < 3 {
        Err(Error::MalformedAccountList { expected: 3, got: accs.len() as usize })
    } else {
        match spec_parse_multisig(accs[0].account@) {
            Err(c) => Err(Error::DeserializationError { account_index: 0, detail: c }),
            Ok(m) => match spec_execute(m, authorized_ids(accs.skip(3))) {
                Err(e) => Err(e),
                Ok(m2) => {
                    if accs[1].account@.len() < 33 {
                        Err(
                            Error::DeserializationError {
                                account_index: 1,
                                detail: CodecError::Truncated,
                            },
                        )
                    } else {
                        Ok((multisig_record(m2), accs[1].account@.subrange(1, 33)))
                    }
                },
            },
        }
    }
}

/// The contract of an Execute call as the dispatcher returns it: the
/// handler's outcome, with one unchanged post-state for every signer
/// account so that exactly one post-state is emitted per pre-state.
pub open spec fn execute_dispatched(
    accs: Seq<AccountWithMetadata>,
    amount: u128,
    token_program: Seq<u8>,
    r: Result<ProgramOutput, Error>,
) -> bool {
    match execute_outcome(accs) {
        Err(e) => r == Err::<ProgramOutput, Error>(e),
        Ok(rc) => r matches Ok(out) && {
            &&& out.post_states@.len() == accs.len()
            &&& out.post_states@[0].account@ == rc.0
            &&& !out.post_states@[0].claimed
            &&& forall|i: int|
                1 <= i < accs.len() ==> (#[trigger] out.post_states@[i]).account@ == accs[
                    i
                ].account@ && !out.post_states@[i].claimed
            &&& out.chained_calls@.len() == 1
            &&& out.chained_calls@[0].program_id@ == token_program
            &&& out.chained_calls@[0].instruction_data@ == transfer_payload(amount)
            &&& out.chained_calls@[0].pre_states@.len() == 2
            &&& out.chained_calls@[0].pre_states@[0].account@ == accs[1].account@
            &&& out.chained_calls@[0].pre_states@[0].account_id@ == accs[1].account_id@
            &&& out.chained_calls@[0].pre_states@[0].is_authorized
            &&& out.chained_calls@[0].pre_states@[1].account@ == accs[2].account@
            &&& out.chained_calls@[0].pre_states@[1].account_id@ == accs[2].account_id@
            &&& out.chained_calls@[0].pre_states@[1].is_authorized == accs[2].is_authorized
            &&& out.chained_calls@[0].pda_seeds@.len() == 1
            &&& out.chained_calls@[0].pda_seeds@[0]@ == rc.1
        },
    }
}

/// Handle an Execute instruction.
///
/// On success the multisig account holds the record with the advanced
/// nonce, the other accounts are unchanged, and the one chained call moves
/// `amount` from the vault holding (authorized here, with its PDA seed
/// attached) to the recipient.
pub fn handle(accounts: &Vec<AccountWithMetadata>, amount: u128, token_program_id: &ProgramId) -> (r:
    Result<ProgramOutput, Error>)
    ensures
        r matches Err(e) ==> execute_outcome(accounts@) == Err::<(Seq<u8>, Seq<u8>), Error>(e),
        r matches Ok(out) ==> (execute_outcome(accounts@) matches Ok(rc) && {
            &&& out.post_states@.len() == 3
            &&& out.post_states@[0].account@ == rc.0
            &&& !out.post_states@[0].claimed
            &&& out.post_states@[1].account@ == accounts@[1].account@
            &&& !out.post_states@[1].claimed
            &&& out.post_states@[2].account@ == accounts@[2].account@
            &&& !out.post_states@[2].claimed
            &&& out.chained_calls@.len() == 1
            &&& out.chained_calls@[0].program_id@ == token_program_id@
            &&& out.chained_calls@[0].instruction_data@ == transfer_payload(amount)
            &&& out.chained_calls@[0].pre_states@.len() == 2
            &&& out.chained_calls@[0].pre_states@[0].account@ == accounts@[1].account@
            &&& out.chained_calls@[0].pre_states@[0].account_id@ == accounts@[1].account_id@
            &&& out.chained_calls@[0].pre_states@[0].is_authorized
            &&& out.chained_calls@[0].pre_states@[1].account@ == accounts@[2].account@
            &&& out.chained_calls@[0].pre_states@[1].account_id@ == accounts@[2].account_id@
            &&& out.chained_calls@[0].pre_states@[1].is_authorized == accounts@[2].is_authorized
            &&& out.chained_calls@[0].pda_seeds@.len() == 1
            &&& out.chained_calls@[0].pda_seeds@[0]@ == rc.1
        }),
{
    if accounts.len() < 3 {
        return Err(Error::MalformedAccountList { expected: 3, got: accounts.len() });
    }
    let state = match MultisigState::deserialize(&accounts[0].account.data) {
        Ok(s) => s,
        Err(c) => {
            return Err(Error::DeserializationError { account_index: 0, detail: c });
        },
    };
    let signers = collect_authorized_signers(accounts, 3);
    let new_state = match state.apply_execute(&signers) {
        Ok(s) => s,
        Err(e) => {
            return Err(e);
        },
    };
    let definition_id = match extract_definition_id(&accounts[1].account.data) {
        Ok(id) => id,
        Err(c) => {
            return Err(Error::DeserializationError { account_index: 1, detail: c });
        },
    };

    let bytes = new_state.serialize();
    let payload = build_transfer_instruction(amount);
    let vault_for_chain = AccountWithMetadata::new(
        accounts[1].account.duplicate(),
        true,
        accounts[1].account_id,
    );
    let recipient_for_chain = accounts[2].duplicate();
    let mut chain_pre_states: Vec<AccountWithMetadata> = Vec::new();
    chain_pre_states.push(vault_for_chain);
    chain_pre_states.push(recipient_for_chain);
    let mut pda_seeds: Vec<PdaSeed> = Vec::new();
    pda_seeds.push(vault_holding_pda_seed(&definition_id));
    let chained = ChainedCall {
        program_id: ProgramId::new(*token_program_id.value()),
        instruction_data: payload,
        pre_states: chain_pre_states,
        pda_seeds,
    };

    let mut post_states: Vec<AccountPostState> = Vec::new();
    post_states.push(AccountPostState::new(Account::new(bytes)));
    post_states.push(AccountPostState::new(accounts[1].account.duplicate()));
    post_states.push(AccountPostState::new(accounts[2].account.duplicate()));
    let mut chained_calls: Vec<ChainedCall> = Vec::new();
    chained_calls.push(chained);
    Ok(ProgramOutput { post_states, chained_calls })
}

} // verus!

//! CreateVault: create or update the treasury state, then chain to the
//! token program's create-definition instruction so it mints the initial
//! supply into the treasury's vault holding PDA.
//!
//! Account layout: `[treasury_state, token_definition, vault_holding]`.
//! The treasury state account is claimed on its first use, detected by the
//! all-zero-buffer sentinel.  The vault holding is handed to the token
//! program with `is_authorized` set, together with its PDA seed (the token
//! definition's identifier) as the evidence of that delegation.

use vstd::prelude::*;
use crate::account::Account;
use crate::account::AccountPostState;
use crate::account::AccountWithMetadata;
use crate::account::ChainedCall;
use crate::account::PdaSeed;
use crate::account::ProgramId;
use crate::account::ProgramOutput;
use crate::account::all_zero_bytes;
use crate::account::keys_view;
use crate::codec::build_new_definition_instruction;
use crate::codec::new_definition_payload;
use crate::error::Error;
use crate::pda::vault_holding_pda_seed;
use crate::state::TreasuryModel;
use crate::state::TreasuryState;
use crate::state::spec_apply_create_vault;
use crate::state::spec_parse_treasury;
use crate::state::treasury_record;

verus! {

/// The essence of a CreateVault call: either the error it fails with, or
/// the new treasury record together with whether this call claims the
/// treasury account (its first use).
pub open spec fn create_vault_outcome(
    accs: Seq<AccountWithMetadata>,
    authorized: Seq<Seq<u8>>,
) -> Result<(Seq<u8>, bool), Error> {
    if accs.len() != 3 {
        Err(Error::MalformedAccountList { expected: 3, got: accs.len() as usize })
    } else if authorized.len() == 0 {
        Err(Error::NoAuthorizedAccounts)
    } else if all_zero_bytes(accs[0].account@) {
        match spec_apply_create_vault(
            TreasuryModel { vault_count: 0, authorized_accounts: Seq::empty() },
            authorized,
        ) {
            Err(e) => Err(e),
            Ok(m2) => Ok((treasury_record(m2), true)),
        }
    } else {
        match spec_parse_treasury(accs[0].account@) {
            Err(c) => Err(Error::DeserializationError { account_index: 0, detail: c }),
            Ok(m) => match spec_apply_create_vault(m, authorized) {
                Err(e) => Err(e),
                Ok(m2) => Ok((treasury_record(m2), false)),
            },
        }
    }
}

/// The whole contract of a CreateVault call, shared with the dispatcher:
/// how the result `r` relates to the account list and the arguments.
pub open spec fn create_vault_post(
    accs: Seq<AccountWithMetadata>,
    token_name: Seq<u8>,
    initial_supply: u128,
    token_program: Seq<u8>,
    authorized: Seq<Seq<u8>>,
    r: Result<ProgramOutput, Error>,
) -> bool {
    &&& (r matches Err(e) ==> create_vault_outcome(accs, authorized) == Err::<
        (Seq<u8>, bool),
        Error,
    >(e))
    &&& (r matches Ok(out) ==> (create_vault_outcome(accs, authorized) matches Ok(rc) && {
        &&& out.post_states@.len() == 3
        &&& out.post_states@[0].account@ == rc.0
        &&& out.post_states@[0].claimed == rc.1
        &&& out.post_states@[1].account@ == accs[1].account@
        &&& !out.post_states@[1].claimed
        &&& out.post_states@[2].account@ == accs[2].account@
        &&& !out.post_states@[2].claimed
        &&& out.chained_calls@.len() == 1
        &&& out.chained_calls@[0].program_id@ == token_program
        &&& out.chained_calls@[0].instruction_data@ == new_definition_payload(
            initial_supply,
            token_name,
        )
        &&& out.chained_calls@[0].pre_states@.len() == 2
        &&& out.chained_calls@[0].pre_states@[0].account@ == accs[1].account@
        &&& out.chained_calls@[0].pre_states@[0].account_id@ == accs[1].account_id@
        &&& out.chained_calls@[0].pre_states@[0].is_authorized == accs[1].is_authorized
        &&& out.chained_calls@[0].pre_states@[1].account@ == accs[2].account@
        &&& out.chained_calls@[0].pre_states@[1].account_id@ == accs[2].account_id@
        &&& out.chained_calls@[0].pre_states@[1].is_authorized
        &&& out.chained_calls@[0].pda_seeds@.len() == 1
        &&& out.chained_calls@[0].pda_seeds@[0]@ == accs[1].account_id@
    }))
}

/// CreateVault with an empty authorized-signer set always fails with
/// `NoAuthorizedAccounts`, whatever the other arguments and whatever the
/// treasury account holds: the check precedes every read of state.
pub proof fn lemma_create_vault_empty_authorized(accs: Seq<AccountWithMetadata>)
    requires
        accs.len() == 3,
    ensures
        create_vault_outcome(accs, Seq::empty()) == Err::<(Seq<u8>, bool), Error>(
            Error::NoAuthorizedAccounts,
        ),
{
}

/// Handle a CreateVault instruction.
///
/// On success: the treasury account holds the new record (claimed on first
/// use), the other two accounts are unchanged, and one chained call asks
/// the token program to create the definition and mint `initial_supply`
/// into the vault holding, whose authority is delegated by its PDA seed.
/// An empty `authorized_accounts` fails with `NoAuthorizedAccounts` before
/// any state is read.
pub fn create_vault(
    accounts: &Vec<AccountWithMetadata>,
    token_name: &[u8; 6],
    initial_supply: u128,
    token_program_id: &ProgramId,
    authorized_accounts: &Vec<[u8; 32]>,
) -> (r: Result<ProgramOutput, Error>)
    ensures
        create_vault_post(
            accounts@,
            token_name@,
            initial_supply,
            token_program_id@,
            keys_view(authorized_accounts@),
            r,
        ),
{
    if accounts.len() != 3 {
        return Err(Error::MalformedAccountList { expected: 3, got: accounts.len() });
    }
    if authorized_accounts.len() == 0 {
        return Err(Error::NoAuthorizedAccounts);
    }
    let is_first_time = accounts[0].account.is_uninitialized();
    let state: TreasuryState = if is_first_time {
        TreasuryState::default()
    } else {
        match TreasuryState::deserialize(&accounts[0].account.data) {
            Ok(s) => s,
            Err(c) => {
                return Err(Error::DeserializationError { account_index: 0, detail: c });
            },
        }
    };
    let new_state = match state.apply_create_vault(authorized_accounts) {
        Ok(s) => s,
        Err(e) => {
            return Err(e);
        },
    };
    let bytes = new_state.serialize();
    let treasury_post = if is_first_time {
        AccountPostState::new_claimed(Account::new(bytes))
    } else {
        AccountPostState::new(Account::new(bytes))
    };

    let payload = build_new_definition_instruction(initial_supply, token_name);
    let token_definition_for_chain = accounts[1].duplicate();
    let vault_for_chain = AccountWithMetadata::new(
        accounts[2].account.duplicate(),
        true,
        accounts[2].account_id,
    );
    let mut chain_pre_states: Vec<AccountWithMetadata> = Vec::new();
    chain_pre_states.push(token_definition_for_chain);
    chain_pre_states.push(vault_for_chain);
    let mut pda_seeds: Vec<PdaSeed> = Vec::new();
    pda_seeds.push(vault_holding_pda_seed(&accounts[1].account_id));
    let chained = ChainedCall {
        program_id: ProgramId::new(*token_program_id.value()),
        instruction_data: payload,
        pre_states: chain_pre_states,
        pda_seeds,
    };

    let mut post_states: Vec<AccountPostState> = Vec::new();
    post_states.push(treasury_post);
    post_states.push(AccountPostState::new(accounts[1].account.duplicate()));
    post_states.push(AccountPostState::new(accounts[2].account.duplicate()));
    let mut chained_calls: Vec<ChainedCall> = Vec::new();
    chained_calls.push(chained);
    Ok(ProgramOutput { post_states, chained_calls })
}

} // verus!

//! Deposit: receive tokens from an external sender into the treasury
//! vault by chaining to the token program's transfer instruction.
//!
//! Account layout: `[treasury_state, sender_holding, vault_holding]`.
//! There is no treasury-level authorization check: the sender authorized
//! the spend of their own tokens with their own signature, and that flag
//! travels with the sender's account.  The chained call is forwarded
//! unmodified — this program never sets `is_authorized` on an account
//! whose authority is not its own to delegate.

use vstd::prelude::*;
use crate::account::AccountPostState;
use crate::account::AccountWithMetadata;
use crate::account::ChainedCall;
use crate::account::PdaSeed;
use crate::account::ProgramId;
use crate::account::ProgramOutput;
use crate::codec::build_transfer_instruction;
use crate::codec::transfer_payload;
use crate::error::Error;

verus! {

/// The whole contract of a Deposit call, shared with the dispatcher: how
/// the result `r` relates to the account list and the arguments.
pub open spec fn deposit_post(
    accs: Seq<AccountWithMetadata>,
    amount: u128,
    token_program: Seq<u8>,
    r: Result<ProgramOutput, Error>,
) -> bool {
    &&& (accs.len() != 3 ==> r == Err::<ProgramOutput, Error>(
        Error::MalformedAccountList { expected: 3, got: accs.len() as usize },
    ))
    &&& (accs.len() == 3 ==> (r matches Ok(out) && {
        &&& out.post_states@.len() == 3
        &&& forall|i: int|
            0 <= i < 3 ==> (#[trigger] out.post_states@[i]).account@ == accs[i].account@
                && !out.post_states@[i].claimed
        &&& out.chained_calls@.len() == 1
        &&& out.chained_calls@[0].program_id@ == token_program
        &&& out.chained_calls@[0].instruction_data@ == transfer_payload(amount)
        &&& out.chained_calls@[0].pre_states@.len() == 2
        &&& out.chained_calls@[0].pre_states@[0].account@ == accs[1].account@
        &&& out.chained_calls@[0].pre_states@[0].account_id@ == accs[1].account_id@
        &&& out.chained_calls@[0].pre_states@[0].is_authorized == accs[1].is_authorized
        &&& out.chained_calls@[0].pre_states@[1].account@ == accs[2].account@
        &&& out.chained_calls@[0].pre_states@[1].account_id@ == accs[2].account_id@
        &&& out.chained_calls@[0].pre_states@[1].is_authorized == accs[2].is_authorized
        &&& out.chained_calls@[0].pda_seeds@.len() == 0
    }))
}

/// Handle a Deposit instruction.
///
/// With the right number of accounts a deposit always succeeds: every
/// account is returned unchanged and the one chained call moves `amount`
/// from the sender's holding to the vault, with the accounts' authorization
/// flags passed through as the host set them and no PDA seed attached.
pub fn handle(accounts: &Vec<AccountWithMetadata>, amount: u128, token_program_id: &ProgramId) -> (r:
    Result<ProgramOutput, Error>)
    ensures
        deposit_post(accounts@, amount, token_program_id@, r),
{
    if accounts.len() != 3 {
        return Err(Error::MalformedAccountList { expected: 3, got: accounts.len() });
    }
    let payload = build_transfer_instruction(amount);
    let sender_for_chain = accounts[1].duplicate();
    let vault_for_chain = accounts[2].duplicate();
    let mut chain_pre_states: Vec<AccountWithMetadata> = Vec::new();
    chain_pre_states.push(sender_for_chain);
    chain_pre_states.push(vault_for_chain);
    let chained = ChainedCall {
        program_id: ProgramId::new(*token_program_id.value()),
        instruction_data: payload,
        pre_states: chain_pre_states,
        pda_seeds: Vec::<PdaSeed>::new(),
    };

    let mut post_states: Vec<AccountPostState> = Vec::new();
    post_states.push(AccountPostState::new(accounts[0].account.duplicate()));
    post_states.push(AccountPostState::new(accounts[1].account.duplicate()));
    post_states.push(AccountPostState::new(accounts[2].account.duplicate()));
    let mut chained_calls: Vec<ChainedCall> = Vec::new();
    chained_calls.push(chained);
    Ok(ProgramOutput { post_states, chained_calls })
}

} // verus!

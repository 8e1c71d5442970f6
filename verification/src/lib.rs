//! Treasury program core: an instruction-execution library for an
//! account-based transaction model.
//!
//! The library implements the deterministic handler logic of a treasury
//! program: a ledger-account state machine managing token vaults and an
//! M-of-N multisignature authority.  Given a decoded instruction and the
//! pre-transaction state of the accounts it touches, a handler validates
//! authorization, computes the new account bytes, and emits chained calls
//! that delegate work to a token program.  The host that surrounds this
//! library is responsible for signature verification (surfaced here only
//! as a per-account `is_authorized` flag), for executing chained calls,
//! and for committing all post-states atomically.

pub mod account;
pub mod add_member;
pub mod change_threshold;
pub mod codec;
pub mod create_multisig;
pub mod create_vault;
pub mod deposit;
pub mod error;
pub mod execute;
pub mod instruction;
pub mod multisig;
pub mod pda;
pub mod remove_member;
pub mod send;
pub mod state;

use vstd::prelude::*;
use crate::account::AccountPostState;
use crate::account::AccountWithMetadata;
use crate::account::ProgramOutput;
use crate::account::keys_view;
use crate::error::Error;
use crate::instruction::Instruction;

verus! {

/// The result the dispatcher hands back for an instruction whose only
/// mutation is one state record in the first account: the record on
/// success (claiming the account or not), one unchanged post-state for
/// every other pre-state account, and no chained call.
pub open spec fn dispatched_single_record(
    accs: Seq<AccountWithMetadata>,
    outcome: Result<Seq<u8>, Error>,
    claims: bool,
    r: Result<ProgramOutput, Error>,
) -> bool {
    match outcome {
        Err(e) => r == Err::<ProgramOutput, Error>(e),
        Ok(record) => r matches Ok(out) && {
            &&& out.post_states@.len() == accs.len()
            &&& out.post_states@[0].account@ == record
            &&& out.post_states@[0].claimed == claims
            &&& forall|i: int|
                1 <= i < accs.len() ==> (#[trigger] out.post_states@[i]).account@ == accs[
                    i
                ].account@ && !out.post_states@[i].claimed
            &&& out.chained_calls@.len() == 0
        },
    }
}

/// Complete a handler's output to one post-state per pre-state account:
/// every account the handler did not touch is passed through unchanged.
fn pad_post_states(res: Result<ProgramOutput, Error>, accounts: &Vec<AccountWithMetadata>) -> (r:
    Result<ProgramOutput, Error>)
    requires
        res matches Ok(out) ==> out.post_states@.len() <= accounts@.len(),
    ensures
        res matches Err(_) ==> r == res,
        res matches Ok(out) ==> (r matches Ok(out2) && {
            &&& out2.post_states@.len() == accounts@.len()
            &&& forall|i: int|
                0 <= i < out.post_states@.len() ==> out2.post_states@[i] == out.post_states@[i]
            &&& forall|i: int|
                out.post_states@.len() <= i < accounts@.len() ==> (#[trigger] out2.post_states@[
                    i
                ]).account@ == accounts@[i].account@ && !out2.post_states@[i].claimed
            &&& out2.chained_calls@ == out.chained_calls@
        }),
{
    match res {
        Err(e) => Err(e),
        Ok(out) => {
            let ProgramOutput { mut post_states, chained_calls } = out;
            let ghost orig = post_states@;
            let n = accounts.len();
            while post_states.len() < n
                invariant
                    orig.len() <= post_states@.len() <= n,
                    n == accounts@.len(),
                    forall|i: int| 0 <= i < orig.len() ==> post_states@[i] == orig[i],
                    forall|i: int|
                        orig.len() <= i < post_states@.len() ==> (#[trigger] post_states@[
                            i
                        ]).account@ == accounts@[i].account@ && !post_states@[i].claimed,
                decreases n - post_states.len(),
            {
                let k = post_states.len();
                post_states.push(AccountPostState::new(accounts[k].account.duplicate()));
            }
            Ok(ProgramOutput { post_states, chained_calls })
        },
    }
}

/// The Host→Core entry point: route a decoded instruction to its handler.
///
/// Dispatch is total — every instruction variant maps to exactly one
/// handler, and a violated account-count contract fails fast with
/// `MalformedAccountList`, never silently truncating.  On success exactly
/// one post-state is returned per pre-state account, in the same order;
/// on an error no post-state is returned at all, so partial mutation is
/// never observable.
pub fn process(accounts: &Vec<AccountWithMetadata>, instruction: &Instruction) -> (r: Result<
    ProgramOutput,
    Error,
>)
    ensures
        r matches Ok(out) ==> out.post_states@.len() == accounts@.len(),
        (instruction matches Instruction::CreateVault {
            token_name,
            initial_supply,
            token_program_id,
            authorized_accounts,
        } ==> create_vault::create_vault_post(
            accounts@,
            token_name@,
            *initial_supply,
            token_program_id@,
            keys_view(authorized_accounts@),
            r,
        )),
        (instruction matches Instruction::Send { amount, token_program_id } ==> send::send_post(
            accounts@,
            *amount,
            token_program_id@,
            r,
        )),
        (instruction matches Instruction::Deposit { amount, token_program_id }
            ==> deposit::deposit_post(accounts@, *amount, token_program_id@, r)),
        (instruction matches Instruction::CreateMultisig { threshold, members }
            ==> dispatched_single_record(
            accounts@,
            create_multisig::create_multisig_record(accounts@, *threshold, keys_view(members@)),
            true,
            r,
        )),
        (instruction matches Instruction::Execute { amount, token_program_id }
            ==> execute::execute_dispatched(accounts@, *amount, token_program_id@, r)),
        (instruction matches Instruction::AddMember { new_member } ==> dispatched_single_record(
            accounts@,
            add_member::add_member_record(accounts@, new_member@),
            false,
            r,
        )),
        (instruction matches Instruction::RemoveMember { member_to_remove }
            ==> dispatched_single_record(
            accounts@,
            remove_member::remove_member_record(accounts@, member_to_remove@),
            false,
            r,
        )),
        (instruction matches Instruction::ChangeThreshold { new_threshold }
            ==> dispatched_single_record(
            accounts@,
            change_threshold::change_threshold_record(accounts@, *new_threshold),
            false,
            r,
        )),
{
    match instruction {
        Instruction::CreateVault {
            token_name,
            initial_supply,
            token_program_id,
            authorized_accounts,
        } => create_vault::create_vault(
            accounts,
            token_name,
            *initial_supply,
            token_program_id,
            authorized_accounts,
        ),
        Instruction::Send { amount, token_program_id } => send::send(
            accounts,
            *amount,
            token_program_id,
        ),
        Instruction::Deposit { amount, token_program_id } => deposit::handle(
            accounts,
            *amount,
            token_program_id,
        ),
        Instruction::CreateMultisig { threshold, members } => pad_post_states(
            create_multisig::handle(accounts, *threshold, members),
            accounts,
        ),
        Instruction::Execute { amount, token_program_id } => pad_post_states(
            execute::handle(accounts, *amount, token_program_id),
            accounts,
        ),
        Instruction::AddMember { new_member } => pad_post_states(
            add_member::handle(accounts, new_member),
            accounts,
        ),
        Instruction::RemoveMember { member_to_remove } => pad_post_states(
            remove_member::handle(accounts, member_to_remove),
            accounts,
        ),
        Instruction::ChangeThreshold { new_threshold } => pad_post_states(
            change_threshold::handle(accounts, *new_threshold),
            accounts,
        ),
    }
}

} // verus!

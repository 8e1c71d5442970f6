//! RemoveMember: remove a present member under the signer quorum, keeping
//! the member order.
//!
//! Account layout: `[multisig_state, signers...]`.  A removal that would
//! leave fewer members than the current threshold demands is rejected with
//! `InvalidThreshold`: the invariant `threshold <= member_count` is kept by
//! refusing the removal, never by silently lowering the threshold.

use vstd::prelude::*;
use crate::account::Account;
use crate::account::AccountPostState;
use crate::account::AccountWithMetadata;
use crate::account::ProgramOutput;
use crate::account::authorized_ids;
use crate::account::collect_authorized_signers;
use crate::error::Error;
use crate::multisig::MultisigState;
use crate::multisig::multisig_record;
use crate::multisig::spec_remove_member;
use crate::multisig::spec_parse_multisig;

verus! {

/// The essence of a RemoveMember call: either the error it fails with, or
/// the bytes of the new multisig record.
pub open spec fn remove_member_record(accs: Seq<AccountWithMetadata>, member: Seq<u8>) -> Result<
    Seq<u8>,
    Error,
> {
    if accs.len() < 2 {
        Err(Error::MalformedAccountList { expected: 2, got: accs.len() as usize })
    } else {
        match spec_parse_multisig(accs[0].account@) {
            Err(c) => Err(Error::DeserializationError { account_index: 0, detail: c }),
            Ok(m) => match spec_remove_member(m, authorized_ids(accs.skip(1)), member) {
                Err(e) => Err(e),
                Ok(m2) => Ok(multisig_record(m2)),
            },
        }
    }
}

/// Handle a RemoveMember instruction.  On success the one post-state is
/// the multisig account's new record; no chained call is emitted.
pub fn handle(accounts: &Vec<AccountWithMetadata>, member_to_remove: &[u8; 32]) -> (r: Result<
    ProgramOutput,
    Error,
>)
    ensures
        r matches Err(e) ==> remove_member_record(accounts@, member_to_remove@) == Err::<
            Seq<u8>,
            Error,
        >(e),
        r matches Ok(out) ==> remove_member_record(accounts@, member_to_remove@) == Ok::<
            Seq<u8>,
            Error,
        >(out.post_states@[0].account@) && out.post_states@.len() == 1 && !out.post_states@[
            0
        ].claimed && out.chained_calls@.len() == 0,
{
    if accounts.len() < 2 {
        return Err(Error::MalformedAccountList { expected: 2, got: accounts.len() });
    }
    let state = match MultisigState::deserialize(&accounts[0].account.data) {
        Ok(s) => s,
        Err(c) => {
            return Err(Error::DeserializationError { account_index: 0, detail: c });
        },
    };
    let signers = collect_authorized_signers(accounts, 1);
    let new_state = match state.apply_remove_member(&signers, member_to_remove) {
        Ok(s) => s,
        Err(e) => {
            return Err(e);
        },
    };
    let bytes = new_state.serialize();
    let mut post_states: Vec<AccountPostState> = Vec::new();
    post_states.push(AccountPostState::new(Account::new(bytes)));
    Ok(ProgramOutput { post_states, chained_calls: Vec::new() })
}

} // verus!

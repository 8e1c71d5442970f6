//! AddMember: append a new member to the multisig under the signer quorum.
//!
//! Account layout: `[multisig_state, signers...]`.  The signers are the
//! accounts the host marked authorized; at least `threshold` of them must
//! be current members.

use vstd::prelude::*;
use crate::account::Account;
use crate::account::AccountPostState;
use crate::account::AccountWithMetadata;
use crate::account::ProgramOutput;
use crate::account::authorized_ids;
use crate::account::collect_authorized_signers;
use crate::error::Error;
use crate::multisig::MultisigState;
use crate::multisig::multisig_record;
use crate::multisig::spec_add_member;
use crate::multisig::spec_parse_multisig;

verus! {

/// The essence of an AddMember call on a given account list: either the
/// error it fails with, or the bytes of the new multisig record.
pub open spec fn add_member_record(accs: Seq<AccountWithMetadata>, new_member: Seq<u8>) -> Result<
    Seq<u8>,
    Error,
> {
    if accs.len() < 2 {
        Err(Error::MalformedAccountList { expected: 2, got: accs.len() as usize })
    } else {
        match spec_parse_multisig(accs[0].account@) {
            Err(c) => Err(Error::DeserializationError { account_index: 0, detail: c }),
            Ok(m) => match spec_add_member(m, authorized_ids(accs.skip(1)), new_member) {
                Err(e) => Err(e),
                Ok(m2) => Ok(multisig_record(m2)),
            },
        }
    }
}

/// Handle an AddMember instruction.  On success the one post-state is the
/// multisig account's new record; no chained call is emitted.
pub fn handle(accounts: &Vec<AccountWithMetadata>, new_member: &[u8; 32]) -> (r: Result<
    ProgramOutput,
    Error,
>)
    ensures
        r matches Err(e) ==> add_member_record(accounts@, new_member@) == Err::<Seq<u8>, Error>(e),
        r matches Ok(out) ==> add_member_record(accounts@, new_member@) == Ok::<Seq<u8>, Error>(
            out.post_states@[0].account@,
        ) && out.post_states@.len() == 1 && !out.post_states@[0].claimed && out.chained_calls@.len()
            == 0,
{
    if accounts.len() < 2 {
        return Err(Error::MalformedAccountList { expected: 2, got: accounts.len() });
    }
    let state = match MultisigState::deserialize(&accounts[0].account.data) {
        Ok(s) => s,
        Err(c) => {
            return Err(Error::DeserializationError { account_index: 0, detail: c });
        },
    };
    let signers = collect_authorized_signers(accounts, 1);
    let new_state = match state.apply_add_member(&signers, new_member) {
        Ok(s) => s,
        Err(e) => {
            return Err(e);
        },
    };
    let bytes = new_state.serialize();
    let mut post_states: Vec<AccountPostState> = Vec::new();
    post_states.push(AccountPostState::new(Account::new(bytes)));
    Ok(ProgramOutput { post_states, chained_calls: Vec::new() })
}

} // verus!

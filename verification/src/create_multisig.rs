//! CreateMultisig: initialize the M-of-N multisig state, nonce zero.
//!
//! Account layout: `[multisig_state]`.  The state is created only once:
//! the account must still hold the all-zero uninitialized sentinel, else
//! the call is refused — re-initializing would reset the membership and
//! the nonce and so bypass the signer quorum.

use vstd::prelude::*;
use crate::account::Account;
use crate::account::AccountPostState;
use crate::account::AccountWithMetadata;
use crate::account::ProgramOutput;
use crate::account::all_zero_bytes;
use crate::account::keys_view;
use crate::error::Error;
use crate::multisig::MultisigState;
use crate::multisig::multisig_record;
use crate::multisig::spec_create_multisig;

verus! {

/// The essence of a CreateMultisig call: either the error it fails with,
/// or the bytes of the fresh multisig record.
pub open spec fn create_multisig_record(
    accs: Seq<AccountWithMetadata>,
    threshold: u8,
    members: Seq<Seq<u8>>,
) -> Result<Seq<u8>, Error> {
    if accs.len() < 1 {
        Err(Error::MalformedAccountList { expected: 1, got: accs.len() as usize })
    } else if !all_zero_bytes(accs[0].account@) {
        Err(Error::Unauthorized)
    } else {
        match spec_create_multisig(threshold, members) {
            Err(e) => Err(e),
            Ok(m) => Ok(multisig_record(m)),
        }
    }
}

/// Handle a CreateMultisig instruction.  On success the one post-state
/// claims the multisig account and holds the fresh record; no chained call
/// is emitted.
pub fn handle(accounts: &Vec<AccountWithMetadata>, threshold: u8, members: &Vec<[u8; 32]>) -> (r:
    Result<ProgramOutput, Error>)
    ensures
        r matches Err(e) ==> create_multisig_record(accounts@, threshold, keys_view(members@))
            == Err::<Seq<u8>, Error>(e),
        r matches Ok(out) ==> create_multisig_record(accounts@, threshold, keys_view(members@))
            == Ok::<Seq<u8>, Error>(out.post_states@[0].account@) && out.post_states@.len() == 1
            && out.post_states@[0].claimed && out.chained_calls@.len() == 0,
{
    if accounts.len() < 1 {
        return Err(Error::MalformedAccountList { expected: 1, got: accounts.len() });
    }
    if !accounts[0].account.is_uninitialized() {
        return Err(Error::Unauthorized);
    }
    let state = match MultisigState::apply_create(threshold, members) {
        Ok(s) => s,
        Err(e) => {
            return Err(e);
        },
    };
    let bytes = state.serialize();
    let mut post_states: Vec<AccountPostState> = Vec::new();
    post_states.push(AccountPostState::new_claimed(Account::new(bytes)));
    Ok(ProgramOutput { post_states, chained_calls: Vec::new() })
}

} // verus!

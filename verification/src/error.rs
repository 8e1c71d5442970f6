//! Error taxonomy of the treasury program.
//!
//! Every failure of a handler is returned as a value of [`Error`]; the host
//! records it as a failed-but-charged transaction.  An error return is never
//! accompanied by post-states or chained calls: a call either fully succeeds
//! or fully fails.

use vstd::prelude::*;

verus! {

/// Detail carried by a serialization or deserialization failure.
#[derive(Clone, Copy, Debug, PartialEq, Eq, Structural)]
pub enum CodecError {
    /// The record's leading version byte is not one this library writes.
    UnsupportedVersion,
    /// The byte buffer ends before the record does.
    Truncated,
    /// The byte buffer is longer or shorter than the record it claims to hold.
    LengthMismatch,
    /// A stated element count lies outside the schema's bounds.
    CountOutOfRange,
    /// The record's fields violate the state's invariant.
    InvalidRecord,
    /// A monotonically increasing counter cannot be advanced any further,
    /// so the successor state has no representation.
    CounterSaturated,
    /// The record does not fit into an account's fixed-capacity buffer.
    Oversize,
}

/// Everything a treasury instruction can fail with.
#[derive(Clone, Copy, Debug, PartialEq, Eq, Structural)]
pub enum Error {
    /// Fewer distinct multisig members signed than the threshold demands.
    InsufficientSignatures { required: u8, got: usize },
    /// The invoking signer is not entitled to move the funds.
    Unauthorized,
    /// The member to add is already in the member list.
    DuplicateMember,
    /// The member to remove is not in the member list.
    NotAMember,
    /// The member list is already at its fixed capacity.
    MemberLimitExceeded,
    /// A threshold outside `1 ..= member_count` was requested or would result.
    InvalidThreshold,
    /// A vault cannot be created with an empty authorized-signer set.
    NoAuthorizedAccounts,
    /// The instruction's account-count contract is violated.
    MalformedAccountList { expected: usize, got: usize },
    /// An account's byte buffer does not hold the record the handler expects.
    DeserializationError { account_index: usize, detail: CodecError },
    /// The new state cannot be written back into its account.
    SerializationError { detail: CodecError },
}

} // verus!

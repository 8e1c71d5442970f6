//! M-of-N multisignature governance state: membership, threshold, signer
//! counting, and a replay-protection nonce.
//!
//! The state lives in a program-derived account and is read-modify-written
//! by the mutating instructions.  Authorization for a mutation is the
//! signer quorum: at least `threshold` distinct members must appear in
//! the transaction's authorized-signer set.  Signers that are not members
//! are silently ignored; only the size of the intersection matters.

use vstd::prelude::*;
use vstd::bytes::spec_u64_to_le_bytes;
use vstd::bytes::spec_u64_from_le_bytes;
use vstd::bytes::lemma_auto_spec_u64_to_from_le_bytes;
use vstd::bytes::u64_to_le_bytes;
use vstd::bytes::u64_from_le_bytes;
use vstd::slice::slice_subrange;
use crate::account::keys_contain;
use crate::account::keys_unique;
use crate::account::clone_keys;
use crate::account::keys_view;
use crate::account::unique_keys;
use crate::codec::RECORD_VERSION;
use crate::codec::all_keys_32;
use crate::codec::flatten_keys;
use crate::codec::parse_keys;
use crate::codec::lemma_flatten_keys_len;
use crate::codec::lemma_flatten_keys_push;
use crate::codec::lemma_parse_flatten_keys;
use crate::codec::push_key;
use crate::codec::read_key;
use crate::error::CodecError;
use crate::error::Error;

verus! {

/// The most members a multisig may have.
pub const MEMBER_LIMIT: usize = 10;

/// The mathematical model of a multisig: the threshold, the ordered member
/// keys (each 32 bytes), and the nonce.  The member count of the persisted
/// record is the length of `members`.
pub struct MultisigModel {
    pub threshold: u8,
    pub members: Seq<Seq<u8>>,
    pub nonce: u64,
}

impl MultisigModel {
    /// The invariant every reachable multisig state satisfies:
    /// `1 <= threshold <= member_count <= 10`, keys are 32 bytes and unique.
    pub open spec fn wf(self) -> bool {
        &&& 1 <= self.threshold as int
        &&& self.threshold as int <= self.members.len()
        &&& self.members.len() <= MEMBER_LIMIT as int
        &&& all_keys_32(self.members)
        &&& unique_keys(self.members)
    }
}

/// How many of `members` occur in `signers`: the size of the intersection
/// of the member set with the signer set, counted over the (unique) members.
pub open spec fn count_matching(members: Seq<Seq<u8>>, signers: Seq<Seq<u8>>) -> int
    decreases members.len(),
{
    if members.len() == 0 {
        0
    } else {
        count_matching(members.drop_last(), signers) + if signers.contains(members.last()) {
            1int
        } else {
            0int
        }
    }
}

/// The signer quorum of every mutating instruction.
pub open spec fn quorum_met(m: MultisigModel, signers: Seq<Seq<u8>>) -> bool {
    count_matching(m.members, signers) >= m.threshold as int
}

/// The multisig governance state as the handlers hold it in memory.
#[derive(Debug)]
pub struct MultisigState {
    pub threshold: u8,
    pub members: Vec<[u8; 32]>,
    pub member_count: u8,
    pub nonce: u64,
}

impl View for MultisigState {
    type V = MultisigModel;

    open spec fn view(&self) -> MultisigModel {
        MultisigModel {
            threshold: self.threshold,
            members: keys_view(self.members@),
            nonce: self.nonce,
        }
    }
}

impl MultisigState {
    pub open spec fn wf(self) -> bool {
        self.member_count as int == self.members@.len() && self@.wf()
    }

    /// A fresh multisig: the given threshold and members, nonce zero.
    pub fn new(threshold: u8, members: Vec<[u8; 32]>) -> (r: MultisigState)
        requires
            1 <= threshold as int,
            threshold as int <= members@.len(),
            members@.len() <= MEMBER_LIMIT as int,
            unique_keys(keys_view(members@)),
        ensures
            r.wf(),
            r@ == (MultisigModel {
                threshold,
                members: keys_view(members@),
                nonce: 0,
            }),
    {
        let member_count = members.len() as u8;
        let r = MultisigState { threshold, members, member_count, nonce: 0 };
        assert forall|i: int| 0 <= i < r@.members.len() implies (#[trigger] r@.members[i]).len()
            == 32 by {}
        r
    }

    /// Whether `key` is one of the members.
    pub fn is_member(&self, key: &[u8; 32]) -> (r: bool)
        ensures
            r == self@.members.contains(key@),
    {
        keys_contain(&self.members, key)
    }

    /// How many of the members occur among `signers`.  Signers that are not
    /// members are ignored; members are unique, so this is the size of the
    /// intersection of the member set and the signer set.
    pub fn count_valid_signers(&self, signers: &Vec<[u8; 32]>) -> (r: usize)
        ensures
            r == count_matching(self@.members, keys_view(signers@)),
    {
        let ghost mv = self@.members;
        let ghost sv = keys_view(signers@);
        let n = self.members.len();
        let mut count: usize = 0;
        let mut i: usize = 0;
        while i < n
            invariant
                i <= n,
                n == self.members@.len(),
                mv == self@.members,
                sv == keys_view(signers@),
                count <= i,
                count == count_matching(mv.take(i as int), sv),
            decreases n - i,
        {
            proof {
                assert(mv.take(i as int + 1).drop_last() =~= mv.take(i as int));
                assert(mv.take(i as int + 1).last() == mv[i as int]);
            }
            if keys_contain(signers, &self.members[i]) {
                count += 1;
            }
            i += 1;
        }
        proof {
            assert(mv.take(n as int) =~= mv);
        }
        count
    }
}

/// The persisted multisig record: version byte, threshold, member count,
/// nonce (little-endian), then the member keys back to back.
pub open spec fn multisig_record(m: MultisigModel) -> Seq<u8> {
    seq![RECORD_VERSION, m.threshold, m.members.len() as u8] + spec_u64_to_le_bytes(m.nonce)
        + flatten_keys(m.members)
}

/// What reading a multisig record out of a byte buffer yields: the model on
/// a well-formed record, the first failure otherwise.
pub open spec fn spec_parse_multisig(s: Seq<u8>) -> Result<MultisigModel, CodecError> {
    if s.len() < 11 {
        Err(CodecError::Truncated)
    } else if s[0] != RECORD_VERSION {
        Err(CodecError::UnsupportedVersion)
    } else if !(1 <= s[2] as int <= MEMBER_LIMIT as int) {
        Err(CodecError::CountOutOfRange)
    } else if s.len() != 11 + 32 * (s[2] as int) {
        Err(CodecError::LengthMismatch)
    } else {
        let m = MultisigModel {
            threshold: s[1],
            members: parse_keys(s, 11, s[2] as int),
            nonce: spec_u64_from_le_bytes(s.subrange(3, 11)),
        };
        if !(1 <= s[1] as int <= s[2] as int) {
            Err(CodecError::InvalidRecord)
        } else if !unique_keys(m.members) {
            Err(CodecError::InvalidRecord)
        } else {
            Ok(m)
        }
    }
}

impl MultisigState {
    /// Write this state as its persisted record.
    pub fn serialize(&self) -> (r: Vec<u8>)
        requires
            self.wf(),
        ensures
            r@ == multisig_record(self@),
            r@.len() == 11 + 32 * self@.members.len(),
    {
        let ghost mv = self@.members;
        let mut out: Vec<u8> = Vec::new();
        out.push(RECORD_VERSION);
        out.push(self.threshold);
        out.push(self.member_count);
        let mut nonce_bytes = u64_to_le_bytes(self.nonce);
        out.append(&mut nonce_bytes);
        let ghost header = out@;
        let n = self.members.len();
        let mut i: usize = 0;
        while i < n
            invariant
                i <= n,
                n == self.members@.len(),
                mv == self@.members,
                out@ == header + flatten_keys(mv.take(i as int)),
            decreases n - i,
        {
            push_key(&mut out, &self.members[i]);
            proof {
                lemma_flatten_keys_push(mv.take(i as int), mv[i as int]);
                assert(mv.take(i as int).push(mv[i as int]) =~= mv.take(i as int + 1));
            }
            i += 1;
        }
        proof {
            assert(mv.take(n as int) =~= mv);
            assert(header =~= seq![RECORD_VERSION, self@.threshold, mv.len() as u8]
                + spec_u64_to_le_bytes(self@.nonce));
            lemma_flatten_keys_len(mv);
        }
        out
    }

    /// Read a state back out of its persisted record, refusing any buffer
    /// that is not exactly a well-formed record.
    pub fn deserialize(data: &Vec<u8>) -> (r: Result<MultisigState, CodecError>)
        ensures
            r matches Ok(s) ==> spec_parse_multisig(data@) == Ok::<MultisigModel, CodecError>(s@)
                && s.wf(),
            r matches Err(e) ==> spec_parse_multisig(data@) == Err::<MultisigModel, CodecError>(e),
    {
        if data.len() < 11 {
            return Err(CodecError::Truncated);
        }
        if data[0] != RECORD_VERSION {
            return Err(CodecError::UnsupportedVersion);
        }
        let threshold = data[1];
        let n = data[2] as usize;
        if n < 1 || n > MEMBER_LIMIT {
            return Err(CodecError::CountOutOfRange);
        }
        if data.len() != 11 + 32 * n {
            return Err(CodecError::LengthMismatch);
        }
        let nonce = u64_from_le_bytes(slice_subrange(data.as_slice(), 3, 11));
        let mut members: Vec<[u8; 32]> = Vec::new();
        let mut j: usize = 0;
        while j < n
            invariant
                j <= n,
                n == data@[2] as int,
                data@.len() == 11 + 32 * n,
                members@.len() == j,
                forall|t: int|
                    0 <= t < j ==> keys_view(members@)[t] == data@.subrange(
                        11 + 32 * t,
                        11 + 32 * t + 32,
                    ),
            decreases n - j,
        {
            let key = read_key(data, 11 + 32 * j);
            let ghost pre = members@;
            members.push(key);
            proof {
                assert forall|t: int| 0 <= t < j + 1 implies keys_view(members@)[t]
                    == data@.subrange(11 + 32 * t, 11 + 32 * t + 32) by {
                    assert(keys_view(members@)[t] == members@[t]@);
                    if t < j {
                        assert(members@[t] == pre[t]);
                        assert(keys_view(pre)[t] == pre[t]@);
                    } else {
                        assert(members@[t] == key);
                    }
                }
            }
            j += 1;
        }
        proof {
            assert(keys_view(members@) =~~= parse_keys(data@, 11, n as int));
        }
        if threshold < 1 || (threshold as usize) > n {
            return Err(CodecError::InvalidRecord);
        }
        if !keys_unique(&members) {
            return Err(CodecError::InvalidRecord);
        }
        let state = MultisigState { threshold, members, member_count: n as u8, nonce };
        proof {
            assert forall|i: int| 0 <= i < state@.members.len() implies (#[trigger] state@
                .members[i]).len() == 32 by {}
            assert(spec_parse_multisig(data@) == Ok::<MultisigModel, CodecError>(state@));
        }
        Ok(state)
    }
}

/// What AddMember does to the state.  A member already present is rejected
/// before anything else, so duplicates fail the same way whatever the
/// signer set; then the signer quorum, the member limit, and the
/// nonce's headroom are checked in that order.
pub open spec fn spec_add_member(
    m: MultisigModel,
    signers: Seq<Seq<u8>>,
    new_member: Seq<u8>,
) -> Result<MultisigModel, Error> {
    if m.members.contains(new_member) {
        Err(Error::DuplicateMember)
    } else if !quorum_met(m, signers) {
        Err(
            Error::InsufficientSignatures {
                required: m.threshold,
                got: count_matching(m.members, signers) as usize,
            },
        )
    } else if m.members.len() >= MEMBER_LIMIT as int {
        Err(Error::MemberLimitExceeded)
    } else if m.nonce == u64::MAX {
        Err(Error::SerializationError { detail: CodecError::CounterSaturated })
    } else {
        Ok(
            MultisigModel {
                threshold: m.threshold,
                members: m.members.push(new_member),
                nonce: (m.nonce + 1) as u64,
            },
        )
    }
}

/// What RemoveMember does to the state.  A removal that would leave fewer
/// members than the current threshold demands is rejected with
/// `InvalidThreshold`: the invariant `threshold <= member_count` is kept by
/// refusing the removal, never by silently lowering the threshold.
pub open spec fn spec_remove_member(
    m: MultisigModel,
    signers: Seq<Seq<u8>>,
    member: Seq<u8>,
) -> Result<MultisigModel, Error> {
    if !quorum_met(m, signers) {
        Err(
            Error::InsufficientSignatures {
                required: m.threshold,
                got: count_matching(m.members, signers) as usize,
            },
        )
    } else if !m.members.contains(member) {
        Err(Error::NotAMember)
    } else if m.threshold as int > m.members.len() - 1 {
        Err(Error::InvalidThreshold)
    } else if m.nonce == u64::MAX {
        Err(Error::SerializationError { detail: CodecError::CounterSaturated })
    } else {
        let i = choose|i: int| 0 <= i < m.members.len() && m.members[i] == member;
        Ok(
            MultisigModel {
                threshold: m.threshold,
                members: m.members.remove(i),
                nonce: (m.nonce + 1) as u64,
            },
        )
    }
}

/// What ChangeThreshold does to the state: the quorum check against the *current*
/// threshold, then `1 <= new_threshold <= member_count`.
pub open spec fn spec_change_threshold(
    m: MultisigModel,
    signers: Seq<Seq<u8>>,
    new_threshold: u8,
) -> Result<MultisigModel, Error> {
    if !quorum_met(m, signers) {
        Err(
            Error::InsufficientSignatures {
                required: m.threshold,
                got: count_matching(m.members, signers) as usize,
            },
        )
    } else if !(1 <= new_threshold as int <= m.members.len()) {
        Err(Error::InvalidThreshold)
    } else if m.nonce == u64::MAX {
        Err(Error::SerializationError { detail: CodecError::CounterSaturated })
    } else {
        Ok(MultisigModel { threshold: new_threshold, members: m.members, nonce: (m.nonce + 1) as u64 })
    }
}

/// What Execute does to the state itself: the quorum check, then the nonce
/// advances.  The transfer is delegated through a chained call and touches
/// no multisig field.
pub open spec fn spec_execute(m: MultisigModel, signers: Seq<Seq<u8>>) -> Result<
    MultisigModel,
    Error,
> {
    if !quorum_met(m, signers) {
        Err(
            Error::InsufficientSignatures {
                required: m.threshold,
                got: count_matching(m.members, signers) as usize,
            },
        )
    } else if m.nonce == u64::MAX {
        Err(Error::SerializationError { detail: CodecError::CounterSaturated })
    } else {
        Ok(MultisigModel { threshold: m.threshold, members: m.members, nonce: (m.nonce + 1) as u64 })
    }
}

/// What CreateMultisig builds: a threshold no larger than the member count
/// and at least one, at most ten unique members, nonce zero.
pub open spec fn spec_create_multisig(threshold: u8, members: Seq<Seq<u8>>) -> Result<
    MultisigModel,
    Error,
> {
    if threshold as int > members.len() {
        Err(Error::InvalidThreshold)
    } else if (threshold as int) < 1 {
        Err(Error::InvalidThreshold)
    } else if members.len() > MEMBER_LIMIT as int {
        Err(Error::MemberLimitExceeded)
    } else if !unique_keys(members) {
        Err(Error::DuplicateMember)
    } else {
        Ok(MultisigModel { threshold, members, nonce: 0 })
    }
}

impl MultisigState {
    /// Append a new member under the signer quorum.
    pub fn apply_add_member(&self, signers: &Vec<[u8; 32]>, new_member: &[u8; 32]) -> (r: Result<
        MultisigState,
        Error,
    >)
        requires
            self.wf(),
        ensures
            r matches Ok(s) ==> spec_add_member(self@, keys_view(signers@), new_member@)
                == Ok::<MultisigModel, Error>(s@) && s.wf(),
            r matches Err(e) ==> spec_add_member(self@, keys_view(signers@), new_member@)
                == Err::<MultisigModel, Error>(e),
    {
        if self.is_member(new_member) {
            return Err(Error::DuplicateMember);
        }
        let got = self.count_valid_signers(signers);
        if got < self.threshold as usize {
            return Err(Error::InsufficientSignatures { required: self.threshold, got });
        }
        if self.member_count as usize >= MEMBER_LIMIT {
            return Err(Error::MemberLimitExceeded);
        }
        if self.nonce == u64::MAX {
            return Err(Error::SerializationError { detail: CodecError::CounterSaturated });
        }
        let mut members = clone_keys(&self.members);
        members.push(*new_member);
        let s = MultisigState {
            threshold: self.threshold,
            members,
            member_count: self.member_count + 1,
            nonce: self.nonce + 1,
        };
        proof {
            assert(keys_view(s.members@) =~~= self@.members.push(new_member@));
            assert forall|i: int, j: int| 0 <= i < j < s@.members.len() implies s@.members[i]
                != s@.members[j] by {
                if j == s@.members.len() - 1 {
                    assert(s@.members[i] == self@.members[i]);
                    assert(!self@.members.contains(new_member@));
                }
            }
            assert forall|i: int| 0 <= i < s@.members.len() implies (#[trigger] s@.members[
                i
            ]).len() == 32 by {}
        }
        Ok(s)
    }

    /// Remove a present member under the signer quorum, keeping order.
    pub fn apply_remove_member(&self, signers: &Vec<[u8; 32]>, member: &[u8; 32]) -> (r: Result<
        MultisigState,
        Error,
    >)
        requires
            self.wf(),
        ensures
            r matches Ok(s) ==> spec_remove_member(self@, keys_view(signers@), member@)
                == Ok::<MultisigModel, Error>(s@) && s.wf(),
            r matches Err(e) ==> spec_remove_member(self@, keys_view(signers@), member@)
                == Err::<MultisigModel, Error>(e),
    {
        let got = self.count_valid_signers(signers);
        if got < self.threshold as usize {
            return Err(Error::InsufficientSignatures { required: self.threshold, got });
        }
        let found = crate::account::find_key_index(&self.members, member);
        let idx = match found {
            None => {
                return Err(Error::NotAMember);
            },
            Some(i) => i,
        };
        assert(self@.members.contains(member@));
        if (self.threshold as usize) > self.member_count as usize - 1 {
            return Err(Error::InvalidThreshold);
        }
        if self.nonce == u64::MAX {
            return Err(Error::SerializationError { detail: CodecError::CounterSaturated });
        }
        let mut members = clone_keys(&self.members);
        members.remove(idx);
        let s = MultisigState {
            threshold: self.threshold,
            members,
            member_count: self.member_count - 1,
            nonce: self.nonce + 1,
        };
        proof {
            let c = choose|i: int|
                0 <= i < self@.members.len() && self@.members[i] == member@;
            assert(self@.members[idx as int] == member@);
            assert(c == idx as int);
            assert(keys_view(s.members@) =~~= self@.members.remove(idx as int));
            assert forall|i: int, j: int| 0 <= i < j < s@.members.len() implies s@.members[i]
                != s@.members[j] by {
                assert(s@.members[i] == if i < idx as int {
                    self@.members[i]
                } else {
                    self@.members[i + 1]
                });
                assert(s@.members[j] == if j < idx as int {
                    self@.members[j]
                } else {
                    self@.members[j + 1]
                });
            }
            assert forall|i: int| 0 <= i < s@.members.len() implies (#[trigger] s@.members[
                i
            ]).len() == 32 by {
                assert(s@.members[i] == if i < idx as int {
                    self@.members[i]
                } else {
                    self@.members[i + 1]
                });
            }
        }
        Ok(s)
    }

    /// Change the threshold under the signer quorum against the current
    /// threshold.
    pub fn apply_change_threshold(&self, signers: &Vec<[u8; 32]>, new_threshold: u8) -> (r: Result<
        MultisigState,
        Error,
    >)
        requires
            self.wf(),
        ensures
            r matches Ok(s) ==> spec_change_threshold(self@, keys_view(signers@), new_threshold)
                == Ok::<MultisigModel, Error>(s@) && s.wf(),
            r matches Err(e) ==> spec_change_threshold(self@, keys_view(signers@), new_threshold)
                == Err::<MultisigModel, Error>(e),
    {
        let got = self.count_valid_signers(signers);
        if got < self.threshold as usize {
            return Err(Error::InsufficientSignatures { required: self.threshold, got });
        }
        if new_threshold < 1 || (new_threshold as usize) > self.member_count as usize {
            return Err(Error::InvalidThreshold);
        }
        if self.nonce == u64::MAX {
            return Err(Error::SerializationError { detail: CodecError::CounterSaturated });
        }
        let s = MultisigState {
            threshold: new_threshold,
            members: clone_keys(&self.members),
            member_count: self.member_count,
            nonce: self.nonce + 1,
        };
        Ok(s)
    }

    /// Advance the nonce for an Execute under the signer quorum.
    pub fn apply_execute(&self, signers: &Vec<[u8; 32]>) -> (r: Result<MultisigState, Error>)
        requires
            self.wf(),
        ensures
            r matches Ok(s) ==> spec_execute(self@, keys_view(signers@))
                == Ok::<MultisigModel, Error>(s@) && s.wf(),
            r matches Err(e) ==> spec_execute(self@, keys_view(signers@))
                == Err::<MultisigModel, Error>(e),
    {
        let got = self.count_valid_signers(signers);
        if got < self.threshold as usize {
            return Err(Error::InsufficientSignatures { required: self.threshold, got });
        }
        if self.nonce == u64::MAX {
            return Err(Error::SerializationError { detail: CodecError::CounterSaturated });
        }
        let s = MultisigState {
            threshold: self.threshold,
            members: clone_keys(&self.members),
            member_count: self.member_count,
            nonce: self.nonce + 1,
        };
        Ok(s)
    }

    /// Build a fresh multisig from a CreateMultisig instruction's arguments.
    pub fn apply_create(threshold: u8, members: &Vec<[u8; 32]>) -> (r: Result<
        MultisigState,
        Error,
    >)
        ensures
            r matches Ok(s) ==> spec_create_multisig(threshold, keys_view(members@))
                == Ok::<MultisigModel, Error>(s@) && s.wf(),
            r matches Err(e) ==> spec_create_multisig(threshold, keys_view(members@))
                == Err::<MultisigModel, Error>(e),
    {
        if (threshold as usize) > members.len() {
            return Err(Error::InvalidThreshold);
        }
        if threshold < 1 {
            return Err(Error::InvalidThreshold);
        }
        if members.len() > MEMBER_LIMIT {
            return Err(Error::MemberLimitExceeded);
        }
        if !keys_unique(members) {
            return Err(Error::DuplicateMember);
        }
        let s = MultisigState::new(threshold, clone_keys(members));
        Ok(s)
    }
}

/// The signer quorum counts exactly the size of the intersection of
/// the member set with the signer set: signers that are not members are
/// ignored, and no member is counted twice.
pub proof fn lemma_count_matching_is_intersection(members: Seq<Seq<u8>>, signers: Seq<Seq<u8>>)
    requires
        unique_keys(members),
    ensures
        count_matching(members, signers) == members.to_set().intersect(signers.to_set()).len(),
    decreases members.len(),
{
    if members.len() == 0 {
        assert(members.to_set().intersect(signers.to_set()) =~= Set::empty());
    } else {
        let pre = members.drop_last();
        let last = members.last();
        assert(unique_keys(pre)) by {
            assert forall|i: int, j: int| 0 <= i < j < pre.len() implies pre[i] != pre[j] by {
                assert(pre[i] == members[i]);
                assert(pre[j] == members[j]);
            }
        }
        lemma_count_matching_is_intersection(pre, signers);
        vstd::seq_lib::seq_to_set_is_finite(pre);
        vstd::seq_lib::seq_to_set_is_finite(signers);
        assert(!pre.contains(last)) by {
            assert forall|i: int| 0 <= i < pre.len() implies pre[i] != last by {
                assert(pre[i] == members[i]);
                assert(last == members[members.len() - 1]);
            }
        }
        assert forall|x: Seq<u8>| #[trigger] members.contains(x) implies pre.contains(x) || x
            == last by {
            let i = choose|i: int| 0 <= i < members.len() && members[i] == x;
            if i < members.len() - 1 {
                assert(pre[i] == x);
                assert(pre.contains(x));
            }
        }
        assert forall|x: Seq<u8>| #[trigger] pre.contains(x) implies members.contains(x) by {
            let i = choose|i: int| 0 <= i < pre.len() && pre[i] == x;
            assert(members[i] == x);
            assert(members.contains(x));
        }
        assert(members.contains(last)) by {
            assert(members[members.len() - 1] == last);
        }
        assert(members.to_set() =~= pre.to_set().insert(last));
        assert(signers.contains(last) == signers.to_set().contains(last));
        if signers.contains(last) {
            assert(members.to_set().intersect(signers.to_set()) =~= pre.to_set().intersect(
                signers.to_set(),
            ).insert(last));
            assert(!pre.to_set().intersect(signers.to_set()).contains(last));
        } else {
            assert(members.to_set().intersect(signers.to_set()) =~= pre.to_set().intersect(
                signers.to_set(),
            ));
        }
    }
}

/// A mutating call whose arguments are otherwise valid succeeds exactly
/// when at least `threshold` distinct members are among the authorized
/// signers, and every success advances the nonce by exactly one; a failure
/// leaves no successor state at all.  Here for AddMember.
pub proof fn lemma_add_member_quorum(m: MultisigModel, signers: Seq<Seq<u8>>, k: Seq<u8>)
    requires
        m.wf(),
        m.nonce < u64::MAX,
        !m.members.contains(k),
        m.members.len() < MEMBER_LIMIT as int,
    ensures
        (spec_add_member(m, signers, k) matches Ok(m2) && m2.nonce == m.nonce + 1
            && m2.threshold == m.threshold) <==> quorum_met(m, signers),
        !quorum_met(m, signers) ==> spec_add_member(m, signers, k) == Err::<MultisigModel, Error>(
            Error::InsufficientSignatures {
                required: m.threshold,
                got: count_matching(m.members, signers) as usize,
            },
        ),
{
}

/// The signer quorum and nonce advance for RemoveMember.
pub proof fn lemma_remove_member_quorum(m: MultisigModel, signers: Seq<Seq<u8>>, k: Seq<u8>)
    requires
        m.wf(),
        m.nonce < u64::MAX,
        m.members.contains(k),
        m.threshold as int <= m.members.len() - 1,
    ensures
        (spec_remove_member(m, signers, k) matches Ok(m2) && m2.nonce == m.nonce + 1
            && m2.threshold == m.threshold) <==> quorum_met(m, signers),
        !quorum_met(m, signers) ==> spec_remove_member(m, signers, k) == Err::<
            MultisigModel,
            Error,
        >(
            Error::InsufficientSignatures {
                required: m.threshold,
                got: count_matching(m.members, signers) as usize,
            },
        ),
{
}

/// The signer quorum and nonce advance for ChangeThreshold.
pub proof fn lemma_change_threshold_quorum(m: MultisigModel, signers: Seq<Seq<u8>>, t: u8)
    requires
        m.wf(),
        m.nonce < u64::MAX,
        1 <= t as int <= m.members.len(),
    ensures
        (spec_change_threshold(m, signers, t) matches Ok(m2) && m2.nonce == m.nonce + 1
            && m2.threshold == t) <==> quorum_met(m, signers),
        !quorum_met(m, signers) ==> spec_change_threshold(m, signers, t) == Err::<
            MultisigModel,
            Error,
        >(
            Error::InsufficientSignatures {
                required: m.threshold,
                got: count_matching(m.members, signers) as usize,
            },
        ),
{
}

/// The signer quorum and nonce advance for Execute.
pub proof fn lemma_execute_quorum(m: MultisigModel, signers: Seq<Seq<u8>>)
    requires
        m.wf(),
        m.nonce < u64::MAX,
    ensures
        (spec_execute(m, signers) matches Ok(m2) && m2.nonce == m.nonce + 1
            && m2.members == m.members && m2.threshold == m.threshold) <==> quorum_met(m, signers),
        !quorum_met(m, signers) ==> spec_execute(m, signers) == Err::<MultisigModel, Error>(
            Error::InsufficientSignatures {
                required: m.threshold,
                got: count_matching(m.members, signers) as usize,
            },
        ),
{
}

/// Adding an already-present member always fails with `DuplicateMember`,
/// whatever the signer set.
pub proof fn lemma_duplicate_member_always_rejected(
    m: MultisigModel,
    signers: Seq<Seq<u8>>,
    k: Seq<u8>,
)
    requires
        m.members.contains(k),
    ensures
        spec_add_member(m, signers, k) == Err::<MultisigModel, Error>(Error::DuplicateMember),
{
}

/// ChangeThreshold accepts exactly `1 <= new_threshold <= member_count`:
/// both boundary values succeed, zero and one-past-the-count fail with
/// `InvalidThreshold`.
pub proof fn lemma_change_threshold_bounds(m: MultisigModel, signers: Seq<Seq<u8>>, t: u8)
    requires
        m.wf(),
        m.nonce < u64::MAX,
        quorum_met(m, signers),
    ensures
        spec_change_threshold(m, signers, t) matches Ok(m2) <==> 1 <= t as int
            <= m.members.len(),
        t == 0 ==> spec_change_threshold(m, signers, t) == Err::<MultisigModel, Error>(
            Error::InvalidThreshold,
        ),
        t as int == m.members.len() + 1 ==> spec_change_threshold(m, signers, t) == Err::<
            MultisigModel,
            Error,
        >(Error::InvalidThreshold),
{
}

/// Every successful mutation preserves the multisig invariant; in
/// particular `threshold <= member_count` holds afterwards.
pub proof fn lemma_mutations_preserve_wf(m: MultisigModel, signers: Seq<Seq<u8>>, k: Seq<u8>, t: u8)
    requires
        m.wf(),
        k.len() == 32,
    ensures
        spec_add_member(m, signers, k) matches Ok(m2) ==> m2.wf(),
        spec_remove_member(m, signers, k) matches Ok(m3) ==> m3.wf(),
        spec_change_threshold(m, signers, t) matches Ok(m4) ==> m4.wf(),
        spec_execute(m, signers) matches Ok(m5) ==> m5.wf(),
{
    if spec_add_member(m, signers, k) is Ok {
        let m2 = spec_add_member(m, signers, k)->Ok_0;
        assert forall|i: int, j: int| 0 <= i < j < m2.members.len() implies m2.members[i]
            != m2.members[j] by {
            if j == m2.members.len() - 1 {
                assert(m2.members[i] == m.members[i]);
            }
        }
        assert(all_keys_32(m2.members)) by {
            assert forall|i: int| 0 <= i < m2.members.len() implies (#[trigger] m2.members[
                i
            ]).len() == 32 by {
                if i < m2.members.len() - 1 {
                    assert(m2.members[i] == m.members[i]);
                }
            }
        }
    }
    if spec_remove_member(m, signers, k) is Ok {
        let m3 = spec_remove_member(m, signers, k)->Ok_0;
        let c = choose|i: int| 0 <= i < m.members.len() && m.members[i] == k;
        assert forall|i: int, j: int| 0 <= i < j < m3.members.len() implies m3.members[i]
            != m3.members[j] by {
            assert(m3.members[i] == if i < c {
                m.members[i]
            } else {
                m.members[i + 1]
            });
            assert(m3.members[j] == if j < c {
                m.members[j]
            } else {
                m.members[j + 1]
            });
        }
        assert(all_keys_32(m3.members)) by {
            assert forall|i: int| 0 <= i < m3.members.len() implies (#[trigger] m3.members[
                i
            ]).len() == 32 by {
                assert(m3.members[i] == if i < c {
                    m.members[i]
                } else {
                    m.members[i + 1]
                });
            }
        }
    }
}

/// A well-formed multisig record always fits into an account's
/// fixed-capacity buffer, so writing it back cannot fail.
pub proof fn lemma_multisig_record_fits(m: MultisigModel)
    requires
        m.wf(),
    ensures
        multisig_record(m).len() <= crate::account::DATA_CAPACITY as int,
{
    lemma_auto_spec_u64_to_from_le_bytes();
    lemma_flatten_keys_len(m.members);
}

/// Reading a record back yields exactly the state that was written: the
/// codec loses nothing.
pub proof fn lemma_multisig_record_roundtrip(m: MultisigModel)
    requires
        m.wf(),
    ensures
        spec_parse_multisig(multisig_record(m)) == Ok::<MultisigModel, CodecError>(m),
{
    let s = multisig_record(m);
    let prefix = seq![RECORD_VERSION, m.threshold, m.members.len() as u8]
        + spec_u64_to_le_bytes(m.nonce);
    lemma_auto_spec_u64_to_from_le_bytes();
    lemma_flatten_keys_len(m.members);
    assert(prefix.len() == 11);
    assert(s =~= prefix + flatten_keys(m.members));
    assert(s[0] == RECORD_VERSION);
    assert(s[1] == m.threshold);
    assert(s[2] == m.members.len() as u8);
    assert(s.subrange(3, 11) =~= spec_u64_to_le_bytes(m.nonce));
    assert(spec_u64_from_le_bytes(s.subrange(3, 11)) == m.nonce);
    lemma_parse_flatten_keys(m.members, prefix);
    assert(parse_keys(s, 11, m.members.len() as int) =~~= m.members);
    let parsed = spec_parse_multisig(s);
    assert(parsed matches Ok(p) && p == m);
}

} // verus!

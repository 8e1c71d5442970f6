//! The account model: ledger accounts, their execution-time metadata, the
//! post-states a handler emits, and the chained-call record through which one
//! program delegates work to another.
//!
//! An account is an opaque byte buffer of bounded capacity.  A zero-filled
//! (or empty) buffer is the deliberate sentinel for "uninitialized": state
//! records are created on the first mutating call that targets their account
//! and read-modify-written afterwards.

use vstd::prelude::*;

verus! {

/// Fixed capacity of an account's byte buffer.
pub const DATA_CAPACITY: usize = 1024;

/// A 32-byte account identifier.  It may be a program-derived address (PDA):
/// the digest of a program identity and a 32-byte seed.
#[derive(Clone, Copy, Debug, PartialEq, Eq)]
pub struct AccountId {
    pub bytes: [u8; 32],
}

impl View for AccountId {
    type V = Seq<u8>;

    open spec fn view(&self) -> Seq<u8> {
        self.bytes@
    }
}

impl AccountId {
    pub fn new(bytes: [u8; 32]) -> (r: AccountId)
        ensures
            r@ == bytes@,
    {
        AccountId { bytes }
    }

    pub fn value(&self) -> (r: &[u8; 32])
        ensures
            r@ == self@,
    {
        &self.bytes
    }
}

/// A 32-byte program identity.
#[derive(Clone, Copy, Debug, PartialEq, Eq)]
pub struct ProgramId {
    pub bytes: [u8; 32],
}

impl View for ProgramId {
    type V = Seq<u8>;

    open spec fn view(&self) -> Seq<u8> {
        self.bytes@
    }
}

impl ProgramId {
    pub fn new(bytes: [u8; 32]) -> (r: ProgramId)
        ensures
            r@ == bytes@,
    {
        ProgramId { bytes }
    }

    pub fn value(&self) -> (r: &[u8; 32])
        ensures
            r@ == self@,
    {
        &self.bytes
    }
}

/// A fixed 32-byte PDA seed: either a constant ASCII tag right-padded with
/// zero bytes, or the raw identifier of another account.
#[derive(Clone, Copy, Debug, PartialEq, Eq)]
pub struct PdaSeed {
    pub bytes: [u8; 32],
}

impl View for PdaSeed {
    type V = Seq<u8>;

    open spec fn view(&self) -> Seq<u8> {
        self.bytes@
    }
}

impl PdaSeed {
    pub fn new(bytes: [u8; 32]) -> (r: PdaSeed)
        ensures
            r@ == bytes@,
    {
        PdaSeed { bytes }
    }

    pub fn value(&self) -> (r: &[u8; 32])
        ensures
            r@ == self@,
    {
        &self.bytes
    }
}

/// A ledger account: an opaque byte buffer.  Two accounts are equal exactly
/// when their buffers hold the same bytes.
#[derive(Debug)]
pub struct Account {
    pub data: Vec<u8>,
}

impl View for Account {
    type V = Seq<u8>;

    open spec fn view(&self) -> Seq<u8> {
        self.data@
    }
}

/// True of a buffer whose every byte is zero; the empty buffer counts.
pub open spec fn all_zero_bytes(s: Seq<u8>) -> bool {
    forall|i: int| 0 <= i < s.len() ==> s[i] == 0
}

impl Account {
    /// The deliberate sentinel for an account no program has written yet:
    /// a buffer of nothing but zero bytes.
    pub open spec fn spec_is_uninitialized(&self) -> bool {
        all_zero_bytes(self@)
    }

    pub fn new(data: Vec<u8>) -> (r: Account)
        ensures
            r@ == data@,
    {
        Account { data }
    }

    /// Decide whether this account is still uninitialized.
    pub fn is_uninitialized(&self) -> (r: bool)
        ensures
            r == self.spec_is_uninitialized(),
    {
        let n = self.data.len();
        let mut i: usize = 0;
        while i < n
            invariant
                i <= n,
                n == self.data.len(),
                forall|j: int| 0 <= j < i ==> self.data@[j] == 0,
            decreases n - i,
        {
            if self.data[i] != 0 {
                return false;
            }
            i += 1;
        }
        true
    }

    /// A copy of this account holding the same bytes.
    pub fn duplicate(&self) -> (r: Account)
        ensures
            r@ == self@,
    {
        Account { data: clone_bytes(&self.data) }
    }
}

impl Default for Account {
    /// The uninitialized account: an empty buffer, all of whose (zero)
    /// bytes are zero.
    fn default() -> (r: Account)
        ensures
            r@.len() == 0,
            r.spec_is_uninitialized(),
    {
        Account { data: Vec::new() }
    }
}

/// Byte-for-byte copy of a buffer.
pub fn clone_bytes(v: &Vec<u8>) -> (r: Vec<u8>)
    ensures
        r@ == v@,
{
    let mut r: Vec<u8> = Vec::new();
    let n = v.len();
    let mut i: usize = 0;
    while i < n
        invariant
            i <= n,
            n == v.len(),
            r@ == v@.subrange(0, i as int),
        decreases n - i,
    {
        r.push(v[i]);
        i += 1;
    }
    assert(r@ == v@);
    r
}

/// The byte sequences of a sequence of 32-byte keys.
pub open spec fn keys_view(keys: Seq<[u8; 32]>) -> Seq<Seq<u8>> {
    keys.map_values(|k: [u8; 32]| k@)
}

/// No two keys of the sequence hold the same bytes.
pub open spec fn unique_keys(keys: Seq<Seq<u8>>) -> bool {
    forall|i: int, j: int| 0 <= i < j < keys.len() ==> keys[i] != keys[j]
}

/// Byte-for-byte copy of a key list.
pub fn clone_keys(v: &Vec<[u8; 32]>) -> (r: Vec<[u8; 32]>)
    ensures
        r@ == v@,
{
    let mut r: Vec<[u8; 32]> = Vec::new();
    let n = v.len();
    let mut i: usize = 0;
    while i < n
        invariant
            i <= n,
            n == v.len(),
            r@ == v@.subrange(0, i as int),
        decreases n - i,
    {
        r.push(v[i]);
        i += 1;
    }
    assert(r@ == v@);
    r
}

/// Decide whether `key` occurs in `keys`.
pub fn keys_contain(keys: &Vec<[u8; 32]>, key: &[u8; 32]) -> (r: bool)
    ensures
        r == keys_view(keys@).contains(key@),
{
    let n = keys.len();
    let mut i: usize = 0;
    while i < n
        invariant
            i <= n,
            n == keys.len(),
            forall|j: int| 0 <= j < i ==> keys_view(keys@)[j] != key@,
        decreases n - i,
    {
        if key_eq(&keys[i], key) {
            assert(keys_view(keys@)[i as int] == key@);
            return true;
        }
        i += 1;
    }
    false
}

/// Find the first position at which `key` occurs in `keys`.
pub fn find_key_index(keys: &Vec<[u8; 32]>, key: &[u8; 32]) -> (r: Option<usize>)
    ensures
        r matches Some(i) ==> i < keys@.len() && keys_view(keys@)[i as int] == key@ && (forall|
            t: int,
        |
            0 <= t < i ==> keys_view(keys@)[t] != key@),
        r is None ==> !keys_view(keys@).contains(key@),
{
    let n = keys.len();
    let mut i: usize = 0;
    while i < n
        invariant
            i <= n,
            n == keys.len(),
            forall|t: int| 0 <= t < i ==> keys_view(keys@)[t] != key@,
        decreases n - i,
    {
        if key_eq(&keys[i], key) {
            assert(keys_view(keys@)[i as int] == key@);
            return Some(i);
        }
        i += 1;
    }
    None
}

/// Decide whether every key of `keys` is distinct from every other.
pub fn keys_unique(keys: &Vec<[u8; 32]>) -> (r: bool)
    ensures
        r == unique_keys(keys_view(keys@)),
{
    let n = keys.len();
    let mut i: usize = 1;
    while i < n
        invariant
            1 <= i <= n || n == 0,
            n == keys.len(),
            forall|a: int, b: int| 0 <= a < b < i ==> keys_view(keys@)[a] != keys_view(keys@)[b],
        decreases n - i,
    {
        let mut j: usize = 0;
        while j < i
            invariant
                j <= i < n,
                n == keys.len(),
                forall|t: int| 0 <= t < j ==> keys_view(keys@)[t] != keys_view(keys@)[i as int],
            decreases i - j,
        {
            if key_eq(&keys[i], &keys[j]) {
                assert(keys_view(keys@)[i as int] == keys_view(keys@)[j as int]);
                return false;
            }
            j += 1;
        }
        i += 1;
    }
    true
}

/// Compare two 32-byte keys for byte equality.
pub fn key_eq(a: &[u8; 32], b: &[u8; 32]) -> (r: bool)
    ensures
        r <==> a@ == b@,
{
    let mut i: usize = 0;
    while i < 32
        invariant
            i <= 32,
            forall|j: int| 0 <= j < i ==> a@[j] == b@[j],
        decreases 32 - i,
    {
        if a[i] != b[i] {
            return false;
        }
        i += 1;
    }
    assert(a@ =~= b@);
    true
}

/// An account together with the metadata the host attaches before a handler
/// runs: its identifier and whether the transaction's signature set (or a
/// delegated PDA authority) covers it.  The core never verifies signatures;
/// it only consumes this flag.
#[derive(Debug)]
pub struct AccountWithMetadata {
    pub account: Account,
    pub is_authorized: bool,
    pub account_id: AccountId,
}

impl AccountWithMetadata {
    pub fn new(account: Account, is_authorized: bool, account_id: AccountId) -> (r:
        AccountWithMetadata)
        ensures
            r.account@ == account@,
            r.is_authorized == is_authorized,
            r.account_id@ == account_id@,
    {
        AccountWithMetadata { account, is_authorized, account_id }
    }

    /// A copy holding the same bytes, identifier and flag.
    pub fn duplicate(&self) -> (r: AccountWithMetadata)
        ensures
            r.account@ == self.account@,
            r.is_authorized == self.is_authorized,
            r.account_id@ == self.account_id@,
    {
        AccountWithMetadata {
            account: self.account.duplicate(),
            is_authorized: self.is_authorized,
            account_id: AccountId { bytes: self.account_id.bytes },
        }
    }
}

/// The identifiers of the accounts the host marked as authorized, in
/// order.  These are the signer candidates a multisig quorum check counts.
pub open spec fn authorized_ids(accs: Seq<AccountWithMetadata>) -> Seq<Seq<u8>>
    decreases accs.len(),
{
    if accs.len() == 0 {
        Seq::empty()
    } else {
        let rest = authorized_ids(accs.drop_last());
        if accs.last().is_authorized {
            rest.push(accs.last().account_id@)
        } else {
            rest
        }
    }
}

/// Collect the identifiers of the authorized accounts from position
/// `start` onwards.
pub fn collect_authorized_signers(accounts: &Vec<AccountWithMetadata>, start: usize) -> (r: Vec<
    [u8; 32],
>)
    requires
        start <= accounts@.len(),
    ensures
        keys_view(r@) == authorized_ids(accounts@.skip(start as int)),
{
    let ghost tail = accounts@.skip(start as int);
    let n = accounts.len();
    let mut r: Vec<[u8; 32]> = Vec::new();
    let mut i: usize = start;
    while i < n
        invariant
            start <= i <= n,
            n == accounts@.len(),
            tail == accounts@.skip(start as int),
            keys_view(r@) == authorized_ids(tail.take(i - start)),
        decreases n - i,
    {
        let ghost pre = r@;
        proof {
            assert(tail.take(i - start + 1).drop_last() =~= tail.take(i - start));
            assert(tail.take(i - start + 1).last() == accounts@[i as int]);
        }
        if accounts[i].is_authorized {
            r.push(accounts[i].account_id.bytes);
            proof {
                assert(keys_view(r@) =~= keys_view(pre).push(accounts@[i as int].account_id@));
            }
        }
        i += 1;
    }
    proof {
        assert(tail.take(n - start) =~= tail);
    }
    r
}

/// The new byte buffer of one pre-state account, plus the claim marker:
/// `claimed` is true exactly when this call initializes the account and
/// takes ownership of it for the executing program.
#[derive(Debug)]
pub struct AccountPostState {
    pub account: Account,
    pub claimed: bool,
}

impl AccountPostState {
    /// A post-state that leaves the account's ownership unchanged.
    pub fn new(account: Account) -> (r: AccountPostState)
        ensures
            r.account@ == account@,
            !r.claimed,
    {
        AccountPostState { account, claimed: false }
    }

    /// A post-state that claims the account for the executing program.
    pub fn new_claimed(account: Account) -> (r: AccountPostState)
        ensures
            r.account@ == account@,
            r.claimed,
    {
        AccountPostState { account, claimed: true }
    }

    pub fn account(&self) -> (r: &Account)
        ensures
            r@ == self.account@,
    {
        &self.account
    }
}

/// A request for the host to invoke another program's instruction with
/// explicitly delegated authority.  The caller includes the target accounts
/// in `pre_states`, sets `is_authorized` only on accounts whose authority it
/// delegates, and attaches the PDA seeds from which the host re-derives and
/// verifies that delegation.  That the host performs this verification is a
/// trust boundary of this library: the core constructs the evidence but does
/// not re-check it.
#[derive(Debug)]
pub struct ChainedCall {
    pub program_id: ProgramId,
    pub instruction_data: Vec<u8>,
    pub pre_states: Vec<AccountWithMetadata>,
    pub pda_seeds: Vec<PdaSeed>,
}

/// What a successful handler hands back to the host: exactly one post-state
/// per pre-state account, in the same order, and the chained calls to run.
#[derive(Debug)]
pub struct ProgramOutput {
    pub post_states: Vec<AccountPostState>,
    pub chained_calls: Vec<ChainedCall>,
}

} // verus!

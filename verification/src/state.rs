//! Treasury vault state: how many vaults were ever created, and the signer
//! set allowed to move vault funds.
//!
//! The state lives in the treasury's program-derived account.  It is
//! created by the first CreateVault that targets the account (detected by
//! the all-zero-buffer sentinel) and read-modify-written by every later
//! one.

use vstd::prelude::*;
use vstd::bytes::spec_u64_to_le_bytes;
use vstd::bytes::spec_u64_from_le_bytes;
use vstd::bytes::lemma_auto_spec_u64_to_from_le_bytes;
use vstd::bytes::u64_to_le_bytes;
use vstd::bytes::u64_from_le_bytes;
use vstd::slice::slice_subrange;
use crate::account::clone_keys;
use crate::account::keys_view;
use crate::codec::RECORD_VERSION;
use crate::codec::all_keys_32;
use crate::codec::flatten_keys;
use crate::codec::parse_keys;
use crate::codec::lemma_flatten_keys_len;
use crate::codec::lemma_flatten_keys_push;
use crate::codec::lemma_parse_flatten_keys;
use crate::codec::push_key;
use crate::codec::read_key;
use crate::error::CodecError;
use crate::error::Error;

verus! {

/// The most authorized accounts a treasury record can hold and still fit
/// into an account's fixed-capacity buffer.
pub const AUTHORIZED_LIMIT: usize = 31;

/// The mathematical model of the treasury state.
pub struct TreasuryModel {
    pub vault_count: u64,
    pub authorized_accounts: Seq<Seq<u8>>,
}

impl TreasuryModel {
    /// The invariant of every persisted treasury state: the signer set is
    /// non-empty (it is set at vault creation), bounded, and 32-byte keys.
    pub open spec fn wf(self) -> bool {
        &&& 1 <= self.authorized_accounts.len()
        &&& self.authorized_accounts.len() <= AUTHORIZED_LIMIT as int
        &&& all_keys_32(self.authorized_accounts)
    }
}

/// The treasury state as the handlers hold it in memory.
#[derive(Debug)]
pub struct TreasuryState {
    pub vault_count: u64,
    pub authorized_accounts: Vec<[u8; 32]>,
}

impl View for TreasuryState {
    type V = TreasuryModel;

    open spec fn view(&self) -> TreasuryModel {
        TreasuryModel {
            vault_count: self.vault_count,
            authorized_accounts: keys_view(self.authorized_accounts@),
        }
    }
}

impl Default for TreasuryState {
    /// The state before any vault exists: zero vaults, nobody authorized.
    fn default() -> (r: TreasuryState)
        ensures
            r@.vault_count == 0,
            r@.authorized_accounts.len() == 0,
    {
        TreasuryState { vault_count: 0, authorized_accounts: Vec::new() }
    }
}

/// The persisted treasury record: version byte, vault count
/// (little-endian), the number of authorized accounts, then their keys
/// back to back.
pub open spec fn treasury_record(m: TreasuryModel) -> Seq<u8> {
    seq![RECORD_VERSION] + spec_u64_to_le_bytes(m.vault_count) + seq![
        m.authorized_accounts.len() as u8,
    ] + flatten_keys(m.authorized_accounts)
}

/// What reading a treasury record out of a byte buffer yields.
pub open spec fn spec_parse_treasury(s: Seq<u8>) -> Result<TreasuryModel, CodecError> {
    if s.len() < 10 {
        Err(CodecError::Truncated)
    } else if s[0] != RECORD_VERSION {
        Err(CodecError::UnsupportedVersion)
    } else if !(1 <= s[9] as int <= AUTHORIZED_LIMIT as int) {
        Err(CodecError::CountOutOfRange)
    } else if s.len() != 10 + 32 * (s[9] as int) {
        Err(CodecError::LengthMismatch)
    } else {
        Ok(
            TreasuryModel {
                vault_count: spec_u64_from_le_bytes(s.subrange(1, 9)),
                authorized_accounts: parse_keys(s, 10, s[9] as int),
            },
        )
    }
}

impl TreasuryState {
    pub open spec fn wf(self) -> bool {
        self@.wf()
    }

    /// Write this state as its persisted record.
    pub fn serialize(&self) -> (r: Vec<u8>)
        requires
            self.wf(),
        ensures
            r@ == treasury_record(self@),
            r@.len() == 10 + 32 * self@.authorized_accounts.len(),
    {
        let ghost av = self@.authorized_accounts;
        let mut out: Vec<u8> = Vec::new();
        out.push(RECORD_VERSION);
        let mut count_bytes = u64_to_le_bytes(self.vault_count);
        out.append(&mut count_bytes);
        out.push(self.authorized_accounts.len() as u8);
        let ghost header = out@;
        let n = self.authorized_accounts.len();
        let mut i: usize = 0;
        while i < n
            invariant
                i <= n,
                n == self.authorized_accounts@.len(),
                av == self@.authorized_accounts,
                out@ == header + flatten_keys(av.take(i as int)),
            decreases n - i,
        {
            push_key(&mut out, &self.authorized_accounts[i]);
            proof {
                lemma_flatten_keys_push(av.take(i as int), av[i as int]);
                assert(av.take(i as int).push(av[i as int]) =~= av.take(i as int + 1));
            }
            i += 1;
        }
        proof {
            assert(av.take(n as int) =~= av);
            assert(header =~= seq![RECORD_VERSION] + spec_u64_to_le_bytes(self@.vault_count)
                + seq![av.len() as u8]);
            lemma_flatten_keys_len(av);
        }
        out
    }

    /// Read a state back out of its persisted record, refusing any buffer
    /// that is not exactly a well-formed record.
    pub fn deserialize(data: &Vec<u8>) -> (r: Result<TreasuryState, CodecError>)
        ensures
            r matches Ok(s) ==> spec_parse_treasury(data@) == Ok::<TreasuryModel, CodecError>(s@)
                && s.wf(),
            r matches Err(e) ==> spec_parse_treasury(data@) == Err::<TreasuryModel, CodecError>(e),
    {
        if data.len() < 10 {
            return Err(CodecError::Truncated);
        }
        if data[0] != RECORD_VERSION {
            return Err(CodecError::UnsupportedVersion);
        }
        let n = data[9] as usize;
        if n < 1 || n > AUTHORIZED_LIMIT {
            return Err(CodecError::CountOutOfRange);
        }
        if data.len() != 10 + 32 * n {
            return Err(CodecError::LengthMismatch);
        }
        let vault_count = u64_from_le_bytes(slice_subrange(data.as_slice(), 1, 9));
        let mut authorized: Vec<[u8; 32]> = Vec::new();
        let mut j: usize = 0;
        while j < n
            invariant
                j <= n,
                n == data@[9] as int,
                data@.len() == 10 + 32 * n,
                authorized@.len() == j,
                forall|t: int|
                    0 <= t < j ==> keys_view(authorized@)[t] == data@.subrange(
                        10 + 32 * t,
                        10 + 32 * t + 32,
                    ),
            decreases n - j,
        {
            let key = read_key(data, 10 + 32 * j);
            let ghost pre = authorized@;
            authorized.push(key);
            proof {
                assert forall|t: int| 0 <= t < j + 1 implies keys_view(authorized@)[t]
                    == data@.subrange(10 + 32 * t, 10 + 32 * t + 32) by {
                    assert(keys_view(authorized@)[t] == authorized@[t]@);
                    if t < j {
                        assert(authorized@[t] == pre[t]);
                        assert(keys_view(pre)[t] == pre[t]@);
                    } else {
                        assert(authorized@[t] == key);
                    }
                }
            }
            j += 1;
        }
        let state = TreasuryState { vault_count, authorized_accounts: authorized };
        proof {
            assert(keys_view(authorized@) =~~= parse_keys(data@, 10, n as int));
            assert forall|i: int| 0 <= i < state@.authorized_accounts.len() implies (
            #[trigger] state@.authorized_accounts[i]).len() == 32 by {}
            assert(spec_parse_treasury(data@) == Ok::<TreasuryModel, CodecError>(state@));
        }
        Ok(state)
    }
}

/// A well-formed treasury record always fits into an account's
/// fixed-capacity buffer, so writing it back cannot fail.  This is where
/// `AUTHORIZED_LIMIT` comes from: one more key would still fit, but the
/// count byte caps the schema well inside the capacity.
pub proof fn lemma_treasury_record_fits(m: TreasuryModel)
    requires
        m.wf(),
    ensures
        treasury_record(m).len() <= crate::account::DATA_CAPACITY as int,
{
    lemma_auto_spec_u64_to_from_le_bytes();
    lemma_flatten_keys_len(m.authorized_accounts);
}

/// Reading a record back yields exactly the state that was written.
pub proof fn lemma_treasury_record_roundtrip(m: TreasuryModel)
    requires
        m.wf(),
    ensures
        spec_parse_treasury(treasury_record(m)) == Ok::<TreasuryModel, CodecError>(m),
{
    let s = treasury_record(m);
    let prefix = seq![RECORD_VERSION] + spec_u64_to_le_bytes(m.vault_count) + seq![
        m.authorized_accounts.len() as u8,
    ];
    lemma_auto_spec_u64_to_from_le_bytes();
    lemma_flatten_keys_len(m.authorized_accounts);
    assert(prefix.len() == 10);
    assert(s =~= prefix + flatten_keys(m.authorized_accounts));
    assert(s[0] == RECORD_VERSION);
    assert(s[9] == m.authorized_accounts.len() as u8);
    assert(s.subrange(1, 9) =~= spec_u64_to_le_bytes(m.vault_count));
    assert(spec_u64_from_le_bytes(s.subrange(1, 9)) == m.vault_count);
    lemma_parse_flatten_keys(m.authorized_accounts, prefix);
    assert(parse_keys(s, 10, m.authorized_accounts.len() as int) =~~= m.authorized_accounts);
    let parsed = spec_parse_treasury(s);
    assert(parsed matches Ok(p) && p == m);
}

/// What CreateVault does to the treasury state: one more vault ever
/// created, and the authorized-signer set replaced by the instruction's.
pub open spec fn spec_apply_create_vault(m: TreasuryModel, authorized: Seq<Seq<u8>>) -> Result<
    TreasuryModel,
    Error,
> {
    if authorized.len() == 0 {
        Err(Error::NoAuthorizedAccounts)
    } else if authorized.len() > AUTHORIZED_LIMIT as int {
        Err(Error::SerializationError { detail: CodecError::Oversize })
    } else if m.vault_count == u64::MAX {
        Err(Error::SerializationError { detail: CodecError::CounterSaturated })
    } else {
        Ok(
            TreasuryModel {
                vault_count: (m.vault_count + 1) as u64,
                authorized_accounts: authorized,
            },
        )
    }
}

impl TreasuryState {
    /// Count the new vault and install its authorized-signer set.
    pub fn apply_create_vault(&self, authorized: &Vec<[u8; 32]>) -> (r: Result<
        TreasuryState,
        Error,
    >)
        ensures
            r matches Ok(s) ==> spec_apply_create_vault(self@, keys_view(authorized@))
                == Ok::<TreasuryModel, Error>(s@) && s.wf(),
            r matches Err(e) ==> spec_apply_create_vault(self@, keys_view(authorized@))
                == Err::<TreasuryModel, Error>(e),
    {
        if authorized.len() == 0 {
            return Err(Error::NoAuthorizedAccounts);
        }
        if authorized.len() > AUTHORIZED_LIMIT {
            return Err(Error::SerializationError { detail: CodecError::Oversize });
        }
        if self.vault_count == u64::MAX {
            return Err(Error::SerializationError { detail: CodecError::CounterSaturated });
        }
        let s = TreasuryState {
            vault_count: self.vault_count + 1,
            authorized_accounts: clone_keys(authorized),
        };
        proof {
            assert forall|i: int| 0 <= i < s@.authorized_accounts.len() implies (#[trigger] s@
                .authorized_accounts[i]).len() == 32 by {}
        }
        Ok(s)
    }

    /// Whether `signer` is in the authorized-signer set.
    pub fn is_authorized_account(&self, signer: &[u8; 32]) -> (r: bool)
        ensures
            r == self@.authorized_accounts.contains(signer@),
    {
        crate::account::keys_contain(&self.authorized_accounts, signer)
    }
}

/// CreateVault with an empty authorized-signer set always fails with
/// `NoAuthorizedAccounts`, whatever the rest of its arguments and whatever
/// the state; nothing else about the state matters.
pub proof fn lemma_create_vault_empty_authorized_rejected(
    m: TreasuryModel,
    authorized: Seq<Seq<u8>>,
)
    requires
        authorized.len() == 0,
    ensures
        spec_apply_create_vault(m, authorized) == Err::<TreasuryModel, Error>(
            Error::NoAuthorizedAccounts,
        ),
{
}

} // verus!

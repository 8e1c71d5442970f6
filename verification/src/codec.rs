//! Byte-level helpers shared by the state records and the token-program
//! payloads.
//!
//! State that a handler persists is written through explicit, versioned
//! serialize/deserialize functions, so the handler logic itself only ever
//! touches typed structs.  All numeric fields are little-endian; 32-byte
//! keys are stored back to back.

use vstd::prelude::*;
use vstd::bytes::spec_u128_to_le_bytes;
use vstd::bytes::u128_to_le_bytes;
use crate::account::AccountId;
use crate::error::CodecError;

verus! {

/// The version byte every record of this library starts with.
pub const RECORD_VERSION: u8 = 1;

/// The concatenation of a sequence of keys.
pub open spec fn flatten_keys(keys: Seq<Seq<u8>>) -> Seq<u8>
    decreases keys.len(),
{
    if keys.len() == 0 {
        Seq::empty()
    } else {
        keys[0] + flatten_keys(keys.drop_first())
    }
}

/// Every key of `keys` is exactly 32 bytes long.
pub open spec fn all_keys_32(keys: Seq<Seq<u8>>) -> bool {
    forall|i: int| 0 <= i < keys.len() ==> (#[trigger] keys[i]).len() == 32
}

/// The keys stored back to back in `s`, starting at `off`, `n` of them.
pub open spec fn parse_keys(s: Seq<u8>, off: int, n: int) -> Seq<Seq<u8>> {
    Seq::new(n as nat, |j: int| s.subrange(off + 32 * j, off + 32 * j + 32))
}

pub proof fn lemma_flatten_keys_push(keys: Seq<Seq<u8>>, k: Seq<u8>)
    ensures
        flatten_keys(keys.push(k)) == flatten_keys(keys) + k,
    decreases keys.len(),
{
    if keys.len() == 0 {
        assert(keys.push(k).drop_first() =~= Seq::<Seq<u8>>::empty());
        assert(flatten_keys(keys.push(k).drop_first()) == Seq::<u8>::empty());
        assert(flatten_keys(keys.push(k)) == k + Seq::<u8>::empty());
        assert(flatten_keys(keys.push(k)) =~= flatten_keys(keys) + k);
    } else {
        assert(keys.push(k).drop_first() =~= keys.drop_first().push(k));
        lemma_flatten_keys_push(keys.drop_first(), k);
        assert(flatten_keys(keys.push(k)) =~= flatten_keys(keys) + k);
    }
}

pub proof fn lemma_flatten_keys_len(keys: Seq<Seq<u8>>)
    requires
        all_keys_32(keys),
    ensures
        flatten_keys(keys).len() == 32 * keys.len(),
    decreases keys.len(),
{
    if keys.len() > 0 {
        lemma_flatten_keys_len(keys.drop_first());
    }
}

/// Reading key `j` back out of the concatenation yields the key itself.
pub proof fn lemma_flatten_keys_index(keys: Seq<Seq<u8>>, j: int)
    requires
        all_keys_32(keys),
        0 <= j < keys.len(),
    ensures
        flatten_keys(keys).subrange(32 * j, 32 * j + 32) == keys[j],
    decreases j,
{
    lemma_flatten_keys_len(keys);
    lemma_flatten_keys_len(keys.drop_first());
    if j == 0 {
        assert(flatten_keys(keys).subrange(0, 32) =~= keys[0]);
    } else {
        lemma_flatten_keys_index(keys.drop_first(), j - 1);
        assert(flatten_keys(keys).subrange(32 * j, 32 * j + 32) =~= flatten_keys(
            keys.drop_first(),
        ).subrange(32 * (j - 1), 32 * (j - 1) + 32));
    }
}

/// Parsing the concatenation of `n` keys recovers the keys.
pub proof fn lemma_parse_flatten_keys(keys: Seq<Seq<u8>>, prefix: Seq<u8>)
    requires
        all_keys_32(keys),
    ensures
        parse_keys(prefix + flatten_keys(keys), prefix.len() as int, keys.len() as int) =~~= keys,
{
    let s = prefix + flatten_keys(keys);
    let off = prefix.len() as int;
    lemma_flatten_keys_len(keys);
    assert forall|j: int| 0 <= j < keys.len() implies parse_keys(s, off, keys.len() as int)[j]
        == keys[j] by {
        lemma_flatten_keys_index(keys, j);
        assert(s.subrange(off + 32 * j, off + 32 * j + 32) =~= flatten_keys(keys).subrange(
            32 * j,
            32 * j + 32,
        ));
    }
}

/// Append one 32-byte key to a byte buffer.
pub fn push_key(out: &mut Vec<u8>, key: &[u8; 32])
    ensures
        final(out)@ == old(out)@ + key@,
{
    let ghost base = out@;
    let mut i: usize = 0;
    while i < 32
        invariant
            i <= 32,
            out@ == base + key@.subrange(0, i as int),
        decreases 32 - i,
    {
        out.push(key[i]);
        assert(base + key@.subrange(0, i as int) + seq![key@[i as int]] =~= base + key@.subrange(
            0,
            i as int + 1,
        ));
        i += 1;
    }
    assert(base + key@.subrange(0, 32) =~= base + key@);
}

/// Read the 32-byte key that starts at `off`.
pub fn read_key(s: &Vec<u8>, off: usize) -> (r: [u8; 32])
    requires
        off + 32 <= s@.len(),
    ensures
        r@ == s@.subrange(off as int, off as int + 32),
{
    let n = s.len();
    let mut r: [u8; 32] = [0u8; 32];
    let mut i: usize = 0;
    while i < 32
        invariant
            i <= 32,
            off + 32 <= n,
            n == s@.len(),
            forall|j: int| 0 <= j < i ==> r@[j] == s@[off + j],
        decreases 32 - i,
    {
        r[i] = s[off + i];
        i += 1;
    }
    assert(r@ =~= s@.subrange(off as int, off as int + 32));
    r
}

/// The token program's "create fungible definition with initial supply"
/// payload: tag byte 0, the supply little-endian, then the 6-byte name.
pub open spec fn new_definition_payload(supply: u128, name: Seq<u8>) -> Seq<u8> {
    seq![0u8] + spec_u128_to_le_bytes(supply) + name
}

/// The token program's "transfer between two holdings" payload: tag byte 1,
/// the amount little-endian, then a zeroed name field.
pub open spec fn transfer_payload(amount: u128) -> Seq<u8> {
    seq![1u8] + spec_u128_to_le_bytes(amount) + seq![0u8, 0u8, 0u8, 0u8, 0u8, 0u8]
}

/// Build the create-definition payload for a chained token call.
pub fn build_new_definition_instruction(initial_supply: u128, token_name: &[u8; 6]) -> (r: Vec<
    u8,
>)
    ensures
        r@ == new_definition_payload(initial_supply, token_name@),
        r@.len() == 23,
{
    let mut out: Vec<u8> = Vec::new();
    out.push(0u8);
    let mut supply = u128_to_le_bytes(initial_supply);
    out.append(&mut supply);
    let mut i: usize = 0;
    while i < 6
        invariant
            i <= 6,
            out@ == seq![0u8] + spec_u128_to_le_bytes(initial_supply) + token_name@.subrange(
                0,
                i as int,
            ),
        decreases 6 - i,
    {
        out.push(token_name[i]);
        assert(seq![0u8] + spec_u128_to_le_bytes(initial_supply) + token_name@.subrange(
            0,
            i as int,
        ) + seq![token_name@[i as int]] =~= seq![0u8] + spec_u128_to_le_bytes(initial_supply)
            + token_name@.subrange(0, i as int + 1));
        i += 1;
    }
    assert(out@ =~= new_definition_payload(initial_supply, token_name@));
    out
}

/// Build the transfer payload for a chained token call.
pub fn build_transfer_instruction(amount: u128) -> (r: Vec<u8>)
    ensures
        r@ == transfer_payload(amount),
        r@.len() == 23,
{
    let mut out: Vec<u8> = Vec::new();
    out.push(1u8);
    let mut le = u128_to_le_bytes(amount);
    out.append(&mut le);
    let mut i: usize = 0;
    while i < 6
        invariant
            i <= 6,
            out@.len() == 17 + i,
            out@.subrange(0, 17) == seq![1u8] + spec_u128_to_le_bytes(amount),
            forall|j: int| 17 <= j < out@.len() ==> out@[j] == 0,
        decreases 6 - i,
    {
        out.push(0u8);
        assert(out@.subrange(0, 17) =~= seq![1u8] + spec_u128_to_le_bytes(amount));
        i += 1;
    }
    assert(out@ =~= transfer_payload(amount));
    out
}

/// A token holding account embeds the identifier of its token definition at
/// byte offset 1.  Extract it, verifying the buffer is long enough first.
pub fn extract_definition_id(data: &Vec<u8>) -> (r: Result<AccountId, CodecError>)
    ensures
        data@.len() >= 33 ==> (r matches Ok(id) && id@ == data@.subrange(1, 33)),
        data@.len() < 33 ==> r == Err::<AccountId, CodecError>(CodecError::Truncated),
{
    if data.len() < 33 {
        return Err(CodecError::Truncated);
    }
    let bytes = read_key(data, 1);
    Ok(AccountId::new(bytes))
}

} // verus!

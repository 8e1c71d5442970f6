// Multisig governance: membership, threshold, signer quorum, nonce.

use treasury::account::Account;
use treasury::account::AccountId;
use treasury::account::AccountWithMetadata;
use treasury::add_member;
use treasury::change_threshold;
use treasury::create_multisig;
use treasury::error::CodecError;
use treasury::error::Error;
use treasury::multisig::MultisigState;
use treasury::remove_member;

fn make_account(id: &[u8; 32], data: Vec<u8>) -> AccountWithMetadata {
    AccountWithMetadata::new(Account::new(data), false, AccountId::new(*id))
}

fn make_multisig_state(threshold: u8, members: Vec<[u8; 32]>) -> Vec<u8> {
    MultisigState::new(threshold, members).serialize()
}

fn parse_state(post: &treasury::account::AccountPostState) -> MultisigState {
    MultisigState::deserialize(&post.account.data).unwrap()
}

#[test]
fn test_add_member_threshold_met() {
    let members = vec![[1u8; 32], [2u8; 32], [3u8; 32]];
    let state_data = make_multisig_state(2, members.clone());

    // 2 signers for threshold 2
    let mut acc1 = make_account(&[1u8; 32], vec![]);
    acc1.is_authorized = true;
    let mut acc2 = make_account(&[2u8; 32], vec![]);
    acc2.is_authorized = true;

    let accounts = vec![make_account(&[10u8; 32], state_data), acc1, acc2];

    let new_member = [4u8; 32];
    let out = add_member::handle(&accounts, &new_member).unwrap();

    assert_eq!(out.post_states.len(), 1);
    let state = parse_state(&out.post_states[0]);
    assert_eq!(state.member_count, 4);
    assert_eq!(state.nonce, 1);
}

#[test]
fn test_add_member_threshold_not_met() {
    let members = vec![[1u8; 32], [2u8; 32], [3u8; 32]];
    let state_data = make_multisig_state(2, members);

    // Only 1 signer for threshold 2
    let mut acc1 = make_account(&[1u8; 32], vec![]);
    acc1.is_authorized = true;

    let accounts = vec![make_account(&[10u8; 32], state_data), acc1];

    let new_member = [4u8; 32];
    let r = add_member::handle(&accounts, &new_member);
    assert_eq!(r.unwrap_err(), Error::InsufficientSignatures { required: 2, got: 1 });
}

#[test]
fn test_add_member_already_exists() {
    let members = vec![[1u8; 32], [2u8; 32]];
    let state_data = make_multisig_state(1, members);

    let mut acc1 = make_account(&[1u8; 32], vec![]);
    acc1.is_authorized = true;

    let accounts = vec![make_account(&[10u8; 32], state_data), acc1];

    // Try to add member 1 (already exists)
    let r = add_member::handle(&accounts, &[1u8; 32]);
    assert_eq!(r.unwrap_err(), Error::DuplicateMember);
}

#[test]
fn test_add_member_increments_nonce() {
    let members = vec![[1u8; 32], [2u8; 32]];
    let state_data = make_multisig_state(1, members);

    let mut acc1 = make_account(&[1u8; 32], vec![]);
    acc1.is_authorized = true;

    let accounts = vec![make_account(&[10u8; 32], state_data), acc1];

    let new_member = [3u8; 32];
    let out = add_member::handle(&accounts, &new_member).unwrap();

    let state = parse_state(&out.post_states[0]);
    assert_eq!(state.nonce, 1);
}

#[test]
fn test_add_member_different_member_not_authorized() {
    // Non-member signing should be ignored, but threshold still met by member
    let members = vec![[1u8; 32], [2u8; 32], [3u8; 32]];
    let state_data = make_multisig_state(1, members); // threshold 1

    // Member 1 is authorized, but member 9 is not a member (should be ignored)
    let mut acc1 = make_account(&[1u8; 32], vec![]);
    acc1.is_authorized = true;
    let mut acc9 = make_account(&[9u8; 32], vec![]);
    acc9.is_authorized = true; // Signs but not a member

    let accounts = vec![make_account(&[10u8; 32], state_data), acc1, acc9];

    let new_member = [4u8; 32];
    let out = add_member::handle(&accounts, &new_member).unwrap();

    let state = parse_state(&out.post_states[0]);
    assert_eq!(state.member_count, 4);
}

#[test]
fn test_change_threshold_threshold_met() {
    let members = vec![[1u8; 32], [2u8; 32], [3u8; 32]];
    let state_data = make_multisig_state(2, members);

    let mut acc1 = make_account(&[1u8; 32], vec![]);
    acc1.is_authorized = true;
    let mut acc2 = make_account(&[2u8; 32], vec![]);
    acc2.is_authorized = true;

    let accounts = vec![make_account(&[10u8; 32], state_data), acc1, acc2];

    let out = change_threshold::handle(&accounts, 3).unwrap(); // Change to threshold 3

    assert_eq!(out.post_states.len(), 1);
    let state = parse_state(&out.post_states[0]);
    assert_eq!(state.threshold, 3);
    assert_eq!(state.nonce, 1);
}

#[test]
fn test_change_threshold_not_met() {
    let members = vec![[1u8; 32], [2u8; 32], [3u8; 32]];
    let state_data = make_multisig_state(2, members);

    let mut acc1 = make_account(&[1u8; 32], vec![]);
    acc1.is_authorized = true;

    let accounts = vec![make_account(&[10u8; 32], state_data), acc1];

    let r = change_threshold::handle(&accounts, 3);
    assert_eq!(r.unwrap_err(), Error::InsufficientSignatures { required: 2, got: 1 });
}

#[test]
fn test_change_threshold_zero() {
    let members = vec![[1u8; 32], [2u8; 32]];
    let state_data = make_multisig_state(1, members);

    let mut acc1 = make_account(&[1u8; 32], vec![]);
    acc1.is_authorized = true;

    let accounts = vec![make_account(&[10u8; 32], state_data), acc1];

    let r = change_threshold::handle(&accounts, 0);
    assert_eq!(r.unwrap_err(), Error::InvalidThreshold);
}

#[test]
fn test_change_threshold_exceeds_members() {
    let members = vec![[1u8; 32], [2u8; 32]];
    let state_data = make_multisig_state(1, members);

    let mut acc1 = make_account(&[1u8; 32], vec![]);
    acc1.is_authorized = true;

    let accounts = vec![make_account(&[10u8; 32], state_data), acc1];

    let r = change_threshold::handle(&accounts, 5); // 5 > 2 members
    assert_eq!(r.unwrap_err(), Error::InvalidThreshold);
}

#[test]
fn test_change_threshold_boundaries() {
    // 1 and member_count succeed; 0 and member_count + 1 fail.
    let members = vec![[1u8; 32], [2u8; 32], [3u8; 32]];
    for (t, ok) in [(0u8, false), (1, true), (3, true), (4, false)] {
        let state_data = make_multisig_state(1, members.clone());
        let mut acc1 = make_account(&[1u8; 32], vec![]);
        acc1.is_authorized = true;
        let accounts = vec![make_account(&[10u8; 32], state_data), acc1];
        let r = change_threshold::handle(&accounts, t);
        if ok {
            let state = parse_state(&r.unwrap().post_states[0]);
            assert_eq!(state.threshold, t);
            assert_eq!(state.nonce, 1);
        } else {
            assert_eq!(r.unwrap_err(), Error::InvalidThreshold);
        }
    }
}

#[test]
fn test_add_member_duplicate_regardless_of_signers() {
    // The duplicate is rejected whether or not the quorum would be met.
    let members = vec![[1u8; 32], [2u8; 32], [3u8; 32]];

    // No signers at all: still DuplicateMember, not InsufficientSignatures.
    let state_data = make_multisig_state(2, members.clone());
    let accounts = vec![make_account(&[10u8; 32], state_data)  , make_account(&[9u8; 32], vec![])];
    assert_eq!(
        add_member::handle(&accounts, &[2u8; 32]).unwrap_err(),
        Error::DuplicateMember
    );

    // All members signing: still DuplicateMember.
    let state_data = make_multisig_state(2, members.clone());
    let mut signers = Vec::new();
    for id in [[1u8; 32], [2u8; 32], [3u8; 32]] {
        let mut a = make_account(&id, vec![]);
        a.is_authorized = true;
        signers.push(a);
    }
    let mut accounts = vec![make_account(&[10u8; 32], state_data)];
    accounts.extend(signers);
    assert_eq!(
        add_member::handle(&accounts, &[2u8; 32]).unwrap_err(),
        Error::DuplicateMember
    );
}

#[test]
fn test_scenario_add_member_then_duplicate() {
    // Three members [A, B, C], threshold 2, nonce 0.  AddMember(D) signed
    // by {A, B} succeeds: members [A, B, C, D], member_count 4, nonce 1.
    // AddMember(D) again, signed by {A, B, C}, fails DuplicateMember and
    // the nonce stays 1.
    let a = [0xAAu8; 32];
    let b = [0xBBu8; 32];
    let c = [0xCCu8; 32];
    let d = [0xDDu8; 32];
    let state_data = make_multisig_state(2, vec![a, b, c]);
    let state0 = MultisigState::deserialize(&state_data).unwrap();
    assert_eq!(state0.nonce, 0);

    let mut acc_a = make_account(&a, vec![]);
    acc_a.is_authorized = true;
    let mut acc_b = make_account(&b, vec![]);
    acc_b.is_authorized = true;
    let accounts = vec![make_account(&[10u8; 32], state_data), acc_a, acc_b];
    let out = add_member::handle(&accounts, &d).unwrap();
    let state1 = parse_state(&out.post_states[0]);
    assert_eq!(state1.members, vec![a, b, c, d]);
    assert_eq!(state1.member_count, 4);
    assert_eq!(state1.nonce, 1);

    // Second AddMember(D) on the new state, signed by {A, B, C}.
    let new_data = state1.serialize();
    let mut acc_a = make_account(&a, vec![]);
    acc_a.is_authorized = true;
    let mut acc_b = make_account(&b, vec![]);
    acc_b.is_authorized = true;
    let mut acc_c = make_account(&c, vec![]);
    acc_c.is_authorized = true;
    let accounts = vec![make_account(&[10u8; 32], new_data.clone()), acc_a, acc_b, acc_c];
    let r = add_member::handle(&accounts, &d);
    assert_eq!(r.unwrap_err(), Error::DuplicateMember);
    // The error carries no post-state; the persisted record is untouched
    // and still shows nonce 1.
    assert_eq!(MultisigState::deserialize(&new_data).unwrap().nonce, 1);
}

#[test]
fn test_remove_member() {
    let members = vec![[1u8; 32], [2u8; 32], [3u8; 32]];
    let state_data = make_multisig_state(2, members);
    let mut acc1 = make_account(&[1u8; 32], vec![]);
    acc1.is_authorized = true;
    let mut acc2 = make_account(&[2u8; 32], vec![]);
    acc2.is_authorized = true;
    let accounts = vec![make_account(&[10u8; 32], state_data), acc1, acc2];
    let out = remove_member::handle(&accounts, &[3u8; 32]).unwrap();
    let state = parse_state(&out.post_states[0]);
    assert_eq!(state.members, vec![[1u8; 32], [2u8; 32]]);
    assert_eq!(state.member_count, 2);
    assert_eq!(state.nonce, 1);
}

#[test]
fn test_remove_member_not_a_member() {
    let members = vec![[1u8; 32], [2u8; 32]];
    let state_data = make_multisig_state(1, members);
    let mut acc1 = make_account(&[1u8; 32], vec![]);
    acc1.is_authorized = true;
    let accounts = vec![make_account(&[10u8; 32], state_data), acc1];
    let r = remove_member::handle(&accounts, &[7u8; 32]);
    assert_eq!(r.unwrap_err(), Error::NotAMember);
}

#[test]
fn test_remove_member_would_break_threshold() {
    // Removing below the threshold is refused, not auto-lowered.
    let members = vec![[1u8; 32], [2u8; 32]];
    let state_data = make_multisig_state(2, members);
    let mut acc1 = make_account(&[1u8; 32], vec![]);
    acc1.is_authorized = true;
    let mut acc2 = make_account(&[2u8; 32], vec![]);
    acc2.is_authorized = true;
    let accounts = vec![make_account(&[10u8; 32], state_data), acc1, acc2];
    let r = remove_member::handle(&accounts, &[2u8; 32]);
    assert_eq!(r.unwrap_err(), Error::InvalidThreshold);
}

#[test]
fn test_add_member_limit_exceeded() {
    let mut members = Vec::new();
    for i in 0..10u8 {
        members.push([i + 1; 32]);
    }
    let state_data = make_multisig_state(1, members);
    let mut acc1 = make_account(&[1u8; 32], vec![]);
    acc1.is_authorized = true;
    let accounts = vec![make_account(&[10u8; 32], state_data), acc1];
    let r = add_member::handle(&accounts, &[42u8; 32]);
    assert_eq!(r.unwrap_err(), Error::MemberLimitExceeded);
}

#[test]
fn test_add_member_nonce_saturated() {
    // A record whose nonce is already at the maximum cannot be advanced.
    let state = MultisigState {
        threshold: 1,
        members: vec![[1u8; 32]],
        member_count: 1,
        nonce: u64::MAX,
    };
    let state_data = state.serialize();
    let mut acc1 = make_account(&[1u8; 32], vec![]);
    acc1.is_authorized = true;
    let accounts = vec![make_account(&[10u8; 32], state_data), acc1];
    let r = add_member::handle(&accounts, &[2u8; 32]);
    assert_eq!(
        r.unwrap_err(),
        Error::SerializationError { detail: CodecError::CounterSaturated }
    );
}

#[test]
fn test_add_member_malformed_account_list() {
    let accounts = vec![make_account(&[10u8; 32], vec![])];
    let r = add_member::handle(&accounts, &[2u8; 32]);
    assert_eq!(r.unwrap_err(), Error::MalformedAccountList { expected: 2, got: 1 });
}

#[test]
fn test_add_member_garbage_state() {
    let mut acc1 = make_account(&[1u8; 32], vec![]);
    acc1.is_authorized = true;
    let accounts = vec![make_account(&[10u8; 32], vec![0xFF, 0x01, 0x02]), acc1];
    let r = add_member::handle(&accounts, &[2u8; 32]);
    assert_eq!(
        r.unwrap_err(),
        Error::DeserializationError { account_index: 0, detail: CodecError::Truncated }
    );
}

#[test]
fn test_create_multisig() {
    let accounts = vec![make_account(&[10u8; 32], vec![])];
    let members = vec![[1u8; 32], [2u8; 32], [3u8; 32]];
    let out = create_multisig::handle(&accounts, 2, &members).unwrap();
    assert_eq!(out.post_states.len(), 1);
    assert!(out.post_states[0].claimed);
    let state = parse_state(&out.post_states[0]);
    assert_eq!(state.threshold, 2);
    assert_eq!(state.members, members);
    assert_eq!(state.member_count, 3);
    assert_eq!(state.nonce, 0);
}

#[test]
fn test_create_multisig_threshold_exceeds_members() {
    let accounts = vec![make_account(&[10u8; 32], vec![])];
    let members = vec![[1u8; 32], [2u8; 32]];
    let r = create_multisig::handle(&accounts, 3, &members);
    assert_eq!(r.unwrap_err(), Error::InvalidThreshold);
}

#[test]
fn test_create_multisig_already_initialized() {
    let members = vec![[1u8; 32], [2u8; 32]];
    let state_data = make_multisig_state(1, members.clone());
    let accounts = vec![make_account(&[10u8; 32], state_data)];
    let r = create_multisig::handle(&accounts, 1, &members);
    assert_eq!(r.unwrap_err(), Error::Unauthorized);
}

#[test]
fn test_multisig_deserialize_rejects_bad_records() {
    let good = MultisigState::new(1, vec![[1u8; 32], [2u8; 32]]).serialize();

    // Wrong version byte.
    let mut bad = good.clone();
    bad[0] = 9;
    assert_eq!(
        MultisigState::deserialize(&bad).unwrap_err(),
        CodecError::UnsupportedVersion
    );

    // Member count outside 1..=10.
    let mut bad = good.clone();
    bad[2] = 0;
    assert_eq!(
        MultisigState::deserialize(&bad).unwrap_err(),
        CodecError::CountOutOfRange
    );
    let mut bad = good.clone();
    bad[2] = 11;
    assert_eq!(
        MultisigState::deserialize(&bad).unwrap_err(),
        CodecError::CountOutOfRange
    );

    // Buffer longer than the record it claims to hold.
    let mut bad = good.clone();
    bad.push(0);
    assert_eq!(
        MultisigState::deserialize(&bad).unwrap_err(),
        CodecError::LengthMismatch
    );

    // Threshold above the member count, and a duplicate member: both
    // violate the state's invariant.
    let mut bad = good.clone();
    bad[1] = 3;
    assert_eq!(
        MultisigState::deserialize(&bad).unwrap_err(),
        CodecError::InvalidRecord
    );
    let mut dup = vec![1u8, 1, 2];
    dup.extend_from_slice(&0u64.to_le_bytes());
    dup.extend_from_slice(&[1u8; 32]);
    dup.extend_from_slice(&[1u8; 32]);
    assert_eq!(
        MultisigState::deserialize(&dup).unwrap_err(),
        CodecError::InvalidRecord
    );
}

#[test]
fn test_multisig_record_roundtrip() {
    let state = MultisigState::new(2, vec![[5u8; 32], [6u8; 32], [7u8; 32]]);
    let bytes = state.serialize();
    let back = MultisigState::deserialize(&bytes).unwrap();
    assert_eq!(back.threshold, 2);
    assert_eq!(back.members, vec![[5u8; 32], [6u8; 32], [7u8; 32]]);
    assert_eq!(back.member_count, 3);
    assert_eq!(back.nonce, 0);
}

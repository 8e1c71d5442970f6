// Treasury vault lifecycle: create, send, deposit, execute.

use treasury::account::Account;
use treasury::account::AccountId;
use treasury::account::AccountWithMetadata;
use treasury::account::ProgramId;
use treasury::create_vault;
use treasury::deposit;
use treasury::error::CodecError;
use treasury::error::Error;
use treasury::execute;
use treasury::instruction::Instruction;
use treasury::multisig::MultisigState;
use treasury::process;
use treasury::send;
use treasury::state::TreasuryState;

fn make_account(id: &[u8; 32], data: Vec<u8>) -> AccountWithMetadata {
    AccountWithMetadata::new(Account::new(data), false, AccountId::new(*id))
}

fn treasury_data(vault_count: u64, authorized: Vec<[u8; 32]>) -> Vec<u8> {
    TreasuryState { vault_count, authorized_accounts: authorized }.serialize()
}

fn vault_data_with_definition(definition_id: &[u8; 32]) -> Vec<u8> {
    // A token holding: a leading tag byte, the definition id at offset
    // 1..33, then whatever balance bytes the token program keeps.
    let mut data = vec![1u8];
    data.extend_from_slice(definition_id);
    data.extend_from_slice(&[0u8; 16]);
    data
}

#[test]
fn test_create_vault_first_time() {
    let token_program = ProgramId::new([0xEE; 32]);
    let accounts = vec![
        make_account(&[10u8; 32], vec![]),
        make_account(&[11u8; 32], vec![]),
        make_account(&[12u8; 32], vec![]),
    ];
    let signer = [0xA1u8; 32];
    let out = create_vault::create_vault(
        &accounts,
        b"mytokn",
        500_000u128,
        &token_program,
        &vec![signer],
    )
    .unwrap();

    assert_eq!(out.post_states.len(), 3);
    assert!(out.post_states[0].claimed);
    let state = TreasuryState::deserialize(&out.post_states[0].account.data).unwrap();
    assert_eq!(state.vault_count, 1);
    assert_eq!(state.authorized_accounts, vec![signer]);

    assert_eq!(out.chained_calls.len(), 1);
    let cc = &out.chained_calls[0];
    assert_eq!(cc.program_id.bytes, [0xEE; 32]);
    // Payload: tag 0, supply little-endian, 6-byte name.
    let mut expected = vec![0u8];
    expected.extend_from_slice(&500_000u128.to_le_bytes());
    expected.extend_from_slice(b"mytokn");
    assert_eq!(cc.instruction_data, expected);
    assert_eq!(cc.pre_states.len(), 2);
    // The vault holding is handed over with delegated authority and its
    // PDA seed: the token definition's identifier.
    assert!(cc.pre_states[1].is_authorized);
    assert_eq!(cc.pda_seeds.len(), 1);
    assert_eq!(cc.pda_seeds[0].bytes, [11u8; 32]);
}

#[test]
fn test_create_vault_second_time_counts_up() {
    let token_program = ProgramId::new([0xEE; 32]);
    let accounts = vec![
        make_account(&[10u8; 32], treasury_data(3, vec![[0xA1; 32]])),
        make_account(&[11u8; 32], vec![]),
        make_account(&[12u8; 32], vec![]),
    ];
    let out = create_vault::create_vault(
        &accounts,
        b"mytokn",
        1u128,
        &token_program,
        &vec![[0xB2; 32]],
    )
    .unwrap();
    assert!(!out.post_states[0].claimed);
    let state = TreasuryState::deserialize(&out.post_states[0].account.data).unwrap();
    assert_eq!(state.vault_count, 4);
    // The authorized set is replaced, not appended to.
    assert_eq!(state.authorized_accounts, vec![[0xB2; 32]]);
}

#[test]
fn test_create_vault_empty_authorized_rejected() {
    // Fails before any state is read: even a garbage treasury buffer does
    // not matter, and no post-state is emitted, so vault_count of the
    // persisted record is unchanged.
    let token_program = ProgramId::new([0xEE; 32]);
    let persisted = treasury_data(7, vec![[0xA1; 32]]);
    let accounts = vec![
        make_account(&[10u8; 32], persisted.clone()),
        make_account(&[11u8; 32], vec![]),
        make_account(&[12u8; 32], vec![]),
    ];
    let r = create_vault::create_vault(&accounts, b"mytokn", 1u128, &token_program, &vec![]);
    assert_eq!(r.unwrap_err(), Error::NoAuthorizedAccounts);
    assert_eq!(TreasuryState::deserialize(&persisted).unwrap().vault_count, 7);

    // The same before any state exists, and on an unreadable buffer.
    let accounts = vec![
        make_account(&[10u8; 32], vec![0xFF, 0xFF]),
        make_account(&[11u8; 32], vec![]),
        make_account(&[12u8; 32], vec![]),
    ];
    let r = create_vault::create_vault(&accounts, b"mytokn", 1u128, &token_program, &vec![]);
    assert_eq!(r.unwrap_err(), Error::NoAuthorizedAccounts);
}

#[test]
fn test_create_vault_too_many_authorized() {
    let token_program = ProgramId::new([0xEE; 32]);
    let accounts = vec![
        make_account(&[10u8; 32], vec![]),
        make_account(&[11u8; 32], vec![]),
        make_account(&[12u8; 32], vec![]),
    ];
    let mut authorized = Vec::new();
    for i in 0..32u8 {
        authorized.push([i; 32]);
    }
    let r = create_vault::create_vault(&accounts, b"mytokn", 1u128, &token_program, &authorized);
    assert_eq!(
        r.unwrap_err(),
        Error::SerializationError { detail: CodecError::Oversize }
    );
}

#[test]
fn test_send_authorized() {
    let token_program = ProgramId::new([0xEE; 32]);
    let signer_id = [0xA1u8; 32];
    let definition_id = [0x77u8; 32];
    let mut signer = make_account(&signer_id, vec![]);
    signer.is_authorized = true;
    let accounts = vec![
        make_account(&[10u8; 32], treasury_data(1, vec![signer_id])),
        make_account(&[11u8; 32], vault_data_with_definition(&definition_id)),
        make_account(&[12u8; 32], vec![]),
        signer,
    ];
    let out = send::send(&accounts, 1000u128, &token_program).unwrap();
    assert_eq!(out.post_states.len(), 4);
    for (i, post) in out.post_states.iter().enumerate() {
        assert_eq!(post.account.data, accounts[i].account.data);
        assert!(!post.claimed);
    }
    assert_eq!(out.chained_calls.len(), 1);
    let cc = &out.chained_calls[0];
    let mut expected = vec![1u8];
    expected.extend_from_slice(&1000u128.to_le_bytes());
    expected.extend_from_slice(&[0u8; 6]);
    assert_eq!(cc.instruction_data, expected);
    assert!(cc.pre_states[0].is_authorized);
    // The PDA seed is the definition id read out of the vault's bytes.
    assert_eq!(cc.pda_seeds[0].bytes, definition_id);
}

#[test]
fn test_send_signer_not_in_authorized_set() {
    // Send of amount 1000 by a signer outside authorized_accounts fails
    // Unauthorized; no chained call is emitted.
    let token_program = ProgramId::new([0xEE; 32]);
    let definition_id = [0x77u8; 32];
    let mut signer = make_account(&[0xB2u8; 32], vec![]);
    signer.is_authorized = true;
    let accounts = vec![
        make_account(&[10u8; 32], treasury_data(1, vec![[0xA1; 32]])),
        make_account(&[11u8; 32], vault_data_with_definition(&definition_id)),
        make_account(&[12u8; 32], vec![]),
        signer,
    ];
    let r = send::send(&accounts, 1000u128, &token_program);
    assert_eq!(r.unwrap_err(), Error::Unauthorized);
}

#[test]
fn test_send_signer_without_host_authorization() {
    // In the set, but the host did not mark the account authorized.
    let token_program = ProgramId::new([0xEE; 32]);
    let signer_id = [0xA1u8; 32];
    let definition_id = [0x77u8; 32];
    let signer = make_account(&signer_id, vec![]);
    let accounts = vec![
        make_account(&[10u8; 32], treasury_data(1, vec![signer_id])),
        make_account(&[11u8; 32], vault_data_with_definition(&definition_id)),
        make_account(&[12u8; 32], vec![]),
        signer,
    ];
    let r = send::send(&accounts, 1000u128, &token_program);
    assert_eq!(r.unwrap_err(), Error::Unauthorized);
}

#[test]
fn test_send_vault_too_short() {
    let token_program = ProgramId::new([0xEE; 32]);
    let signer_id = [0xA1u8; 32];
    let mut signer = make_account(&signer_id, vec![]);
    signer.is_authorized = true;
    let accounts = vec![
        make_account(&[10u8; 32], treasury_data(1, vec![signer_id])),
        make_account(&[11u8; 32], vec![1u8, 2, 3]),
        make_account(&[12u8; 32], vec![]),
        signer,
    ];
    let r = send::send(&accounts, 1u128, &token_program);
    assert_eq!(
        r.unwrap_err(),
        Error::DeserializationError { account_index: 1, detail: CodecError::Truncated }
    );
}

#[test]
fn test_send_uninitialized_treasury() {
    let token_program = ProgramId::new([0xEE; 32]);
    let mut signer = make_account(&[0xA1u8; 32], vec![]);
    signer.is_authorized = true;
    let accounts = vec![
        make_account(&[10u8; 32], vec![]),
        make_account(&[11u8; 32], vault_data_with_definition(&[0x77; 32])),
        make_account(&[12u8; 32], vec![]),
        signer,
    ];
    let r = send::send(&accounts, 1u128, &token_program);
    assert_eq!(
        r.unwrap_err(),
        Error::DeserializationError { account_index: 0, detail: CodecError::Truncated }
    );
}

#[test]
fn test_deposit_forwards_unmodified() {
    let token_program = ProgramId::new([0xEE; 32]);
    let mut sender = make_account(&[0xA1u8; 32], vec![9u8; 40]);
    sender.is_authorized = true;
    let accounts = vec![
        make_account(&[10u8; 32], treasury_data(1, vec![[0xA1; 32]])),
        sender,
        make_account(&[12u8; 32], vec![8u8; 40]),
    ];
    let out = deposit::handle(&accounts, 250u128, &token_program).unwrap();
    assert_eq!(out.post_states.len(), 3);
    assert_eq!(out.chained_calls.len(), 1);
    let cc = &out.chained_calls[0];
    let mut expected = vec![1u8];
    expected.extend_from_slice(&250u128.to_le_bytes());
    expected.extend_from_slice(&[0u8; 6]);
    assert_eq!(cc.instruction_data, expected);
    // The authorization flags travel exactly as the host set them: the
    // sender's own signature authorizes the spend, and the treasury
    // forges nothing.
    assert!(cc.pre_states[0].is_authorized);
    assert!(!cc.pre_states[1].is_authorized);
    assert_eq!(cc.pda_seeds.len(), 0);
}

#[test]
fn test_deposit_wrong_account_count() {
    let token_program = ProgramId::new([0xEE; 32]);
    let accounts = vec![make_account(&[10u8; 32], vec![])];
    let r = deposit::handle(&accounts, 1u128, &token_program);
    assert_eq!(r.unwrap_err(), Error::MalformedAccountList { expected: 3, got: 1 });
}

#[test]
fn test_execute_quorum_and_chain() {
    let token_program = ProgramId::new([0xEE; 32]);
    let definition_id = [0x77u8; 32];
    let multisig_data = MultisigState::new(2, vec![[1u8; 32], [2u8; 32], [3u8; 32]]).serialize();
    let mut s1 = make_account(&[1u8; 32], vec![]);
    s1.is_authorized = true;
    let mut s2 = make_account(&[2u8; 32], vec![]);
    s2.is_authorized = true;
    let accounts = vec![
        make_account(&[10u8; 32], multisig_data),
        make_account(&[11u8; 32], vault_data_with_definition(&definition_id)),
        make_account(&[12u8; 32], vec![]),
        s1,
        s2,
    ];
    let out = execute::handle(&accounts, 42u128, &token_program).unwrap();
    assert_eq!(out.post_states.len(), 3);
    let state = MultisigState::deserialize(&out.post_states[0].account.data).unwrap();
    assert_eq!(state.nonce, 1);
    let cc = &out.chained_calls[0];
    assert!(cc.pre_states[0].is_authorized);
    assert_eq!(cc.pda_seeds[0].bytes, definition_id);
}

#[test]
fn test_execute_insufficient_signatures() {
    let token_program = ProgramId::new([0xEE; 32]);
    let multisig_data = MultisigState::new(2, vec![[1u8; 32], [2u8; 32], [3u8; 32]]).serialize();
    let mut s1 = make_account(&[1u8; 32], vec![]);
    s1.is_authorized = true;
    let accounts = vec![
        make_account(&[10u8; 32], multisig_data),
        make_account(&[11u8; 32], vault_data_with_definition(&[0x77; 32])),
        make_account(&[12u8; 32], vec![]),
        s1,
    ];
    let r = execute::handle(&accounts, 42u128, &token_program);
    assert_eq!(r.unwrap_err(), Error::InsufficientSignatures { required: 2, got: 1 });
}

#[test]
fn test_process_dispatches_every_variant() {
    let token_program = ProgramId::new([0xEE; 32]);

    // CreateMultisig through the dispatcher pads the post-states to one
    // per pre-state account.
    let accounts = vec![make_account(&[10u8; 32], vec![]), make_account(&[1u8; 32], vec![])];
    let out = process(
        &accounts,
        &Instruction::CreateMultisig { threshold: 1, members: vec![[1u8; 32]] },
    )
    .unwrap();
    assert_eq!(out.post_states.len(), 2);
    assert!(out.post_states[0].claimed);
    assert!(!out.post_states[1].claimed);

    // AddMember through the dispatcher.
    let multisig_data = MultisigState::new(1, vec![[1u8; 32]]).serialize();
    let mut s1 = make_account(&[1u8; 32], vec![]);
    s1.is_authorized = true;
    let accounts = vec![make_account(&[10u8; 32], multisig_data), s1];
    let out = process(&accounts, &Instruction::AddMember { new_member: [2u8; 32] }).unwrap();
    assert_eq!(out.post_states.len(), 2);
    let state = MultisigState::deserialize(&out.post_states[0].account.data).unwrap();
    assert_eq!(state.member_count, 2);

    // RemoveMember.
    let multisig_data = MultisigState::new(1, vec![[1u8; 32], [2u8; 32]]).serialize();
    let mut s1 = make_account(&[1u8; 32], vec![]);
    s1.is_authorized = true;
    let accounts = vec![make_account(&[10u8; 32], multisig_data), s1];
    let out = process(
        &accounts,
        &Instruction::RemoveMember { member_to_remove: [2u8; 32] },
    )
    .unwrap();
    let state = MultisigState::deserialize(&out.post_states[0].account.data).unwrap();
    assert_eq!(state.member_count, 1);

    // ChangeThreshold.
    let multisig_data = MultisigState::new(1, vec![[1u8; 32], [2u8; 32]]).serialize();
    let mut s1 = make_account(&[1u8; 32], vec![]);
    s1.is_authorized = true;
    let accounts = vec![make_account(&[10u8; 32], multisig_data), s1];
    let out = process(
        &accounts,
        &Instruction::ChangeThreshold { new_threshold: 2 },
    )
    .unwrap();
    let state = MultisigState::deserialize(&out.post_states[0].account.data).unwrap();
    assert_eq!(state.threshold, 2);

    // CreateVault.
    let accounts = vec![
        make_account(&[10u8; 32], vec![]),
        make_account(&[11u8; 32], vec![]),
        make_account(&[12u8; 32], vec![]),
    ];
    let out = process(
        &accounts,
        &Instruction::CreateVault {
            token_name: *b"mytokn",
            initial_supply: 10u128,
            token_program_id: ProgramId::new([0xEE; 32]),
            authorized_accounts: vec![[0xA1; 32]],
        },
    )
    .unwrap();
    assert_eq!(out.post_states.len(), 3);
    assert_eq!(out.chained_calls.len(), 1);

    // Send.
    let mut signer = make_account(&[0xA1u8; 32], vec![]);
    signer.is_authorized = true;
    let accounts = vec![
        make_account(&[10u8; 32], treasury_data(1, vec![[0xA1; 32]])),
        make_account(&[11u8; 32], vault_data_with_definition(&[0x77; 32])),
        make_account(&[12u8; 32], vec![]),
        signer,
    ];
    let out = process(
        &accounts,
        &Instruction::Send { amount: 5u128, token_program_id: token_program },
    )
    .unwrap();
    assert_eq!(out.post_states.len(), 4);

    // Deposit.
    let accounts = vec![
        make_account(&[10u8; 32], vec![]),
        make_account(&[11u8; 32], vec![]),
        make_account(&[12u8; 32], vec![]),
    ];
    let out = process(
        &accounts,
        &Instruction::Deposit { amount: 5u128, token_program_id: ProgramId::new([0xEE; 32]) },
    )
    .unwrap();
    assert_eq!(out.chained_calls.len(), 1);

    // Execute, padded to one post-state per account.
    let multisig_data = MultisigState::new(1, vec![[1u8; 32]]).serialize();
    let mut s1 = make_account(&[1u8; 32], vec![]);
    s1.is_authorized = true;
    let accounts = vec![
        make_account(&[10u8; 32], multisig_data),
        make_account(&[11u8; 32], vault_data_with_definition(&[0x77; 32])),
        make_account(&[12u8; 32], vec![]),
        s1,
    ];
    let out = process(
        &accounts,
        &Instruction::Execute { amount: 5u128, token_program_id: ProgramId::new([0xEE; 32]) },
    )
    .unwrap();
    assert_eq!(out.post_states.len(), 4);
    assert_eq!(out.chained_calls.len(), 1);
}

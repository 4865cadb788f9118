use pda_client::{
    AccountRole, Args, Blockhash, CoreError, FetchAction, FetchOutcome, Identity, Instruction,
    ModeType, Operation, SignatureStatus, SubmitAction, SubmitEvent, SubmitPhase, Submission,
    TransactionType, after_fetch, assemble, build_ix, build_transfer_from_tx, build_tx,
    derive_address, encode, is_program_owned, parse_identity, payer_identity, plan_instruction,
    prepare_transaction, program_identity, resolve_operation, system_program, MAX_SEED_LEN,
    PROGRAM_ID,
};
use solana_sdk::pubkey::Pubkey;
use solana_sdk::signature::{Keypair, Signer};
use std::str::FromStr;

fn program() -> Identity {
    program_identity().unwrap()
}

fn key(b: u8) -> Identity {
    Identity { bytes: [b; 32] }
}

fn args(mode: TransactionType) -> Args {
    Args {
        keypair_path: String::from("id.json"),
        mode,
        seed: None,
        size: None,
        to: None,
        amount: None,
    }
}

fn roles(ix: &Instruction) -> Vec<(Identity, AccountRole)> {
    ix.accounts.iter().map(|e| (e.identity, e.role)).collect()
}

#[test]
fn program_identity_matches_sdk_parse() {
    let p = program();
    assert_eq!(p.bytes, Pubkey::from_str(PROGRAM_ID).unwrap().to_bytes());
    assert_ne!(p.bytes, [0u8; 32]);
}

#[test]
fn parse_identity_reads_base58() {
    assert_eq!(parse_identity("11111111111111111111111111111111"), Some(Identity { bytes: [0u8; 32] }));
    let k = Keypair::new().pubkey();
    assert_eq!(parse_identity(&k.to_string()), Some(Identity { bytes: k.to_bytes() }));
    assert_eq!(parse_identity("not a key"), None);
    assert_eq!(parse_identity(""), None);
}

#[test]
fn system_program_is_all_zero() {
    assert_eq!(system_program().bytes, [0u8; 32]);
    assert_eq!(system_program().bytes, solana_sdk::system_program::id().to_bytes());
}

#[test]
fn derivation_is_deterministic() {
    let a = derive_address(&program(), b"hello").unwrap();
    let b = derive_address(&program(), b"hello").unwrap();
    assert_eq!(a, b);
    let (expected, bump) = Pubkey::find_program_address(&[b"hello"], &Pubkey::from_str(PROGRAM_ID).unwrap());
    assert_eq!(a.0.bytes, expected.to_bytes());
    assert_eq!(a.1, bump);
}

#[test]
fn derived_address_is_off_curve() {
    for seed in [&b"hello"[..], b"x", b"", &[7u8; 32][..]] {
        let (addr, bump) = derive_address(&program(), seed).unwrap();
        assert!(is_program_owned(&addr));
        let again = Pubkey::create_program_address(&[seed, &[bump]], &Pubkey::from_str(PROGRAM_ID).unwrap()).unwrap();
        assert_eq!(addr.bytes, again.to_bytes());
    }
}

#[test]
fn wallet_key_is_not_program_owned() {
    let k = Keypair::new().pubkey();
    assert!(!is_program_owned(&Identity { bytes: k.to_bytes() }));
}

#[test]
fn seed_too_long_is_rejected() {
    let seed = vec![1u8; MAX_SEED_LEN + 1];
    assert_eq!(derive_address(&program(), &seed), Err(CoreError::SeedTooLong));
    assert!(derive_address(&program(), &vec![1u8; MAX_SEED_LEN]).is_ok());
    let mut a = args(TransactionType::Create);
    a.seed = Some("s".repeat(33));
    assert_eq!(plan_instruction(&a, &program(), key(9)), Err(CoreError::SeedTooLong));
}

#[test]
fn create_scenario_payload_and_accounts() {
    let mut a = args(TransactionType::Create);
    a.seed = Some(String::from("hello"));
    let payer = key(9);
    let ix = plan_instruction(&a, &program(), payer).unwrap();
    let mut expected = vec![0u8];
    expected.extend_from_slice(b"hello");
    assert_eq!(ix.payload, expected);
    let (derived, _) = derive_address(&program(), b"hello").unwrap();
    assert_eq!(ix.program, program());
    assert_eq!(
        roles(&ix),
        vec![
            (payer, AccountRole::SignerWritable),
            (derived, AccountRole::Writable),
            (system_program(), AccountRole::ReadOnly),
        ]
    );
}

#[test]
fn resize_scenario_payload_targets_seed_address() {
    let mut a = args(TransactionType::Resize);
    a.seed = Some(String::from("hello"));
    a.size = Some(128);
    let ix = plan_instruction(&a, &program(), key(9)).unwrap();
    let mut expected = vec![1u8];
    expected.extend_from_slice(&128u64.to_le_bytes());
    assert_eq!(ix.payload, expected);
    let (derived, _) = derive_address(&program(), b"hello").unwrap();
    assert_eq!(ix.accounts[1].identity, derived);
}

#[test]
fn transfer_scenario_payload_and_accounts() {
    let dest = Keypair::new().pubkey();
    let mut a = args(TransactionType::Transfer);
    a.amount = Some(1000);
    a.to = Some(dest.to_string());
    let payer = key(9);
    let ix = plan_instruction(&a, &program(), payer).unwrap();
    assert_eq!(ix.payload, vec![2u8, 0xe8, 0x03, 0, 0, 0, 0, 0, 0]);
    assert_eq!(
        roles(&ix),
        vec![
            (payer, AccountRole::SignerWritable),
            (Identity { bytes: dest.to_bytes() }, AccountRole::Writable),
            (system_program(), AccountRole::ReadOnly),
        ]
    );
}

#[test]
fn transfer_from_scenario_payload_and_accounts() {
    let dest = Keypair::new().pubkey();
    let mut a = args(TransactionType::TransferFrom);
    a.amount = Some(50);
    a.seed = Some(String::from("x"));
    a.to = Some(dest.to_string());
    let payer = key(9);
    let ix = plan_instruction(&a, &program(), payer).unwrap();
    assert_eq!(ix.payload, vec![3u8, 50, 0, 0, 0, 0, 0, 0, 0, b'x']);
    let (source, _) = derive_address(&program(), b"x").unwrap();
    assert_eq!(
        roles(&ix),
        vec![
            (payer, AccountRole::SignerWritable),
            (source, AccountRole::Writable),
            (Identity { bytes: dest.to_bytes() }, AccountRole::Writable),
            (system_program(), AccountRole::ReadOnly),
        ]
    );
}

#[test]
fn allocate_payload_is_size_then_seed() {
    let mut a = args(TransactionType::Allocate);
    a.size = Some(0x0102_0304_0506_0708);
    a.seed = Some(String::from("ab"));
    let ix = plan_instruction(&a, &program(), key(9)).unwrap();
    assert_eq!(ix.payload, vec![4u8, 8, 7, 6, 5, 4, 3, 2, 1, b'a', b'b']);
    assert_eq!(ix.accounts.len(), 3);
}

#[test]
fn missing_operands_are_reported() {
    let mut a = args(TransactionType::Resize);
    a.seed = Some(String::from("hello"));
    assert_eq!(resolve_operation(&a), Err(CoreError::MissingOperand));
    assert_eq!(plan_instruction(&a, &program(), key(9)), Err(CoreError::MissingOperand));
    let mut t = args(TransactionType::TransferFrom);
    t.amount = Some(5);
    t.to = Some(Keypair::new().pubkey().to_string());
    assert_eq!(plan_instruction(&t, &program(), key(9)), Err(CoreError::MissingOperand));
    let op = Operation::Transfer { amount: 1 };
    assert_eq!(encode(program(), &op, key(9), Some(key(3)), None), Err(CoreError::MissingOperand));
    let op = Operation::CreateAccount { seed: vec![1] };
    assert_eq!(encode(program(), &op, key(9), None, Some(key(3))), Err(CoreError::MissingOperand));
}

#[test]
fn invalid_destination_is_reported() {
    let mut a = args(TransactionType::Transfer);
    a.amount = Some(1);
    a.to = Some(String::from("0OIl"));
    assert_eq!(plan_instruction(&a, &program(), key(9)), Err(CoreError::InvalidIdentity));
}

#[test]
fn payload_round_trips() {
    let ops = vec![
        Operation::CreateAccount { seed: b"hello".to_vec() },
        Operation::CreateAccount { seed: Vec::new() },
        Operation::ResizeAccount { new_size: 128 },
        Operation::Transfer { amount: u64::MAX },
        Operation::TransferFrom { seed: b"x".to_vec(), amount: 50 },
        Operation::Allocate { seed: vec![0xff; 32], new_size: 0 },
    ];
    for op in ops {
        let p = op.encode_payload();
        assert_eq!(p[0], op.kind().ordinal());
        assert_eq!(Operation::decode_payload(&p), Some(op));
    }
    assert_eq!(Operation::decode_payload(&[]), None);
    assert_eq!(Operation::decode_payload(&[1, 2, 3]), None);
    assert_eq!(Operation::decode_payload(&[5, 0, 0, 0, 0, 0, 0, 0, 0]), None);
}

#[test]
fn ordinals_follow_wire_contract() {
    assert_eq!(TransactionType::Create.ordinal(), 0);
    assert_eq!(TransactionType::Resize.ordinal(), 1);
    assert_eq!(TransactionType::Transfer.ordinal(), 2);
    assert_eq!(TransactionType::TransferFrom.ordinal(), 3);
    assert_eq!(TransactionType::Allocate.ordinal(), 4);
    assert_ne!(ModeType::Create, ModeType::Send);
}

#[test]
fn build_ix_orders_accounts() {
    let ix = build_ix(program(), &[7, 8], key(1), &[key(2), key(3)]);
    assert_eq!(ix.payload, vec![7, 8]);
    assert_eq!(
        roles(&ix),
        vec![
            (key(1), AccountRole::SignerWritable),
            (key(2), AccountRole::Writable),
            (key(3), AccountRole::Writable),
            (system_program(), AccountRole::ReadOnly),
        ]
    );
    assert!(AccountRole::SignerWritable.is_signer());
    assert!(!AccountRole::Writable.is_signer());
    assert!(!AccountRole::ReadOnly.is_writable());
}

#[test]
fn signed_transaction_verifies() {
    let kp = Keypair::new();
    let blockhash = Blockhash { bytes: [5u8; 32] };
    let t = build_tx(program(), &[0, b'h'], &kp, key(4), blockhash).unwrap();
    assert_eq!(t.fee_payer.bytes, kp.pubkey().to_bytes());
    assert_eq!(t.recent_blockhash, blockhash);
    assert!(t.transaction.verify().is_ok());
    assert!(t.transaction.signatures[0].verify(kp.pubkey().as_ref(), &t.transaction.message_data()));
    assert_eq!(t.transaction.message.recent_blockhash.to_bytes(), [5u8; 32]);
    assert_eq!(t.transaction.message.account_keys[0], kp.pubkey());
}

#[test]
fn transfer_from_transaction_verifies() {
    let kp = Keypair::new();
    let t = build_transfer_from_tx(program(), &[3], &kp, key(4), key(6), Blockhash { bytes: [1u8; 32] }).unwrap();
    assert!(t.transaction.verify().is_ok());
    assert_eq!(t.instructions[0].accounts.len(), 4);
}

#[test]
fn mutation_after_signing_breaks_signature() {
    let kp = Keypair::new();
    let mut t = build_tx(program(), &[0], &kp, key(4), Blockhash { bytes: [5u8; 32] }).unwrap();
    t.transaction.message.recent_blockhash = solana_sdk::hash::Hash::new_from_array([6u8; 32]);
    assert!(t.transaction.verify().is_err());
}

#[test]
fn wrong_keypair_fails_to_sign() {
    let kp = Keypair::new();
    let ix = build_ix(program(), &[0], key(9), &[key(4)]);
    let r = assemble(vec![ix], key(9), &kp, Blockhash { bytes: [0u8; 32] });
    assert!(matches!(r, Err(CoreError::SignerMismatch)));
}

#[test]
fn prepare_runs_whole_pipeline() {
    let kp = Keypair::new();
    let mut a = args(TransactionType::Create);
    a.seed = Some(String::from("hello"));
    let t = prepare_transaction(&a, &program(), &kp, Blockhash { bytes: [2u8; 32] }).unwrap();
    assert!(t.transaction.verify().is_ok());
    assert_eq!(payer_identity(&kp), t.fee_payer);
    let mut b = args(TransactionType::Create);
    b.seed = None;
    assert!(matches!(prepare_transaction(&b, &program(), &kp, Blockhash { bytes: [2u8; 32] }), Err(CoreError::MissingOperand)));
}

#[test]
fn expired_blockhash_fails_before_send() {
    let mut s = Submission::new(100);
    assert_eq!(s.step(SubmitEvent::Height { block_height: 101 }), SubmitAction::Fail { error: CoreError::BlockhashExpired });
    assert_eq!(s.phase, SubmitPhase::Finished);
    let late = SubmitEvent::Status { status: SignatureStatus::Confirmed, block_height: 101 };
    assert_eq!(s.step(late), SubmitAction::Ignore);
}

#[test]
fn expiry_while_waiting() {
    let mut s = Submission::new(100);
    assert_eq!(s.step(SubmitEvent::Height { block_height: 100 }), SubmitAction::Send);
    assert_eq!(s.step(SubmitEvent::Status { status: SignatureStatus::Pending, block_height: 100 }), SubmitAction::Poll);
    assert_eq!(s.step(SubmitEvent::Status { status: SignatureStatus::Pending, block_height: 151 }), SubmitAction::Fail { error: CoreError::BlockhashExpired });
}

#[test]
fn confirmation_and_rejection() {
    let mut s = Submission::new(10);
    assert_eq!(s.step(SubmitEvent::Height { block_height: 1 }), SubmitAction::Send);
    assert_eq!(s.step(SubmitEvent::Status { status: SignatureStatus::Confirmed, block_height: 2 }), SubmitAction::Confirmed);
    let mut r = Submission::new(10);
    r.step(SubmitEvent::Height { block_height: 1 });
    let reason = String::from("custom program error: 0x1");
    assert_eq!(
        r.step(SubmitEvent::Status { status: SignatureStatus::Failed { reason: reason.clone() }, block_height: 2 }),
        SubmitAction::Fail { error: CoreError::TransactionRejected { reason } }
    );
    let mut n = Submission::new(10);
    assert_eq!(n.step(SubmitEvent::TransportFailed), SubmitAction::Fail { error: CoreError::NetworkUnavailable });
}

#[test]
fn record_fetch_retries_are_bounded() {
    assert_eq!(after_fetch(0, 3, FetchOutcome::Found), FetchAction::Done);
    assert_eq!(after_fetch(0, 3, FetchOutcome::NotYetAvailable), FetchAction::Retry);
    assert_eq!(after_fetch(1, 3, FetchOutcome::NotYetAvailable), FetchAction::Retry);
    assert_eq!(after_fetch(2, 3, FetchOutcome::NotYetAvailable), FetchAction::Fail { error: CoreError::NotYetAvailable });
    assert_eq!(after_fetch(0, 0, FetchOutcome::NotYetAvailable), FetchAction::Fail { error: CoreError::NotYetAvailable });
    assert_eq!(after_fetch(0, 3, FetchOutcome::NotFound), FetchAction::Fail { error: CoreError::NotFound });
    assert_eq!(after_fetch(0, 3, FetchOutcome::TransportFailed), FetchAction::Fail { error: CoreError::NetworkUnavailable });
}

#[test]
fn bad_destination_reported_before_derivation() {
    let mut a = args(TransactionType::TransferFrom);
    a.amount = Some(1);
    a.seed = Some("s".repeat(40));
    a.to = Some(String::from("not-a-key"));
    assert_eq!(plan_instruction(&a, &program(), key(9)), Err(CoreError::InvalidIdentity));
}

#[test]
fn second_signer_account_fails_to_sign() {
    let kp = Keypair::new();
    let payer = Identity { bytes: kp.pubkey().to_bytes() };
    let mut ix = build_ix(program(), &[0], payer, &[key(4)]);
    ix.accounts[1].role = AccountRole::SignerWritable;
    let r = assemble(vec![ix], payer, &kp, Blockhash { bytes: [0u8; 32] });
    assert!(matches!(r, Err(CoreError::SignerMismatch)));
}

#[test]
fn ledger_transaction_matches_instruction() {
    let kp = Keypair::new();
    let t = build_transfer_from_tx(program(), &[3, 9, 9], &kp, key(4), key(6), Blockhash { bytes: [7u8; 32] }).unwrap();
    let msg = &t.transaction.message;
    assert_eq!(msg.account_keys[0], kp.pubkey());
    assert_eq!(msg.header.num_required_signatures, 1);
    assert_eq!(msg.recent_blockhash.to_bytes(), [7u8; 32]);
    assert_eq!(msg.instructions.len(), 1);
    let ci = &msg.instructions[0];
    assert_eq!(ci.data, vec![3, 9, 9]);
    assert_eq!(msg.account_keys[ci.program_id_index as usize].to_bytes(), program().bytes);
    let keys: Vec<[u8; 32]> = ci.accounts.iter().map(|i| msg.account_keys[*i as usize].to_bytes()).collect();
    assert_eq!(keys, vec![kp.pubkey().to_bytes(), [4u8; 32], [6u8; 32], [0u8; 32]]);
    assert!(t.transaction.is_signed());
}

#[test]
fn payer_is_sole_required_signer() {
    let kp = Keypair::new();
    let t = build_tx(program(), &[1, 2], &kp, key(4), Blockhash { bytes: [3u8; 32] }).unwrap();
    assert_eq!(t.transaction.signatures.len(), 1);
    assert_eq!(t.transaction.message.header.num_required_signatures, 1);
    assert!(t.transaction.signatures[0].verify(kp.pubkey().as_ref(), &t.transaction.message_data()));
}

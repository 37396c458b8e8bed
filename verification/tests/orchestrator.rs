use ledger_toolkit::address::Address;
use ledger_toolkit::builders::{build_transfer_native, transfer_with_memo_instructions};
use ledger_toolkit::errors::{LedgerOutcome, SubmitError, TransactionId};
use ledger_toolkit::instruction::{AccountMeta, Instruction};
use ledger_toolkit::orchestrator::{
    BlockReference, SignerKey, find_missing_signer, submit_finish, submit_prepare,
};
use solana_sdk::signer::keypair::Keypair;

fn addr(n: u8) -> Address {
    Address { bytes: [n; 32] }
}

fn block_ref(n: u8) -> BlockReference {
    BlockReference { bytes: [n; 32] }
}

#[test]
fn signer_key_carries_the_public_half_of_the_keypair() {
    let keypair = Keypair::new();
    let public = solana_sdk::signer::Signer::pubkey(&keypair);
    let key = SignerKey::from_keypair(keypair);
    assert_eq!(key.address().bytes, public.to_bytes());
}

#[test]
fn submit_succeeds_when_all_required_signers_are_supplied() {
    let funder = SignerKey::from_keypair(Keypair::new());
    let recipient = addr(2);
    let ins = vec![build_transfer_native(&funder.address(), &recipient, 500)];
    let expected = ins.clone();
    let t = submit_prepare(ins, funder.address(), &vec![&funder], &block_ref(7)).unwrap();
    assert_eq!(t.fee_payer, funder.address());
    assert_eq!(t.instructions, expected);
    assert_eq!(t.block_reference.bytes, [7u8; 32]);
    assert_eq!(t.signer_addresses.len(), 1);
    assert_eq!(t.signer_addresses[0], funder.address());
    assert!(t.raw.is_signed());
    assert!(t.raw.verify().is_ok());
}

#[test]
fn submit_fails_without_the_fee_payer_key() {
    let funder = SignerKey::from_keypair(Keypair::new());
    let other = SignerKey::from_keypair(Keypair::new());
    let ins = vec![build_transfer_native(&funder.address(), &addr(2), 500)];
    let r = submit_prepare(ins, funder.address(), &vec![&other], &block_ref(7));
    match r {
        Err(SubmitError::MissingSigner(a)) => assert_eq!(a, funder.address()),
        _ => panic!("a missing fee payer key must surface as MissingSigner"),
    }
}

#[test]
fn submit_fails_without_an_instruction_signer_key() {
    let payer = SignerKey::from_keypair(Keypair::new());
    let source = addr(3);
    let ins = vec![build_transfer_native(&source, &addr(2), 500)];
    let r = submit_prepare(ins, payer.address(), &vec![&payer], &block_ref(7));
    match r {
        Err(SubmitError::MissingSigner(a)) => assert_eq!(a, source),
        _ => panic!("a missing instruction signer must surface as MissingSigner"),
    }
}

#[test]
fn submit_refuses_an_oversized_instruction_sequence() {
    let payer = SignerKey::from_keypair(Keypair::new());
    let mut metas: Vec<AccountMeta> = Vec::new();
    let mut n: usize = 0;
    while n < 300 {
        metas.push(AccountMeta { address: addr(9), is_signer: false, is_writable: false });
        n += 1;
    }
    let oversized = Instruction { program: addr(8), accounts: metas, data: vec![] };
    let r = submit_prepare(vec![oversized], payer.address(), &vec![&payer], &block_ref(7));
    assert!(matches!(r, Err(SubmitError::InvalidArgument(_))));
}

#[test]
fn missing_signer_reported_exactly_when_a_required_key_is_absent() {
    let funder = SignerKey::from_keypair(Keypair::new());
    let helper = SignerKey::from_keypair(Keypair::new());
    let ins = vec![build_transfer_native(&funder.address(), &addr(2), 1)];
    assert!(find_missing_signer(&ins, &funder.address(), &vec![&funder]).is_none());
    assert!(find_missing_signer(&ins, &funder.address(), &vec![&helper, &funder]).is_none());
    let missing = find_missing_signer(&ins, &funder.address(), &vec![&helper]).unwrap();
    assert_eq!(missing, funder.address());
    let missing = find_missing_signer(&ins, &helper.address(), &vec![&helper]).unwrap();
    assert_eq!(missing, funder.address());
}

#[test]
fn transfer_and_memo_travel_in_one_transaction_in_order() {
    let funder = SignerKey::from_keypair(Keypair::new());
    let recipient = addr(2);
    let ins = transfer_with_memo_instructions(&funder.address(), &recipient, 1_000_000, "x");
    let expected = ins.clone();
    let t = submit_prepare(ins, funder.address(), &vec![&funder], &block_ref(9)).unwrap();
    assert_eq!(t.instructions.len(), 2);
    assert_eq!(t.instructions[0], expected[0]);
    assert_eq!(t.instructions[1], expected[1]);
    assert_eq!(t.instructions[1].data, "x".as_bytes().to_vec());
    assert_eq!(t.signer_addresses.len(), 1);
    assert_eq!(t.signer_addresses[0], funder.address());
    assert!(t.raw.is_signed());
}

#[test]
fn submit_finish_keeps_every_outcome_distinct() {
    let ok = submit_finish(LedgerOutcome::Confirmed(TransactionId {
        text: "5Fym".to_string(),
    }));
    assert_eq!(ok.unwrap().text, "5Fym");
    assert!(matches!(
        submit_finish(LedgerOutcome::AlreadyExists),
        Err(SubmitError::AlreadyExists)
    ));
    match submit_finish(LedgerOutcome::Rejected("stale block reference".to_string())) {
        Err(SubmitError::Rejected(why)) => assert_eq!(why, "stale block reference"),
        _ => panic!("a rejection must stay a rejection"),
    }
    match submit_finish(LedgerOutcome::Timeout("submit-and-confirm".to_string())) {
        Err(SubmitError::Timeout(step)) => assert_eq!(step, "submit-and-confirm"),
        _ => panic!("a timeout must stay a timeout with its step"),
    }
    match submit_finish(LedgerOutcome::NetworkFailure("status query".to_string())) {
        Err(SubmitError::NetworkFailure(step)) => assert_eq!(step, "status query"),
        _ => panic!("a transport failure must stay one with its step"),
    }
}

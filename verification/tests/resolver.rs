use ledger_toolkit::address::{Address, derive_associated_address};
use ledger_toolkit::errors::{LedgerOutcome, SubmitError, TransactionId};
use ledger_toolkit::orchestrator::{BlockReference, SignerKey};
use ledger_toolkit::resolver::{
    ResolveStep, ensure_associated_account_finish, ensure_associated_account_step,
};
use solana_sdk::signer::keypair::Keypair;

fn addr(n: u8) -> Address {
    Address { bytes: [n; 32] }
}

fn block_ref(n: u8) -> BlockReference {
    BlockReference { bytes: [n; 32] }
}

#[test]
fn existing_account_short_circuits_without_signing() {
    let owner = addr(6);
    let mint = addr(7);
    let funder = SignerKey::from_keypair(Keypair::new());
    let step = ensure_associated_account_step(&owner, &mint, &funder, true, &block_ref(1));
    match step {
        ResolveStep::UseExisting(a) => {
            assert_eq!(a, derive_associated_address(&owner, &mint));
        }
        ResolveStep::SubmitCreation(_) => {
            panic!("an existing account must not lead to a submission")
        }
    }
}

#[test]
fn missing_account_submits_one_creation_signed_by_the_funder_alone() {
    let owner = addr(6);
    let mint = addr(7);
    let funder = SignerKey::from_keypair(Keypair::new());
    let step = ensure_associated_account_step(&owner, &mint, &funder, false, &block_ref(1));
    match step {
        ResolveStep::SubmitCreation(t) => {
            assert_eq!(t.fee_payer, funder.address());
            assert_eq!(t.block_reference.bytes, [1u8; 32]);
            assert_eq!(t.instructions.len(), 1);
            assert_eq!(
                t.instructions[0].accounts[1].address,
                derive_associated_address(&owner, &mint)
            );
            assert_eq!(t.signer_addresses.len(), 1);
            assert_eq!(t.signer_addresses[0], funder.address());
            assert!(t.raw.is_signed());
        }
        ResolveStep::UseExisting(_) => panic!("a missing account must lead to a submission"),
    }
}

#[test]
fn two_resolutions_return_the_same_address() {
    let owner = addr(6);
    let mint = addr(7);
    let funder = SignerKey::from_keypair(Keypair::new());
    // first run: the account is missing, a creation is submitted and confirmed
    let first = match ensure_associated_account_step(&owner, &mint, &funder, false, &block_ref(1)) {
        ResolveStep::SubmitCreation(_) => ensure_associated_account_finish(
            &owner,
            &mint,
            LedgerOutcome::Confirmed(TransactionId { text: "id".to_string() }),
        )
        .unwrap(),
        ResolveStep::UseExisting(a) => a,
    };
    // second run: the account now exists, nothing is submitted
    let second = match ensure_associated_account_step(&owner, &mint, &funder, true, &block_ref(2)) {
        ResolveStep::UseExisting(a) => a,
        ResolveStep::SubmitCreation(_) => panic!("the second resolution must submit nothing"),
    };
    assert_eq!(first, second);
}

#[test]
fn creation_lost_race_still_resolves_to_the_derived_address() {
    let owner = addr(6);
    let mint = addr(7);
    let resolved =
        ensure_associated_account_finish(&owner, &mint, LedgerOutcome::AlreadyExists).unwrap();
    assert_eq!(resolved, derive_associated_address(&owner, &mint));
}

#[test]
fn confirmed_creation_resolves_to_the_derived_address() {
    let owner = addr(6);
    let mint = addr(7);
    let resolved = ensure_associated_account_finish(
        &owner,
        &mint,
        LedgerOutcome::Confirmed(TransactionId { text: "id".to_string() }),
    )
    .unwrap();
    assert_eq!(resolved, derive_associated_address(&owner, &mint));
}

#[test]
fn other_refusals_pass_through_the_resolver_unchanged() {
    let owner = addr(6);
    let mint = addr(7);
    match ensure_associated_account_finish(
        &owner,
        &mint,
        LedgerOutcome::Rejected("insufficient balance".to_string()),
    ) {
        Err(SubmitError::Rejected(why)) => assert_eq!(why, "insufficient balance"),
        _ => panic!("a rejection must stay a rejection"),
    }
    match ensure_associated_account_finish(
        &owner,
        &mint,
        LedgerOutcome::Timeout("submit-and-confirm".to_string()),
    ) {
        Err(SubmitError::Timeout(step)) => assert_eq!(step, "submit-and-confirm"),
        _ => panic!("a timeout must stay a timeout with its step"),
    }
    match ensure_associated_account_finish(
        &owner,
        &mint,
        LedgerOutcome::NetworkFailure("status query".to_string()),
    ) {
        Err(SubmitError::NetworkFailure(step)) => assert_eq!(step, "status query"),
        _ => panic!("a transport failure must stay one with its step"),
    }
}

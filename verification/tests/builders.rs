use ledger_toolkit::address::{Address, derive_associated_address, memo_program_address, token_program_address};
use ledger_toolkit::builders::{
    build_create_account, build_create_associated_account, build_initialize_mint, build_memo,
    build_mint_to, build_transfer_native, transfer_with_memo_instructions,
};
use ledger_toolkit::errors::SubmitError;

fn addr(n: u8) -> Address {
    Address { bytes: [n; 32] }
}

#[test]
fn token_program_address_matches_spl_token() {
    assert_eq!(token_program_address().bytes, spl_token::id().to_bytes());
}

#[test]
fn create_account_instruction_shape() {
    let funder = addr(1);
    let new_account = addr(2);
    let owner = token_program_address();
    let ix = build_create_account(&funder, &new_account, 1_461_600, 82, &owner);
    assert_eq!(ix.program.bytes, [0u8; 32]);
    assert_eq!(ix.accounts.len(), 2);
    assert_eq!(ix.accounts[0].address, funder);
    assert!(ix.accounts[0].is_signer && ix.accounts[0].is_writable);
    assert_eq!(ix.accounts[1].address, new_account);
    assert!(ix.accounts[1].is_signer && ix.accounts[1].is_writable);
    let mut expected: Vec<u8> = vec![0, 0, 0, 0];
    expected.extend_from_slice(&1_461_600u64.to_le_bytes());
    expected.extend_from_slice(&82u64.to_le_bytes());
    expected.extend_from_slice(&owner.bytes);
    assert_eq!(ix.data, expected);
}

#[test]
fn initialize_mint_without_freeze_authority() {
    let mint = addr(3);
    let authority = addr(4);
    let ix = build_initialize_mint(&mint, &authority, None, 2).unwrap();
    assert_eq!(ix.program.bytes, spl_token::id().to_bytes());
    assert_eq!(ix.accounts.len(), 2);
    assert_eq!(ix.accounts[0].address, mint);
    assert!(!ix.accounts[0].is_signer && ix.accounts[0].is_writable);
    assert!(!ix.accounts[1].is_signer && !ix.accounts[1].is_writable);
    assert_eq!(
        ix.accounts[1].address.bytes,
        solana_sdk::sysvar::rent::id().to_bytes()
    );
    let mut expected: Vec<u8> = vec![0, 2];
    expected.extend_from_slice(&authority.bytes);
    expected.push(0);
    assert_eq!(ix.data, expected);
}

#[test]
fn initialize_mint_with_freeze_authority() {
    let mint = addr(3);
    let authority = addr(4);
    let freeze = addr(5);
    let ix = build_initialize_mint(&mint, &authority, Some(&freeze), 9).unwrap();
    let mut expected: Vec<u8> = vec![0, 9];
    expected.extend_from_slice(&authority.bytes);
    expected.push(1);
    expected.extend_from_slice(&freeze.bytes);
    assert_eq!(ix.data, expected);
}

#[test]
fn initialize_mint_rejects_out_of_range_decimals() {
    let r = build_initialize_mint(&addr(3), &addr(4), None, 10);
    assert!(matches!(r, Err(SubmitError::InvalidArgument(_))));
}

#[test]
fn create_associated_account_instruction_shape() {
    let funder = addr(1);
    let owner = addr(6);
    let mint = addr(7);
    let ix = build_create_associated_account(&funder, &owner, &mint);
    assert_eq!(ix.program.bytes, spl_associated_token_account::id().to_bytes());
    assert_eq!(ix.accounts.len(), 6);
    assert_eq!(ix.accounts[0].address, funder);
    assert!(ix.accounts[0].is_signer && ix.accounts[0].is_writable);
    let derived = derive_associated_address(&owner, &mint);
    assert_eq!(ix.accounts[1].address, derived);
    assert!(!ix.accounts[1].is_signer && ix.accounts[1].is_writable);
    assert_eq!(ix.accounts[2].address, owner);
    assert_eq!(ix.accounts[3].address, mint);
    assert_eq!(ix.accounts[4].address.bytes, [0u8; 32]);
    assert_eq!(ix.accounts[5].address.bytes, spl_token::id().to_bytes());
    let mut j: usize = 2;
    while j < 6 {
        assert!(!ix.accounts[j].is_signer && !ix.accounts[j].is_writable);
        j += 1;
    }
    assert_eq!(ix.data, vec![0u8]);
}

#[test]
fn derivation_matches_the_token_account_convention() {
    let owner = addr(6);
    let mint = addr(7);
    let derived = derive_associated_address(&owner, &mint);
    let expected = spl_associated_token_account::get_associated_token_address(
        &solana_sdk::pubkey::Pubkey::new_from_array(owner.bytes),
        &solana_sdk::pubkey::Pubkey::new_from_array(mint.bytes),
    );
    assert_eq!(derived.bytes, expected.to_bytes());
    // the derivation is no identity: it differs from both inputs
    assert_ne!(derived, owner);
    assert_ne!(derived, mint);
}

#[test]
fn derivation_is_deterministic_and_separates_inputs() {
    let owner = addr(6);
    let mint = addr(7);
    let first = derive_associated_address(&owner, &mint);
    let second = derive_associated_address(&owner, &mint);
    assert_eq!(first, second);
    let other_owner = derive_associated_address(&addr(8), &mint);
    let other_mint = derive_associated_address(&owner, &addr(9));
    assert_ne!(first, other_owner);
    assert_ne!(first, other_mint);
}

#[test]
fn mint_to_instruction_shape() {
    let mint = addr(3);
    let destination = addr(10);
    let authority = addr(4);
    let ix = build_mint_to(&mint, &destination, &authority, 1000);
    assert_eq!(ix.program.bytes, spl_token::id().to_bytes());
    assert_eq!(ix.accounts.len(), 3);
    assert_eq!(ix.accounts[0].address, mint);
    assert!(!ix.accounts[0].is_signer && ix.accounts[0].is_writable);
    assert_eq!(ix.accounts[1].address, destination);
    assert!(!ix.accounts[1].is_signer && ix.accounts[1].is_writable);
    assert_eq!(ix.accounts[2].address, authority);
    assert!(ix.accounts[2].is_signer && !ix.accounts[2].is_writable);
    let mut expected: Vec<u8> = vec![7];
    expected.extend_from_slice(&1000u64.to_le_bytes());
    assert_eq!(ix.data, expected);
}

#[test]
fn transfer_instruction_shape() {
    let source = addr(1);
    let destination = addr(2);
    let ix = build_transfer_native(&source, &destination, 10_000_000);
    assert_eq!(ix.program.bytes, [0u8; 32]);
    assert_eq!(ix.accounts.len(), 2);
    assert_eq!(ix.accounts[0].address, source);
    assert!(ix.accounts[0].is_signer && ix.accounts[0].is_writable);
    assert_eq!(ix.accounts[1].address, destination);
    assert!(!ix.accounts[1].is_signer && ix.accounts[1].is_writable);
    let mut expected: Vec<u8> = vec![2, 0, 0, 0];
    expected.extend_from_slice(&10_000_000u64.to_le_bytes());
    assert_eq!(ix.data, expected);
}

#[test]
fn memo_instruction_shape() {
    let text = "and if I had seen as many kings or archbishops I could not have been more delighted";
    let ix = build_memo(text);
    assert_eq!(ix.program, memo_program_address());
    assert_eq!(
        ix.program.bytes,
        "MemoSq4gqABAXKb96qnH8TysNcWxMyWCqXgDLGmfcHr"
            .parse::<solana_sdk::pubkey::Pubkey>()
            .unwrap()
            .to_bytes()
    );
    assert!(ix.accounts.is_empty());
    assert_eq!(ix.data, text.as_bytes().to_vec());
}

#[test]
fn transfer_with_memo_keeps_the_order() {
    let source = addr(1);
    let destination = addr(2);
    let ins = transfer_with_memo_instructions(&source, &destination, 1_000_000, "x");
    assert_eq!(ins.len(), 2);
    assert_eq!(ins[0], build_transfer_native(&source, &destination, 1_000_000));
    assert_eq!(ins[1], build_memo("x"));
}

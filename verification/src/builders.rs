use vstd::prelude::*;
use vstd::bytes::spec_u64_to_le_bytes;
use vstd::string::StringSliceAdditionalSpecFns;
use crate::address::{
    Address, derived_address, token_program_id, associated_token_program_id, system_program_id,
    rent_sysvar_id, memo_program_id, memo_program_address,
};
use crate::errors::SubmitError;
use crate::instruction::{AccountMeta, Instruction};

verus! {

/// The largest decimals value a mint initialization accepts: nine places,
/// the precision of the ledger's own native currency and the conventional
/// ceiling for fungible-token mints. The ledger itself does not enforce this
/// bound; this library refuses a larger value as malformed input rather than
/// sending it.
pub const MAX_MINT_DECIMALS: u8 = 9;

/// The payload of a generic account-creation instruction: the operation code
/// in four little-endian bytes, the funded balance and the account size as
/// little-endian 64-bit integers, then the owning program's address.
pub open spec fn create_account_data(lamports: u64, space: u64, owner_program: Seq<u8>) -> Seq<u8> {
    seq![0u8, 0u8, 0u8, 0u8] + spec_u64_to_le_bytes(lamports) + spec_u64_to_le_bytes(space)
        + owner_program
}

/// The payload of a native-currency transfer: the operation code in four
/// little-endian bytes, then the amount in minor units, little endian.
pub open spec fn transfer_data(lamports: u64) -> Seq<u8> {
    seq![2u8, 0u8, 0u8, 0u8] + spec_u64_to_le_bytes(lamports)
}

/// The payload of a mint initialization: a one-byte operation code, the
/// decimals value, the mint authority's address, then the freeze authority
/// as a one-byte presence flag followed by its address when present.
pub open spec fn initialize_mint_data(
    decimals: u8,
    mint_authority: Seq<u8>,
    freeze_authority: Option<Seq<u8>>,
) -> Seq<u8> {
    seq![0u8, decimals] + mint_authority + match freeze_authority {
        Some(f) => seq![1u8] + f,
        None => seq![0u8],
    }
}

/// The payload of a mint-to instruction: a one-byte operation code, then the
/// amount in minor units, little endian.
pub open spec fn mint_to_data(amount: u64) -> Seq<u8> {
    seq![7u8] + spec_u64_to_le_bytes(amount)
}

/// The view of an optional borrowed address.
pub open spec fn opt_view(a: Option<&Address>) -> Option<Seq<u8>> {
    match a {
        Some(x) => Some(x@),
        None => None,
    }
}

/// The generic account-creation instruction: the system program creates
/// `new_account` with the given balance and size and hands it to
/// `owner_program`. Both the funder and the new account sign.
pub open spec fn is_create_account_instruction(
    ix: Instruction,
    funder: Seq<u8>,
    new_account: Seq<u8>,
    lamports: u64,
    space: u64,
    owner_program: Seq<u8>,
) -> bool {
    &&& ix.program@ == system_program_id()
    &&& ix.accounts@.len() == 2
    &&& ix.accounts@[0].address@ == funder
    &&& ix.accounts@[0].is_signer
    &&& ix.accounts@[0].is_writable
    &&& ix.accounts@[1].address@ == new_account
    &&& ix.accounts@[1].is_signer
    &&& ix.accounts@[1].is_writable
    &&& ix.data@ == create_account_data(lamports, space, owner_program)
}

/// The mint-initialization instruction: the token program configures the
/// (already created) mint account. Only the mint account and the rent sysvar
/// are referenced; neither signs.
pub open spec fn is_initialize_mint_instruction(
    ix: Instruction,
    mint: Seq<u8>,
    mint_authority: Seq<u8>,
    freeze_authority: Option<Seq<u8>>,
    decimals: u8,
) -> bool {
    &&& ix.program@ == token_program_id()
    &&& ix.accounts@.len() == 2
    &&& ix.accounts@[0].address@ == mint
    &&& !ix.accounts@[0].is_signer
    &&& ix.accounts@[0].is_writable
    &&& ix.accounts@[1].address@ == rent_sysvar_id()
    &&& !ix.accounts@[1].is_signer
    &&& !ix.accounts@[1].is_writable
    &&& ix.data@ == initialize_mint_data(decimals, mint_authority, freeze_authority)
}

/// The associated-account creation instruction: the funder pays, the derived
/// account is created, and the owner wallet, mint, system program and token
/// program are referenced read-only. The funder is the sole signer.
pub open spec fn is_create_associated_account_instruction(
    ix: Instruction,
    funder: Seq<u8>,
    owner: Seq<u8>,
    mint: Seq<u8>,
) -> bool {
    &&& ix.program@ == associated_token_program_id()
    &&& ix.accounts@.len() == 6
    &&& ix.accounts@[0].address@ == funder
    &&& ix.accounts@[0].is_signer
    &&& ix.accounts@[0].is_writable
    &&& ix.accounts@[1].address@ == derived_address(owner, mint)
    &&& !ix.accounts@[1].is_signer
    &&& ix.accounts@[1].is_writable
    &&& ix.accounts@[2].address@ == owner
    &&& ix.accounts@[3].address@ == mint
    &&& ix.accounts@[4].address@ == system_program_id()
    &&& ix.accounts@[5].address@ == token_program_id()
    &&& (forall|j: int| 2 <= j < 6 ==> !(#[trigger] ix.accounts@[j]).is_signer)
    &&& (forall|j: int| 2 <= j < 6 ==> !(#[trigger] ix.accounts@[j]).is_writable)
    &&& ix.data@ == seq![0u8]
}

/// The mint-to instruction: the token program mints `amount` minor units
/// into `destination`. The mint authority is the sole signer.
pub open spec fn is_mint_to_instruction(
    ix: Instruction,
    mint: Seq<u8>,
    destination: Seq<u8>,
    authority: Seq<u8>,
    amount: u64,
) -> bool {
    &&& ix.program@ == token_program_id()
    &&& ix.accounts@.len() == 3
    &&& ix.accounts@[0].address@ == mint
    &&& !ix.accounts@[0].is_signer
    &&& ix.accounts@[0].is_writable
    &&& ix.accounts@[1].address@ == destination
    &&& !ix.accounts@[1].is_signer
    &&& ix.accounts@[1].is_writable
    &&& ix.accounts@[2].address@ == authority
    &&& ix.accounts@[2].is_signer
    &&& !ix.accounts@[2].is_writable
    &&& ix.data@ == mint_to_data(amount)
}

/// The native transfer instruction: the system program moves `lamports`
/// minor units from `source` to `destination`. The source is the sole
/// signer.
pub open spec fn is_transfer_instruction(
    ix: Instruction,
    source: Seq<u8>,
    destination: Seq<u8>,
    lamports: u64,
) -> bool {
    &&& ix.program@ == system_program_id()
    &&& ix.accounts@.len() == 2
    &&& ix.accounts@[0].address@ == source
    &&& ix.accounts@[0].is_signer
    &&& ix.accounts@[0].is_writable
    &&& ix.accounts@[1].address@ == destination
    &&& !ix.accounts@[1].is_signer
    &&& ix.accounts@[1].is_writable
    &&& ix.data@ == transfer_data(lamports)
}

/// The memo instruction: the memo program records the carried bytes. It
/// touches no accounts and requires no signer of its own.
pub open spec fn is_memo_instruction(ix: Instruction, text_bytes: Seq<u8>) -> bool {
    &&& ix.program@ == memo_program_id()
    &&& ix.accounts@.len() == 0
    &&& ix.data@ == text_bytes
}

/// Relies on solana_sdk's system_instruction::create_account: the returned
/// instruction targets the system program, lists the funder and the new
/// account as writable signers, and carries the encoded CreateAccount
/// payload (operation code 0, then lamports, space and owner, in the fixed
/// little-endian layout stated by `create_account_data`).
#[verifier::external_body]
fn create_account_call(
    funder: &Address,
    new_account: &Address,
    lamports: u64,
    space: u64,
    owner_program: &Address,
) -> (r: Instruction)
    ensures
        is_create_account_instruction(r, funder@, new_account@, lamports, space, owner_program@),
{
    let ix = solana_sdk::system_instruction::create_account(
        &solana_sdk::pubkey::Pubkey::new_from_array(funder.bytes),
        &solana_sdk::pubkey::Pubkey::new_from_array(new_account.bytes),
        lamports,
        space,
        &solana_sdk::pubkey::Pubkey::new_from_array(owner_program.bytes),
    );
    let accounts = ix.accounts.iter().map(|m| AccountMeta {
        address: Address { bytes: m.pubkey.to_bytes() },
        is_signer: m.is_signer,
        is_writable: m.is_writable,
    }).collect();
    Instruction { program: Address { bytes: ix.program_id.to_bytes() }, accounts, data: ix.data }
}

/// Relies on solana_sdk's system_instruction::transfer: the returned
/// instruction targets the system program, lists the source as a writable
/// signer and the destination as writable, and carries the encoded Transfer
/// payload (operation code 2, then the amount, little endian).
#[verifier::external_body]
fn transfer_call(source: &Address, destination: &Address, lamports: u64) -> (r: Instruction)
    ensures
        is_transfer_instruction(r, source@, destination@, lamports),
{
    let ix = solana_sdk::system_instruction::transfer(
        &solana_sdk::pubkey::Pubkey::new_from_array(source.bytes),
        &solana_sdk::pubkey::Pubkey::new_from_array(destination.bytes),
        lamports,
    );
    let accounts = ix.accounts.iter().map(|m| AccountMeta {
        address: Address { bytes: m.pubkey.to_bytes() },
        is_signer: m.is_signer,
        is_writable: m.is_writable,
    }).collect();
    Instruction { program: Address { bytes: ix.program_id.to_bytes() }, accounts, data: ix.data }
}

/// Relies on spl_token's instruction::initialize_mint: handed the token
/// program's own id it cannot fail, and the returned instruction lists the
/// writable mint and the read-only rent sysvar, with the packed
/// InitializeMint payload stated by `initialize_mint_data`.
#[verifier::external_body]
fn initialize_mint_call(
    mint: &Address,
    mint_authority: &Address,
    freeze_authority: Option<&Address>,
    decimals: u8,
) -> (r: Instruction)
    ensures
        is_initialize_mint_instruction(r, mint@, mint_authority@, opt_view(freeze_authority), decimals),
{
    let freeze = freeze_authority.map(|a| solana_sdk::pubkey::Pubkey::new_from_array(a.bytes));
    let ix = spl_token::instruction::initialize_mint(
        &spl_token::id(),
        &solana_sdk::pubkey::Pubkey::new_from_array(mint.bytes),
        &solana_sdk::pubkey::Pubkey::new_from_array(mint_authority.bytes),
        freeze.as_ref(),
        decimals,
    ).unwrap();
    let accounts = ix.accounts.iter().map(|m| AccountMeta {
        address: Address { bytes: m.pubkey.to_bytes() },
        is_signer: m.is_signer,
        is_writable: m.is_writable,
    }).collect();
    Instruction { program: Address { bytes: ix.program_id.to_bytes() }, accounts, data: ix.data }
}

/// Relies on spl_token's instruction::mint_to, called with no multisig
/// signers: handed the token program's own id it cannot fail, and the
/// returned instruction lists the writable mint and destination and the
/// read-only signing authority, with the packed MintTo payload stated by
/// `mint_to_data`.
#[verifier::external_body]
fn mint_to_call(
    mint: &Address,
    destination: &Address,
    authority: &Address,
    amount: u64,
) -> (r: Instruction)
    ensures
        is_mint_to_instruction(r, mint@, destination@, authority@, amount),
{
    let ix = spl_token::instruction::mint_to(
        &spl_token::id(),
        &solana_sdk::pubkey::Pubkey::new_from_array(mint.bytes),
        &solana_sdk::pubkey::Pubkey::new_from_array(destination.bytes),
        &solana_sdk::pubkey::Pubkey::new_from_array(authority.bytes),
        &[],
        amount,
    ).unwrap();
    let accounts = ix.accounts.iter().map(|m| AccountMeta {
        address: Address { bytes: m.pubkey.to_bytes() },
        is_signer: m.is_signer,
        is_writable: m.is_writable,
    }).collect();
    Instruction { program: Address { bytes: ix.program_id.to_bytes() }, accounts, data: ix.data }
}

/// Relies on spl_associated_token_account's
/// instruction::create_associated_token_account, called with the standard
/// token program: the returned instruction targets the associated token
/// program, lists the funder as the sole (writable) signer, the derived
/// account as writable, and the owner, mint, system program and token
/// program read-only, with the one-byte Create payload.
#[verifier::external_body]
fn create_associated_token_account_call(
    funder: &Address,
    owner: &Address,
    mint: &Address,
) -> (r: Instruction)
    ensures
        is_create_associated_account_instruction(r, funder@, owner@, mint@),
{
    let ix = spl_associated_token_account::instruction::create_associated_token_account(
        &solana_sdk::pubkey::Pubkey::new_from_array(funder.bytes),
        &solana_sdk::pubkey::Pubkey::new_from_array(owner.bytes),
        &solana_sdk::pubkey::Pubkey::new_from_array(mint.bytes),
        &spl_token::id(),
    );
    let accounts = ix.accounts.iter().map(|m| AccountMeta {
        address: Address { bytes: m.pubkey.to_bytes() },
        is_signer: m.is_signer,
        is_writable: m.is_writable,
    }).collect();
    Instruction { program: Address { bytes: ix.program_id.to_bytes() }, accounts, data: ix.data }
}

/// Builds the generic account-creation instruction. `lamports` is
/// caller-supplied, typically from a rent-exemption query.
pub fn build_create_account(
    funder: &Address,
    new_account: &Address,
    lamports: u64,
    space: u64,
    owner_program: &Address,
) -> (r: Instruction)
    ensures
        is_create_account_instruction(r, funder@, new_account@, lamports, space, owner_program@),
{
    create_account_call(funder, new_account, lamports, space, owner_program)
}

/// Builds the mint-initialization instruction, rejecting an out-of-range
/// decimals value as `InvalidArgument` and nothing else.
pub fn build_initialize_mint(
    mint: &Address,
    mint_authority: &Address,
    freeze_authority: Option<&Address>,
    decimals: u8,
) -> (r: Result<Instruction, SubmitError>)
    ensures
        r is Err <==> decimals > MAX_MINT_DECIMALS,
        r matches Err(e) ==> e is InvalidArgument,
        r matches Ok(ix) ==> is_initialize_mint_instruction(
            ix,
            mint@,
            mint_authority@,
            opt_view(freeze_authority),
            decimals,
        ),
{
    if decimals > MAX_MINT_DECIMALS {
        Err(SubmitError::InvalidArgument("decimals exceed the supported range".to_owned()))
    } else {
        Ok(initialize_mint_call(mint, mint_authority, freeze_authority, decimals))
    }
}

/// Builds the associated-account creation instruction for the address
/// derived from `owner` and `mint`, funded by `funder`.
pub fn build_create_associated_account(
    funder: &Address,
    owner: &Address,
    mint: &Address,
) -> (r: Instruction)
    ensures
        is_create_associated_account_instruction(r, funder@, owner@, mint@),
{
    create_associated_token_account_call(funder, owner, mint)
}

/// Builds the mint-to instruction. `amount` counts minor units; decimal
/// scaling is the caller's responsibility and never happens here.
pub fn build_mint_to(
    mint: &Address,
    destination: &Address,
    authority: &Address,
    amount: u64,
) -> (r: Instruction)
    ensures
        is_mint_to_instruction(r, mint@, destination@, authority@, amount),
{
    mint_to_call(mint, destination, authority, amount)
}

/// Builds the native transfer instruction. `amount` counts minor units.
pub fn build_transfer_native(
    source: &Address,
    destination: &Address,
    amount: u64,
) -> (r: Instruction)
    ensures
        is_transfer_instruction(r, source@, destination@, amount),
{
    transfer_call(source, destination, amount)
}

/// Builds the memo instruction carrying the text's bytes.
pub fn build_memo(text: &str) -> (r: Instruction)
    ensures
        is_memo_instruction(r, text.spec_bytes()),
{
    let data = vstd::slice::slice_to_vec(text.as_bytes());
    Instruction { program: memo_program_address(), accounts: Vec::new(), data }
}

/// The two-instruction sequence for an atomic "pay and annotate": the
/// transfer first, the memo second, in that order.
pub fn transfer_with_memo_instructions(
    source: &Address,
    destination: &Address,
    amount: u64,
    memo_text: &str,
) -> (r: Vec<Instruction>)
    ensures
        r@.len() == 2,
        is_transfer_instruction(r@[0], source@, destination@, amount),
        is_memo_instruction(r@[1], memo_text.spec_bytes()),
{
    let mut r: Vec<Instruction> = Vec::new();
    r.push(build_transfer_native(source, destination, amount));
    r.push(build_memo(memo_text));
    r
}

} // verus!

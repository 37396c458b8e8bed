use vstd::prelude::*;
use vstd::pervasive::unreached;
use solana_sdk::program_pack::Pack;
use crate::address::{Address, token_program_address, token_program_id};
use crate::builders::{
    MAX_MINT_DECIMALS, build_create_account, build_initialize_mint, is_create_account_instruction,
    is_initialize_mint_instruction, opt_view,
};
use crate::errors::SubmitError;
use crate::instruction::{Instruction, required_signer, signs_instruction};
use crate::orchestrator::{
    BlockReference, SignedTransaction, SignerKey, addresses_cover, covered_by_keys,
    fits_in_message, fresh_keypair, message_reference_count_from, submit_prepare,
};

verus! {

/// Relies on spl_token's Mint::LEN, the packed byte size of a mint account
/// on the ledger, which is 82.
#[verifier::external_body]
pub fn mint_account_size() -> (r: u64)
    ensures
        r == 82,
{
    spl_token::state::Mint::LEN as u64
}

/// The mint-creation workflow: generates a fresh mint keypair and assembles
/// and signs the one atomic transaction that creates the mint's account
/// (sized and funded for rent exemption with the caller-supplied
/// `rent_lamports`) and initializes it, in that order — so no created-but-
/// uninitialized mint is ever visible on the ledger. The funder pays and
/// signs, the new mint account signs its own creation, and nothing else
/// signs; both keys are in hand here, so with an in-range decimals value
/// success is owed and promised. An out-of-range decimals value is refused
/// as `InvalidArgument` before anything is built. On success the new mint's
/// address is returned beside the transaction.
pub fn create_mint_transaction(
    funder: &SignerKey,
    mint_authority: &Address,
    freeze_authority: Option<&Address>,
    decimals: u8,
    rent_lamports: u64,
    block_reference: &BlockReference,
) -> (r: Result<(SignedTransaction, Address), SubmitError>)
    ensures
        (r matches Err(e) && e is InvalidArgument) <==> decimals > MAX_MINT_DECIMALS,
        decimals <= MAX_MINT_DECIMALS ==> r is Ok,
        r matches Err(e) ==> e is InvalidArgument,
        r matches Ok(p) ==> {
            &&& p.0.fee_payer@ == funder.spec_address()
            &&& p.0.block_reference@ == block_reference@
            &&& p.0.instructions@.len() == 2
            &&& is_create_account_instruction(
                p.0.instructions@[0],
                funder.spec_address(),
                p.1@,
                rent_lamports,
                82,
                token_program_id(),
            )
            &&& is_initialize_mint_instruction(
                p.0.instructions@[1],
                p.1@,
                mint_authority@,
                opt_view(freeze_authority),
                decimals,
            )
            &&& addresses_cover(funder.spec_address(), p.0.signer_addresses@)
            &&& addresses_cover(p.1@, p.0.signer_addresses@)
            &&& forall|i: int|
                0 <= i < p.0.signer_addresses@.len() ==> ((#[trigger] p.0.signer_addresses@[i])@
                    == funder.spec_address() || (p.0.signer_addresses@[i])@ == p.1@)
        },
{
    let mint_key = SignerKey::from_keypair(fresh_keypair());
    let mint_address = mint_key.address();
    let funder_address = funder.address();
    let ix1 = match build_initialize_mint(&mint_address, mint_authority, freeze_authority,
        decimals) {
        Ok(ix) => ix,
        Err(e) => {
            return Err(e);
        },
    };
    let token_program = token_program_address();
    let ix0 = build_create_account(
        &funder_address,
        &mint_address,
        rent_lamports,
        mint_account_size(),
        &token_program,
    );
    let mut instructions: Vec<Instruction> = Vec::new();
    instructions.push(ix0);
    instructions.push(ix1);
    let mut keys: Vec<&SignerKey> = Vec::new();
    keys.push(funder);
    keys.push(&mint_key);
    proof {
        assert forall|a: Seq<u8>| #[trigger] required_signer(a, instructions@, funder_address@)
            implies covered_by_keys(a, keys@) by {
            if a != funder_address@ && a != mint_address@ {
                let kk = choose|kk: int|
                    0 <= kk < instructions@.len() && signs_instruction(
                        a,
                        #[trigger] instructions@[kk],
                    );
                let jj = choose|jj: int|
                    0 <= jj < instructions@[kk].accounts@.len() && (
                    #[trigger] instructions@[kk].accounts@[jj]).is_signer
                        && instructions@[kk].accounts@[jj].address@ == a;
                assert(kk == 0 || kk == 1);
                assert(kk != 1);
                assert(jj == 0 || jj == 1);
                assert(false);
            }
            assert(keys@[0].spec_address() == funder.spec_address());
            assert(keys@[1].spec_address() == mint_key.spec_address());
        }
        assert(message_reference_count_from(instructions@, 2) == 0);
        assert(message_reference_count_from(instructions@, 1) == 3);
        assert(message_reference_count_from(instructions@, 0) == 6);
        assert(fits_in_message(instructions@));
    }
    match submit_prepare(instructions, funder_address, &keys, block_reference) {
        Ok(t) => {
            proof {
                assert(required_signer(funder_address@, t.instructions@, funder_address@));
                assert(signs_instruction(mint_address@, t.instructions@[0]));
                assert(required_signer(mint_address@, t.instructions@, funder_address@));
                assert forall|i: int| 0 <= i < t.signer_addresses@.len() implies ((
                #[trigger] t.signer_addresses@[i])@ == funder.spec_address() || (
                t.signer_addresses@[i])@ == mint_key.spec_address()) by {
                    let a = (t.signer_addresses@[i])@;
                    assert(required_signer(a, t.instructions@, funder_address@));
                    if a != funder_address@ && a != mint_address@ {
                        let kk = choose|kk: int|
                            0 <= kk < t.instructions@.len() && signs_instruction(
                                a,
                                #[trigger] t.instructions@[kk],
                            );
                        let jj = choose|jj: int|
                            0 <= jj < t.instructions@[kk].accounts@.len() && (
                            #[trigger] t.instructions@[kk].accounts@[jj]).is_signer
                                && t.instructions@[kk].accounts@[jj].address@ == a;
                        assert(kk == 0 || kk == 1);
                        assert(kk != 1);
                        assert(jj == 0 || jj == 1);
                        assert(false);
                    }
                }
            }
            Ok((t, mint_address))
        },
        Err(_) => unreached(),
    }
}

} // verus!

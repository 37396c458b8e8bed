use vstd::prelude::*;
use vstd::pervasive::unreached;
use crate::address::{Address, derive_associated_address, derived_address};
use crate::builders::{build_create_associated_account, is_create_associated_account_instruction};
use crate::errors::{LedgerOutcome, SubmitError};
use crate::instruction::{Instruction, required_signer, signs_instruction};
use crate::orchestrator::{
    BlockReference, SignedTransaction, SignerKey, covered_by_keys, fits_in_message,
    message_reference_count_from, submit_prepare,
};

verus! {

/// The resolver's decision after the existence lookup.
pub enum ResolveStep {
    /// The derived account already exists: return its address at once, with
    /// nothing signed and nothing submitted.
    UseExisting(Address),
    /// The derived account is missing: submit this creation transaction.
    SubmitCreation(SignedTransaction),
}

/// Whether a resolution that saw this lookup answer goes on to submit a
/// creation transaction.
pub open spec fn resolution_submits(account_exists: bool) -> bool {
    !account_exists
}

/// The resolver's decision once the ledger has answered whether the derived
/// account exists. An existing account short-circuits: its address is
/// returned with no transaction. A missing account always yields a
/// one-instruction creation transaction carrying the given block reference,
/// with `funder` as fee payer and sole signer; the funder's key is supplied
/// here and the transaction is small, so the step cannot fail.
pub fn ensure_associated_account_step(
    owner: &Address,
    mint: &Address,
    funder: &SignerKey,
    account_exists: bool,
    block_reference: &BlockReference,
) -> (r: ResolveStep)
    ensures
        account_exists ==> (r matches ResolveStep::UseExisting(a) && a@ == derived_address(
            owner@,
            mint@,
        )),
        !account_exists ==> r is SubmitCreation,
        r is SubmitCreation ==> resolution_submits(account_exists),
        r matches ResolveStep::SubmitCreation(t) ==> ({
            &&& t.fee_payer@ == funder.spec_address()
            &&& t.block_reference@ == block_reference@
            &&& t.instructions@.len() == 1
            &&& is_create_associated_account_instruction(
                t.instructions@[0],
                funder.spec_address(),
                owner@,
                mint@,
            )
            &&& t.signer_addresses@.len() == 1
            &&& forall|i: int|
                0 <= i < t.signer_addresses@.len() ==> (#[trigger] t.signer_addresses@[i])@
                    == funder.spec_address()
        }),
{
    if account_exists {
        ResolveStep::UseExisting(derive_associated_address(owner, mint))
    } else {
        let funder_address = funder.address();
        let ix = build_create_associated_account(&funder_address, owner, mint);
        let mut instructions: Vec<Instruction> = Vec::new();
        instructions.push(ix);
        let mut keys: Vec<&SignerKey> = Vec::new();
        keys.push(funder);
        proof {
            assert forall|a: Seq<u8>| #[trigger] required_signer(
                a,
                instructions@,
                funder_address@,
            ) implies covered_by_keys(a, keys@) by {
                if a != funder_address@ {
                    let kk = choose|kk: int|
                        0 <= kk < instructions@.len() && signs_instruction(
                            a,
                            #[trigger] instructions@[kk],
                        );
                    let jj = choose|jj: int|
                        0 <= jj < instructions@[kk].accounts@.len() && (
                        #[trigger] instructions@[kk].accounts@[jj]).is_signer
                            && instructions@[kk].accounts@[jj].address@ == a;
                    assert(kk == 0);
                    assert(jj == 0);
                    assert(a == funder_address@);
                }
                assert(keys@[0].spec_address() == funder.spec_address());
            }
            assert(message_reference_count_from(instructions@, 1) == 0);
            assert(message_reference_count_from(instructions@, 0) == 7);
            assert(fits_in_message(instructions@));
        }
        match submit_prepare(instructions, funder_address, &keys, block_reference) {
            Ok(t) => {
                proof {
                    assert forall|i: int| 0 <= i < t.signer_addresses@.len() implies (
                    #[trigger] t.signer_addresses@[i])@ == funder.spec_address() by {
                        assert(required_signer(
                            t.signer_addresses@[i]@,
                            t.instructions@,
                            funder_address@,
                        ));
                        if t.signer_addresses@[i]@ != funder_address@ {
                            let kk = choose|kk: int|
                                0 <= kk < t.instructions@.len() && signs_instruction(
                                    t.signer_addresses@[i]@,
                                    #[trigger] t.instructions@[kk],
                                );
                            let jj = choose|jj: int|
                                0 <= jj < t.instructions@[kk].accounts@.len() && (
                                #[trigger] t.instructions@[kk].accounts@[jj]).is_signer
                                    && t.instructions@[kk].accounts@[jj].address@
                                    == t.signer_addresses@[i]@;
                            assert(jj == 0);
                        }
                    }
                    assert(required_signer(funder_address@, t.instructions@, funder_address@));
                    assert(t.signer_addresses@.len() >= 1);
                    if t.signer_addresses@.len() >= 2 {
                        assert((t.signer_addresses@[0])@ == funder.spec_address());
                        assert((t.signer_addresses@[1])@ == funder.spec_address());
                        assert(false);
                    }
                }
                ResolveStep::SubmitCreation(t)
            },
            Err(_) => unreached(),
        }
    }
}

/// Resolves the ledger's terminal report for a creation submission. A
/// confirmation yields the derived address; so does an `AlreadyExists`
/// refusal, covering the race in which another actor created the account
/// between the lookup and the submission — that outcome is an idempotent
/// success, never a failure. Every other refusal is surfaced unchanged, with
/// its classification, reason and failing step intact.
pub fn ensure_associated_account_finish(
    owner: &Address,
    mint: &Address,
    outcome: LedgerOutcome,
) -> (r: Result<Address, SubmitError>)
    ensures
        (outcome is Confirmed || outcome is AlreadyExists) <==> r is Ok,
        r matches Ok(a) ==> a@ == derived_address(owner@, mint@),
        outcome is Rejected <==> (r matches Err(e) && e is Rejected),
        outcome matches LedgerOutcome::Rejected(why) ==> (r matches Err(
            SubmitError::Rejected(w),
        ) && w == why),
        outcome is Timeout <==> (r matches Err(e) && e is Timeout),
        outcome matches LedgerOutcome::Timeout(step) ==> (r matches Err(
            SubmitError::Timeout(s),
        ) && s == step),
        outcome is NetworkFailure <==> (r matches Err(e) && e is NetworkFailure),
        outcome matches LedgerOutcome::NetworkFailure(step) ==> (r matches Err(
            SubmitError::NetworkFailure(s),
        ) && s == step),
{
    match outcome {
        LedgerOutcome::Confirmed(_) => Ok(derive_associated_address(owner, mint)),
        LedgerOutcome::AlreadyExists => Ok(derive_associated_address(owner, mint)),
        LedgerOutcome::Rejected(why) => Err(SubmitError::Rejected(why)),
        LedgerOutcome::Timeout(step) => Err(SubmitError::Timeout(step)),
        LedgerOutcome::NetworkFailure(step) => Err(SubmitError::NetworkFailure(step)),
    }
}

/// Resolving the same owner and mint twice yields the same address both
/// times — the target is the pure derivation, whatever the ledger holds —
/// and a resolution whose lookup finds the account already present decides
/// to submit nothing, so the second of two back-to-back resolutions costs
/// one lookup and no transaction.
pub proof fn lemma_resolution_idempotent(
    owner1: Address,
    mint1: Address,
    owner2: Address,
    mint2: Address,
)
    requires
        owner1@ == owner2@,
        mint1@ == mint2@,
    ensures
        derived_address(owner1@, mint1@) == derived_address(owner2@, mint2@),
        !resolution_submits(true),
{
}

} // verus!

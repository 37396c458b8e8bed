use vstd::prelude::*;
use vstd::pervasive::unreached;
use solana_sdk::signer::Signer;
use crate::address::Address;
use crate::errors::{LedgerOutcome, SubmitError, TransactionId};
use crate::instruction::{AccountMeta, Instruction, required_signer, signs_instruction};

verus! {

/// Declares solana_sdk's Keypair so that values of it can be held and
/// passed; the verifier sees nothing inside one.
#[verifier::external_type_specification]
#[verifier::external_body]
pub struct ExKeypair(solana_sdk::signer::keypair::Keypair);

/// Declares solana_sdk's wire Transaction so that a signed one can be
/// carried to the caller; the verifier sees nothing inside one.
#[verifier::external_type_specification]
#[verifier::external_body]
pub struct ExTransaction(solana_sdk::transaction::Transaction);

/// A recent block reference: the freshness token that binds a transaction to
/// recent ledger state for replay protection. Its validity window is
/// enforced by the ledger, not here.
#[derive(Clone, Copy, Debug)]
pub struct BlockReference {
    pub bytes: [u8; 32],
}

impl View for BlockReference {
    type V = Seq<u8>;

    open spec fn view(&self) -> Seq<u8> {
        self.bytes@
    }
}

/// A signing keypair together with the public address it controls. Both
/// fields are private and the only constructor is `from_keypair`, so in
/// every value the address is the keypair's own public key; the trusted
/// signing contract below rests on that pairing.
pub struct SignerKey {
    address: Address,
    key: solana_sdk::signer::keypair::Keypair,
}

impl SignerKey {
    /// The bytes of the public address this keypair controls.
    pub closed spec fn spec_address(&self) -> Seq<u8> {
        self.address@
    }

    /// The public address this keypair controls.
    pub fn address(&self) -> (r: Address)
        ensures
            r@ == self.spec_address(),
    {
        self.address
    }

    /// Relies on solana_sdk's Signer::pubkey for Keypair, which returns the
    /// public half of the pair: the stored address holds that public key's
    /// bytes, and nothing else can build or alter a `SignerKey`.
    #[verifier::external_body]
    pub fn from_keypair(keypair: solana_sdk::signer::keypair::Keypair) -> (r: SignerKey) {
        let address = Address { bytes: keypair.pubkey().to_bytes() };
        SignerKey { address, key: keypair }
    }
}

/// Relies on Keypair::new, which draws a fresh keypair from the operating
/// system's randomness; nothing is promised of the drawn value.
#[verifier::external_body]
pub(crate) fn fresh_keypair() -> (r: solana_sdk::signer::keypair::Keypair) {
    solana_sdk::signer::keypair::Keypair::new()
}

/// Whether some supplied keypair controls the address bytes `a`.
pub open spec fn covered_by_keys(a: Seq<u8>, keys: Seq<&SignerKey>) -> bool {
    exists|k: int| 0 <= k < keys.len() && (#[trigger] keys[k]).spec_address() == a
}

/// Whether every required signer of the transaction is covered by some
/// supplied keypair.
pub open spec fn signer_set_complete(
    ins: Seq<Instruction>,
    fee_payer: Seq<u8>,
    keys: Seq<&SignerKey>,
) -> bool {
    forall|a: Seq<u8>| #[trigger] required_signer(a, ins, fee_payer) ==> covered_by_keys(a, keys)
}

/// Whether one of the listed addresses has the bytes `a`.
pub open spec fn addresses_cover(a: Seq<u8>, addrs: Seq<Address>) -> bool {
    exists|k: int| 0 <= k < addrs.len() && (#[trigger] addrs[k])@ == a
}

/// The account references in the instruction tail starting at `i`: one per
/// instruction for its program, plus one per account meta.
pub open spec fn message_reference_count_from(ins: Seq<Instruction>, i: int) -> int
    decreases ins.len() - i,
{
    if i < 0 || i >= ins.len() {
        0
    } else {
        1 + ins[i].accounts@.len() + message_reference_count_from(ins, i + 1)
    }
}

/// The number of account references a compiled wire message must hold for
/// these instructions: one for the fee payer, one per instruction for its
/// program, and one per account meta. Duplicates are counted, so this
/// bounds the number of distinct keys from above.
pub open spec fn message_reference_count(ins: Seq<Instruction>) -> int {
    1 + message_reference_count_from(ins, 0)
}

/// Whether the instruction sequence surely compiles into one wire message.
/// A message indexes its keys with one byte, so at most 256 distinct keys
/// fit; counting duplicate references, this bound is conservative.
pub open spec fn fits_in_message(ins: Seq<Instruction>) -> bool {
    message_reference_count(ins) <= 256
}

proof fn lemma_reference_count_nonneg(ins: Seq<Instruction>, i: int)
    ensures
        message_reference_count_from(ins, i) >= 0,
    decreases ins.len() - i,
{
    if 0 <= i < ins.len() {
        lemma_reference_count_nonneg(ins, i + 1);
    }
}

/// Whether the instruction sequence stays within the one-message key bound.
fn message_references_fit(instructions: &Vec<Instruction>) -> (r: bool)
    ensures
        r <==> fits_in_message(instructions@),
{
    let mut count: usize = 1;
    let mut i: usize = 0;
    while i < instructions.len()
        invariant
            i <= instructions@.len(),
            1 <= count <= 256,
            count == 1 + message_reference_count_from(instructions@, 0)
                - message_reference_count_from(instructions@, i as int),
        decreases instructions@.len() - i,
    {
        let metas = instructions[i].accounts.len();
        proof {
            lemma_reference_count_nonneg(instructions@, i as int + 1);
        }
        if metas > 255 || 256 - count < 1 + metas {
            proof {
                assert(message_reference_count_from(instructions@, i as int) == 1 + metas
                    + message_reference_count_from(instructions@, i as int + 1));
                assert(message_reference_count(instructions@) >= count + 1 + metas);
            }
            return false;
        }
        count = count + 1 + metas;
        i += 1;
    }
    proof {
        assert(message_reference_count_from(instructions@, instructions@.len() as int) == 0);
        assert(count == message_reference_count(instructions@));
    }
    true
}

/// Whether `a` must sign a transaction made of these instructions with this
/// fee payer.
fn is_required(a: &Address, instructions: &Vec<Instruction>, fee_payer: &Address) -> (r: bool)
    ensures
        r <==> required_signer(a@, instructions@, fee_payer@),
{
    if a.same_as(fee_payer) {
        return true;
    }
    let mut k: usize = 0;
    while k < instructions.len()
        invariant
            a@ != fee_payer@,
            k <= instructions@.len(),
            forall|kk: int| 0 <= kk < k ==> !signs_instruction(a@, #[trigger] instructions@[kk]),
        decreases instructions@.len() - k,
    {
        let mut j: usize = 0;
        while j < instructions[k].accounts.len()
            invariant
                a@ != fee_payer@,
                k < instructions@.len(),
                j <= instructions@[k as int].accounts@.len(),
                forall|kk: int| 0 <= kk < k ==> !signs_instruction(a@, #[trigger] instructions@[kk]),
                forall|jj: int|
                    0 <= jj < j ==> !((#[trigger] instructions@[k as int].accounts@[jj]).is_signer
                        && instructions@[k as int].accounts@[jj].address@ == a@),
            decreases instructions@[k as int].accounts@.len() - j,
        {
            let m: AccountMeta = instructions[k].accounts[j];
            if m.is_signer && a.same_as(&m.address) {
                proof {
                    assert(signs_instruction(a@, instructions@[k as int]));
                }
                return true;
            }
            j += 1;
        }
        proof {
            assert(!signs_instruction(a@, instructions@[k as int]));
        }
        k += 1;
    }
    false
}

/// Whether one of the supplied keypairs controls this address.
fn covered_by(a: &Address, signers: &Vec<&SignerKey>) -> (r: bool)
    ensures
        r <==> covered_by_keys(a@, signers@),
{
    let mut i: usize = 0;
    while i < signers.len()
        invariant
            i <= signers@.len(),
            forall|k: int| 0 <= k < i ==> (#[trigger] signers@[k]).spec_address() != a@,
        decreases signers@.len() - i,
    {
        if signers[i].address().same_as(a) {
            return true;
        }
        i += 1;
    }
    false
}

/// The mandatory pre-submission check: computes the required-signer set of
/// the instruction sequence (the fee payer plus every account an instruction
/// marks as a signer) and reports an address of it with no matching keypair,
/// or `None` when every required signer is covered.
pub fn find_missing_signer(
    instructions: &Vec<Instruction>,
    fee_payer: &Address,
    signers: &Vec<&SignerKey>,
) -> (r: Option<Address>)
    ensures
        r is None <==> signer_set_complete(instructions@, fee_payer@, signers@),
        r matches Some(a) ==> required_signer(a@, instructions@, fee_payer@) && !covered_by_keys(
            a@,
            signers@,
        ),
{
    if !covered_by(fee_payer, signers) {
        proof {
            assert(required_signer(fee_payer@, instructions@, fee_payer@));
        }
        return Some(*fee_payer);
    }
    let mut k: usize = 0;
    while k < instructions.len()
        invariant
            covered_by_keys(fee_payer@, signers@),
            k <= instructions@.len(),
            forall|kk: int, jj: int|
                0 <= kk < k && 0 <= jj < instructions@[kk].accounts@.len() && (
                #[trigger] instructions@[kk].accounts@[jj]).is_signer ==> covered_by_keys(
                    instructions@[kk].accounts@[jj].address@,
                    signers@,
                ),
        decreases instructions@.len() - k,
    {
        let mut j: usize = 0;
        while j < instructions[k].accounts.len()
            invariant
                covered_by_keys(fee_payer@, signers@),
                k < instructions@.len(),
                j <= instructions@[k as int].accounts@.len(),
                forall|kk: int, jj: int|
                    0 <= kk < k && 0 <= jj < instructions@[kk].accounts@.len() && (
                    #[trigger] instructions@[kk].accounts@[jj]).is_signer ==> covered_by_keys(
                        instructions@[kk].accounts@[jj].address@,
                        signers@,
                    ),
                forall|jj: int|
                    0 <= jj < j && (#[trigger] instructions@[k as int].accounts@[jj]).is_signer
                        ==> covered_by_keys(
                        instructions@[k as int].accounts@[jj].address@,
                        signers@,
                    ),
            decreases instructions@[k as int].accounts@.len() - j,
        {
            let m: AccountMeta = instructions[k].accounts[j];
            if m.is_signer && !covered_by(&m.address, signers) {
                proof {
                    assert(signs_instruction(m.address@, instructions@[k as int]));
                    assert(required_signer(m.address@, instructions@, fee_payer@));
                }
                return Some(m.address);
            }
            j += 1;
        }
        k += 1;
    }
    proof {
        assert forall|a: Seq<u8>| #[trigger] required_signer(a, instructions@, fee_payer@)
            implies covered_by_keys(a, signers@) by {
            if a != fee_payer@ {
                let kk = choose|kk: int|
                    0 <= kk < instructions@.len() && signs_instruction(
                        a,
                        #[trigger] instructions@[kk],
                    );
                let jj = choose|jj: int|
                    0 <= jj < instructions@[kk].accounts@.len() && (
                    #[trigger] instructions@[kk].accounts@[jj]).is_signer
                        && instructions@[kk].accounts@[jj].address@ == a;
                assert(covered_by_keys(instructions@[kk].accounts@[jj].address@, signers@));
            }
        }
    }
    None
}

/// Picks, from the supplied keypairs, one keypair per required signer, in
/// first-appearance order and without duplicate addresses.
fn select_signers<'a>(
    instructions: &Vec<Instruction>,
    fee_payer: &Address,
    signers: &Vec<&'a SignerKey>,
) -> (r: Vec<&'a SignerKey>)
    ensures
        forall|i: int|
            0 <= i < r@.len() ==> required_signer(
                (#[trigger] r@[i]).spec_address(),
                instructions@,
                fee_payer@,
            ),
        forall|i: int, j: int|
            0 <= i < j < r@.len() ==> r@[i].spec_address() != r@[j].spec_address(),
        forall|a: Seq<u8>|
            #[trigger] required_signer(a, instructions@, fee_payer@) && covered_by_keys(
                a,
                signers@,
            ) ==> covered_by_keys(a, r@),
{
    let mut r: Vec<&'a SignerKey> = Vec::new();
    let mut i: usize = 0;
    while i < signers.len()
        invariant
            i <= signers@.len(),
            forall|x: int|
                0 <= x < r@.len() ==> required_signer(
                    (#[trigger] r@[x]).spec_address(),
                    instructions@,
                    fee_payer@,
                ),
            forall|x: int, y: int|
                0 <= x < y < r@.len() ==> r@[x].spec_address() != r@[y].spec_address(),
            forall|k: int|
                0 <= k < i && required_signer(
                    (#[trigger] signers@[k]).spec_address(),
                    instructions@,
                    fee_payer@,
                ) ==> covered_by_keys(signers@[k].spec_address(), r@),
        decreases signers@.len() - i,
    {
        let sk: &'a SignerKey = signers[i];
        let sk_address = sk.address();
        let required = is_required(&sk_address, instructions, fee_payer);
        if required && !covered_by(&sk_address, &r) {
            let ghost r0 = r@;
            r.push(sk);
            proof {
                assert(r@[r@.len() - 1] == sk);
                assert(covered_by_keys(sk.spec_address(), r@));
                assert forall|a: Seq<u8>| covered_by_keys(a, r0) implies covered_by_keys(
                    a,
                    r@,
                ) by {
                    let k0 = choose|k0: int|
                        0 <= k0 < r0.len() && (#[trigger] r0[k0]).spec_address() == a;
                    assert(r@[k0] == r0[k0]);
                }
            }
        }
        proof {
            assert(covered_by_keys(sk.spec_address(), r@) || !required_signer(
                sk.spec_address(),
                instructions@,
                fee_payer@,
            ));
        }
        i += 1;
    }
    proof {
        assert forall|a: Seq<u8>|
            #[trigger] required_signer(a, instructions@, fee_payer@) && covered_by_keys(
                a,
                signers@,
            ) implies covered_by_keys(a, r@) by {
            let k = choose|k: int|
                0 <= k < signers@.len() && (#[trigger] signers@[k]).spec_address() == a;
            assert(required_signer(signers@[k].spec_address(), instructions@, fee_payer@));
        }
    }
    r
}

/// An unsigned wire transaction paired with the model it was compiled from.
/// Only `assemble` constructs one and only `sign_transaction` touches one,
/// so the wire message inside always corresponds to the carried instructions
/// and fee payer; the trusted signing contract rests on that.
struct AssembledTransaction {
    instructions: Vec<Instruction>,
    fee_payer: Address,
    raw: solana_sdk::transaction::Transaction,
}

/// Relies on Transaction::new_with_payer, which compiles the instruction
/// sequence, in order, into an unsigned wire transaction with the given fee
/// payer. Compiling panics when more than 256 distinct keys are referenced;
/// the required bound counts every reference, so under it the call cannot
/// panic.
#[verifier::external_body]
fn assemble(instructions: Vec<Instruction>, fee_payer: Address) -> (r: AssembledTransaction)
    requires
        fits_in_message(instructions@),
    ensures
        r.instructions@ == instructions@,
        r.fee_payer == fee_payer,
{
    let ins: Vec<solana_sdk::instruction::Instruction> = instructions.iter().map(|i|
        solana_sdk::instruction::Instruction {
            program_id: solana_sdk::pubkey::Pubkey::new_from_array(i.program.bytes),
            accounts: i.accounts.iter().map(|m| solana_sdk::instruction::AccountMeta {
                pubkey: solana_sdk::pubkey::Pubkey::new_from_array(m.address.bytes),
                is_signer: m.is_signer,
                is_writable: m.is_writable,
            }).collect(),
            data: i.data.clone(),
        }).collect();
    let payer = solana_sdk::pubkey::Pubkey::new_from_array(fee_payer.bytes);
    let raw = solana_sdk::transaction::Transaction::new_with_payer(&ins, Some(&payer));
    AssembledTransaction { instructions, fee_payer, raw }
}

/// Relies on Transaction::try_sign over the message that `assemble` compiled
/// from the carried instructions and fee payer. Signing a fresh transaction
/// succeeds — by position lookup in the compiled message, whose signer keys
/// are exactly the fee payer and the accounts the instructions mark as
/// signers — whenever every handed keypair's public key is such a required
/// signer and the handed keypairs cover all of them; ed25519 signing itself
/// cannot fail, and a refusal is reported as false, never a panic. The model
/// fields are left untouched.
#[verifier::external_body]
fn sign_transaction(
    t: &mut AssembledTransaction,
    keys: &Vec<&SignerKey>,
    block_reference: &BlockReference,
) -> (ok: bool)
    ensures
        final(t).instructions@ == old(t).instructions@,
        final(t).fee_payer == old(t).fee_payer,
        (forall|a: Seq<u8>|
            #[trigger] required_signer(a, old(t).instructions@, old(t).fee_payer@)
                ==> covered_by_keys(a, keys@)) && (forall|k: int|
            0 <= k < keys@.len() ==> required_signer(
                (#[trigger] keys@[k]).spec_address(),
                old(t).instructions@,
                old(t).fee_payer@,
            )) ==> ok,
{
    let keypairs: Vec<&solana_sdk::signer::keypair::Keypair> =
        keys.iter().map(|k| &k.key).collect();
    let hash = solana_sdk::hash::Hash::new_from_array(block_reference.bytes);
    t.raw.try_sign(&keypairs, hash).is_ok()
}

/// A fully assembled and signed transaction, ready for submission: the
/// instruction sequence in caller order, the designated fee payer, the
/// attached block reference, and the addresses that signed.
pub struct SignedTransaction {
    pub fee_payer: Address,
    pub instructions: Vec<Instruction>,
    pub block_reference: BlockReference,
    pub signer_addresses: Vec<Address>,
    /// The underlying wire transaction, for the caller that performs the
    /// network round trip.
    pub raw: solana_sdk::transaction::Transaction,
}

/// Assembles and signs a transaction from the instruction sequence, in the
/// caller's order, with the given fee payer and a fresh block reference.
/// Fails with `MissingSigner` exactly when some required signer — the fee
/// payer or an account an instruction marks as a signer — has no matching
/// keypair; this check precedes any use of the keys, so a doomed transaction
/// is never produced. An instruction sequence too large for one wire message
/// is refused as `InvalidArgument`. With the signer set complete and the
/// sequence within bounds, success is owed and promised. On success the
/// returned transaction carries one signer address per required signer.
pub fn submit_prepare(
    instructions: Vec<Instruction>,
    fee_payer: Address,
    signers: &Vec<&SignerKey>,
    block_reference: &BlockReference,
) -> (r: Result<SignedTransaction, SubmitError>)
    ensures
        (r matches Err(e) && e is MissingSigner) <==> !signer_set_complete(
            instructions@,
            fee_payer@,
            signers@,
        ),
        signer_set_complete(instructions@, fee_payer@, signers@) ==> ((r matches Err(e)
            && e is InvalidArgument) <==> !fits_in_message(instructions@)),
        signer_set_complete(instructions@, fee_payer@, signers@) && fits_in_message(instructions@)
            ==> r is Ok,
        r matches Err(e) ==> e is MissingSigner || e is InvalidArgument,
        r matches Err(SubmitError::MissingSigner(a)) ==> required_signer(
            a@,
            instructions@,
            fee_payer@,
        ) && !covered_by_keys(a@, signers@),
        r matches Ok(t) ==> {
            &&& t.instructions@ == instructions@
            &&& t.fee_payer@ == fee_payer@
            &&& t.block_reference@ == block_reference@
            &&& forall|i: int|
                0 <= i < t.signer_addresses@.len() ==> required_signer(
                    (#[trigger] t.signer_addresses@[i])@,
                    instructions@,
                    fee_payer@,
                )
            &&& forall|a: Seq<u8>|
                #[trigger] required_signer(a, instructions@, fee_payer@) ==> addresses_cover(
                    a,
                    t.signer_addresses@,
                )
            &&& forall|i: int, j: int|
                0 <= i < j < t.signer_addresses@.len() ==> (#[trigger] t.signer_addresses@[i])@
                    != (#[trigger] t.signer_addresses@[j])@
        },
{
    match find_missing_signer(&instructions, &fee_payer, signers) {
        Some(a) => Err(SubmitError::MissingSigner(a)),
        None => {
            if !message_references_fit(&instructions) {
                return Err(SubmitError::InvalidArgument(
                    "too many account references for one transaction".to_owned(),
                ));
            }
            let sel = select_signers(&instructions, &fee_payer, signers);
            let mut assembled = assemble(instructions, fee_payer);
            let ok = sign_transaction(&mut assembled, &sel, block_reference);
            proof {
                assert forall|a: Seq<u8>| #[trigger] required_signer(a, instructions@, fee_payer@)
                    implies covered_by_keys(a, sel@) by {
                    assert(covered_by_keys(a, signers@));
                }
                assert(ok);
            }
            if !ok {
                // the signing guarantee above makes this branch unreachable
                return unreached();
            }
            let mut signer_addresses: Vec<Address> = Vec::new();
            let mut i: usize = 0;
            while i < sel.len()
                invariant
                    i <= sel@.len(),
                    signer_addresses@.len() == i,
                    forall|x: int|
                        0 <= x < i ==> (#[trigger] signer_addresses@[x])@
                            == sel@[x].spec_address(),
                decreases sel@.len() - i,
            {
                signer_addresses.push(sel[i].address());
                i += 1;
            }
            proof {
                assert forall|a: Seq<u8>| #[trigger] required_signer(a, instructions@, fee_payer@)
                    implies addresses_cover(a, signer_addresses@) by {
                    assert(covered_by_keys(a, sel@));
                    let k = choose|k: int|
                        0 <= k < sel@.len() && (#[trigger] sel@[k]).spec_address() == a;
                    assert((signer_addresses@[k])@ == a);
                }
            }
            Ok(SignedTransaction {
                fee_payer: assembled.fee_payer,
                instructions: assembled.instructions,
                block_reference: *block_reference,
                signer_addresses,
                raw: assembled.raw,
            })
        },
    }
}

/// Maps the ledger's terminal report for a submitted transaction to the
/// orchestrator's result: a confirmation becomes the transaction identifier,
/// and every refusal keeps its classification and context — `AlreadyExists`,
/// `Rejected` with the ledger's reason, `Timeout` and `NetworkFailure` with
/// the failing step are never conflated.
pub fn submit_finish(outcome: LedgerOutcome) -> (r: Result<TransactionId, SubmitError>)
    ensures
        outcome matches LedgerOutcome::Confirmed(id) <==> r is Ok,
        outcome matches LedgerOutcome::Confirmed(id) ==> r matches Ok(i) && i == id,
        outcome is AlreadyExists <==> (r matches Err(e) && e is AlreadyExists),
        outcome is Rejected <==> (r matches Err(e) && e is Rejected),
        outcome matches LedgerOutcome::Rejected(why) ==> r matches Err(
            SubmitError::Rejected(w),
        ) && w == why,
        outcome is Timeout <==> (r matches Err(e) && e is Timeout),
        outcome matches LedgerOutcome::Timeout(step) ==> r matches Err(
            SubmitError::Timeout(s),
        ) && s == step,
        outcome is NetworkFailure <==> (r matches Err(e) && e is NetworkFailure),
        outcome matches LedgerOutcome::NetworkFailure(step) ==> r matches Err(
            SubmitError::NetworkFailure(s),
        ) && s == step,
{
    match outcome {
        LedgerOutcome::Confirmed(id) => Ok(id),
        LedgerOutcome::AlreadyExists => Err(SubmitError::AlreadyExists),
        LedgerOutcome::Rejected(why) => Err(SubmitError::Rejected(why)),
        LedgerOutcome::Timeout(step) => Err(SubmitError::Timeout(step)),
        LedgerOutcome::NetworkFailure(step) => Err(SubmitError::NetworkFailure(step)),
    }
}

} // verus!

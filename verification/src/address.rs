use vstd::prelude::*;

verus! {

/// A fixed-size public identifier for an on-ledger account, mint, or program.
/// Addresses are compared by byte equality and nothing else.
#[derive(Clone, Copy, Debug, PartialEq, Eq)]
pub struct Address {
    pub bytes: [u8; 32],
}

impl View for Address {
    type V = Seq<u8>;

    open spec fn view(&self) -> Seq<u8> {
        self.bytes@
    }
}

impl Address {
    /// Byte equality, the only notion of equality for addresses.
    pub fn same_as(&self, other: &Address) -> (r: bool)
        ensures
            r <==> self@ == other@,
    {
        let mut i: usize = 0;
        while i < 32
            invariant
                0 <= i <= 32,
                forall|j: int| 0 <= j < i ==> self.bytes@[j] == other.bytes@[j],
            decreases 32 - i,
        {
            if self.bytes[i] != other.bytes[i] {
                return false;
            }
            i += 1;
        }
        proof {
            assert(self.bytes@ =~= other.bytes@);
        }
        true
    }
}

/// The address of the token program that owns mints and token accounts
/// (base58 `TokenkegQfeZyiNwAJbNbGKPFXCWuBvf9Ss623VQ5DA`).
pub open spec fn token_program_id() -> Seq<u8> {
    seq![
        6u8, 221, 246, 225, 215, 101, 161, 147, 217, 203, 225, 70, 206, 235, 121, 172,
        28, 180, 133, 237, 95, 91, 55, 145, 58, 140, 245, 133, 126, 255, 0, 169,
    ]
}

/// The address of the program that owns associated token accounts
/// (base58 `ATokenGPvbdGVxr1b2hvZbsiqW5xWH25efTNsLJA8knL`).
pub open spec fn associated_token_program_id() -> Seq<u8> {
    seq![
        140u8, 151, 37, 143, 78, 36, 137, 241, 187, 61, 16, 41, 20, 142, 13, 131,
        11, 90, 19, 153, 218, 255, 16, 132, 4, 142, 123, 216, 219, 233, 248, 89,
    ]
}

/// The address of the memo program that records a note alongside a transaction
/// (base58 `MemoSq4gqABAXKb96qnH8TysNcWxMyWCqXgDLGmfcHr`).
pub open spec fn memo_program_id() -> Seq<u8> {
    seq![
        5u8, 74, 83, 90, 153, 41, 33, 6, 77, 36, 232, 113, 96, 218, 56, 124,
        124, 53, 181, 221, 188, 146, 187, 129, 228, 31, 168, 64, 65, 5, 68, 141,
    ]
}

/// The address of the rent sysvar account read during mint initialization
/// (base58 `SysvarRent111111111111111111111111111111111`).
pub open spec fn rent_sysvar_id() -> Seq<u8> {
    seq![
        6u8, 167, 213, 23, 25, 44, 92, 81, 33, 140, 201, 76, 61, 74, 241, 127,
        88, 218, 238, 8, 155, 161, 253, 68, 227, 219, 217, 138, 0, 0, 0, 0,
    ]
}

/// The address of the system program that creates accounts and moves the
/// native currency: thirty-two zero bytes.
pub open spec fn system_program_id() -> Seq<u8> {
    Seq::new(32, |i: int| 0u8)
}

/// The memo program's address as a value.
pub fn memo_program_address() -> (r: Address)
    ensures
        r@ == memo_program_id(),
{
    let a = Address {
        bytes: [
            5u8, 74, 83, 90, 153, 41, 33, 6, 77, 36, 232, 113, 96, 218, 56, 124,
            124, 53, 181, 221, 188, 146, 187, 129, 228, 31, 168, 64, 65, 5, 68, 141,
        ],
    };
    proof {
        assert(a.bytes@ =~= memo_program_id());
    }
    a
}

/// The bytes of the associated token account address derived for an owner
/// wallet and a mint under the standard token program. The derivation hashes
/// the two addresses together with the owning program ids, so its value is
/// not stated here; it is a function of the owner and mint bytes alone.
pub uninterp spec fn derived_address(owner: Seq<u8>, mint: Seq<u8>) -> Seq<u8>;

/// Relies on spl_associated_token_account's get_associated_token_address,
/// which derives the associated token account address for a wallet and a
/// mint under the standard token program; the result depends on the two
/// addresses alone.
#[verifier::external_body]
#[allow(deprecated)]
fn get_associated_token_address_call(owner: &Address, mint: &Address) -> (r: Address)
    ensures
        r@ == derived_address(owner@, mint@),
{
    let p = spl_associated_token_account::get_associated_token_address(
        &solana_sdk::pubkey::Pubkey::new_from_array(owner.bytes),
        &solana_sdk::pubkey::Pubkey::new_from_array(mint.bytes),
    );
    Address { bytes: p.to_bytes() }
}

/// Derives the associated token account address for an owner wallet and a
/// mint. The derivation is pure: it performs no lookup, and the same owner
/// and mint always give the same address, whether or not the account exists.
pub fn derive_associated_address(owner: &Address, mint: &Address) -> (r: Address)
    ensures
        r@ == derived_address(owner@, mint@),
{
    get_associated_token_address_call(owner, mint)
}

/// Address derivation is a pure function: derivations from equal owner bytes
/// and equal mint bytes yield equal address bytes, independent of any ledger
/// state.
pub proof fn lemma_derivation_deterministic(
    owner1: Address,
    mint1: Address,
    owner2: Address,
    mint2: Address,
)
    requires
        owner1@ == owner2@,
        mint1@ == mint2@,
    ensures
        derived_address(owner1@, mint1@) == derived_address(owner2@, mint2@),
{
}

/// The token program's address as a value.
pub fn token_program_address() -> (r: Address)
    ensures
        r@ == token_program_id(),
{
    let a = Address {
        bytes: [
            6u8, 221, 246, 225, 215, 101, 161, 147, 217, 203, 225, 70, 206, 235, 121, 172,
            28, 180, 133, 237, 95, 91, 55, 145, 58, 140, 245, 133, 126, 255, 0, 169,
        ],
    };
    proof {
        assert(a.bytes@ =~= token_program_id());
    }
    a
}

} // verus!

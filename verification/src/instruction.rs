use vstd::prelude::*;
use crate::address::Address;

verus! {

/// One account an instruction touches, with its access flags. An account
/// marked `is_signer` must sign the transaction that carries the instruction.
#[derive(Clone, Copy, Debug, PartialEq, Eq)]
pub struct AccountMeta {
    pub address: Address,
    pub is_signer: bool,
    pub is_writable: bool,
}

/// An immutable description of a single ledger operation: the program to
/// run, the accounts it reads or writes, and an opaque payload. Instructions
/// are ordering-sensitive: within a transaction they execute sequentially
/// and atomically.
#[derive(Clone, Debug, PartialEq, Eq)]
pub struct Instruction {
    pub program: Address,
    pub accounts: Vec<AccountMeta>,
    pub data: Vec<u8>,
}

/// Whether the instruction names `a` as a required signer.
pub open spec fn signs_instruction(a: Seq<u8>, i: Instruction) -> bool {
    exists|j: int|
        0 <= j < i.accounts@.len() && (#[trigger] i.accounts@[j]).is_signer
            && i.accounts@[j].address@ == a
}

/// Whether `a` must sign a transaction made of `ins` with fee payer
/// `fee_payer`: the fee payer signs the fee debit, and every account that
/// some instruction marks as a signer signs as well.
pub open spec fn required_signer(a: Seq<u8>, ins: Seq<Instruction>, fee_payer: Seq<u8>) -> bool {
    a == fee_payer || exists|k: int| 0 <= k < ins.len() && signs_instruction(a, #[trigger] ins[k])
}

} // verus!

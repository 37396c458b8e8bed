use vstd::prelude::*;
use crate::address::Address;

verus! {

/// A confirmed transaction's identifier, as reported by the ledger.
#[derive(Clone, Debug)]
pub struct TransactionId {
    pub text: String,
}

/// The failures surfaced by transaction orchestration. Every variant carries
/// the context needed to diagnose it: the missing address, the malformed
/// parameter, or the failing step.
#[derive(Debug)]
pub enum SubmitError {
    /// An instruction names the carried address as a required signer, but no
    /// matching keypair was supplied. Fatal: a caller configuration bug.
    MissingSigner(Address),
    /// Malformed instruction parameters, such as an out-of-range decimals
    /// value for mint initialization; carries which parameter was refused.
    /// Fatal.
    InvalidArgument(String),
    /// A transport-level failure on a ledger call; carries the failing step.
    /// Recoverable by re-running the whole submission with fresh freshness
    /// data.
    NetworkFailure(String),
    /// Submit-and-confirm exceeded its deadline; carries the failing step.
    /// The transaction may or may not have landed; never to be conflated
    /// with `Rejected`.
    Timeout(String),
    /// The ledger explicitly refused the transaction; carries the
    /// ledger-reported reason when one is available.
    Rejected(String),
    /// A creation attempt was refused because the target account already
    /// exists. The idempotent resolver treats this as success.
    AlreadyExists,
}

/// The terminal report of the ledger for one submitted transaction, handed
/// back by the caller that performed the network round trip.
#[derive(Debug)]
pub enum LedgerOutcome {
    /// The ledger confirmed the transaction under this identifier.
    Confirmed(TransactionId),
    /// The ledger refused the transaction because the account that it would
    /// create already exists.
    AlreadyExists,
    /// The ledger refused the transaction for the carried reason.
    Rejected(String),
    /// No terminal status arrived before the deadline; carries which step
    /// was waited on.
    Timeout(String),
    /// The round trip itself failed; carries which step failed.
    NetworkFailure(String),
}

} // verus!

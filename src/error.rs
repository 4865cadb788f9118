use vstd::prelude::*;

verus! {

/// Why a request failed. Every step reports its own reason; none is retried
/// behind the caller's back.
#[derive(Clone, Debug, PartialEq, Eq)]
pub enum CoreError {
    /// An identity that the chosen operation needs was not given.
    MissingOperand,
    /// A text that should hold an identity does not.
    InvalidIdentity,
    /// A seed is longer than a derivation admits.
    SeedTooLong,
    /// No bump byte gives an address off the signing curve.
    DerivationExhausted,
    /// The signing key could not be loaded.
    KeyLoad,
    /// The key pair is not the one key whose signature the transaction needs.
    SignerMismatch,
    /// The ledger node could not be reached.
    NetworkUnavailable,
    /// The blockhash left its validity window before confirmation.
    BlockhashExpired,
    /// The ledger refused the transaction; the reason is kept as given.
    TransactionRejected { reason: String },
    /// The record has not reached the requested commitment yet.
    NotYetAvailable,
    /// The ledger knows no transaction with that signature.
    NotFound,
}

} // verus!

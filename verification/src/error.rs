use vstd::prelude::*;

verus! {

/// Why a derivation or a transfer was refused. Every error is final for the
/// call that returned it, and a call that returns one has changed nothing.
#[derive(Clone, Copy, Debug, PartialEq, Eq, Structural, Hash)]
pub enum TransferError {
    /// No bump in the search space gives an address without a signing key.
    DerivationExhausted,
    /// The payload is not exactly nine bytes long.
    MalformedPayload,
    /// Fewer than three accounts were supplied.
    AccountMissing,
    /// The supplied vault and bump are not what the derivation yields.
    BumpMismatch,
    /// The source cannot cover the amount, together with the cost of
    /// creating the vault where that is due.
    InsufficientFunds,
    /// The ledger refused to create the vault account.
    LedgerCreateFailed,
}

} // verus!

//! The error surface of the vault.

use vstd::prelude::*;

verus! {

/// Errors surfaced to the caller of a vault operation.
#[derive(Clone, Copy, Debug, PartialEq, Eq, Structural)]
pub enum ErrorCode {
    /// A balance precondition was violated: the payer cannot cover the
    /// requested amount, or the escrow cannot release it.
    InsufficientFunds,
    /// Generic catch-all for an invariant violation: a missing or duplicate
    /// state record, a derivation mismatch, or an exhausted derivation scan.
    Unexpected,
}

/// Errors of the gateway's atomic value-transfer step.
#[derive(Clone, Copy, Debug, PartialEq, Eq, Structural)]
pub enum TransferError {
    /// The source account's balance is below the requested amount.
    InsufficientFunds,
    /// The presented authority does not match the source account.
    Unauthorized,
}

/// Error of the address deriver.
#[derive(Clone, Copy, Debug, PartialEq, Eq, Structural)]
pub enum DeriveError {
    /// No bump in the scanned range pushes the candidate address off the
    /// signing curve. Practically unreachable, but modeled as an outcome.
    DerivationExhausted,
}

} // verus!

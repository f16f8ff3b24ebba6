//! The failure taxonomy of the HTLC order engine.

use vstd::prelude::*;

verus! {

/// Every failure a caller of this crate can see.  Each operation's contract
/// states exactly which inputs produce which variant.
#[derive(Clone, Copy, PartialEq, Eq, Structural, Debug)]
pub enum HtlcError {
    /// The given order number is not in the store.
    OrderNotFound,
    /// A withdrawal amount of zero was requested.
    InvalidAmount,
    /// A public key string does not parse as a SEC-encoded key.
    InvalidPublicKey,
    /// A secret hash is not valid hex or does not decode to 32 bytes.
    InvalidHash,
    /// The UTXO provider returned no unspent outputs for the funding address.
    NoFunds,
    /// The transaction builder could not cover amount plus fee.
    InsufficientFunds,
    /// An external collaborator returned an unusable answer.
    ExternalServiceFailure,
    /// The network rejected the signed transaction.
    BroadcastFailure,
}

impl HtlcError {
    /// A short description of the failure, for hosts that report errors as text.
    pub fn text(&self) -> (r: &'static str)
        ensures
            r@ == match self {
                HtlcError::OrderNotFound => "order not found"@,
                HtlcError::InvalidAmount => "amount must be greater than 0"@,
                HtlcError::InvalidPublicKey => "invalid public key"@,
                HtlcError::InvalidHash => "invalid secret hash"@,
                HtlcError::NoFunds => "no UTXOs available for this order"@,
                HtlcError::InsufficientFunds => "insufficient funds"@,
                HtlcError::ExternalServiceFailure => "external service failure"@,
                HtlcError::BroadcastFailure => "failed to send transaction"@,
            },
    {
        match self {
            HtlcError::OrderNotFound => "order not found",
            HtlcError::InvalidAmount => "amount must be greater than 0",
            HtlcError::InvalidPublicKey => "invalid public key",
            HtlcError::InvalidHash => "invalid secret hash",
            HtlcError::NoFunds => "no UTXOs available for this order",
            HtlcError::InsufficientFunds => "insufficient funds",
            HtlcError::ExternalServiceFailure => "external service failure",
            HtlcError::BroadcastFailure => "failed to send transaction",
        }
    }
}

} // verus!

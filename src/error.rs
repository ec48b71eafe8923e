//! Why an operation was refused.
use vstd::prelude::*;

verus! {

/// Every failure ends the operation: nothing is stored and nothing is sent.
#[derive(Clone, Debug, PartialEq, Eq)]
pub enum ContractError {
    /// The caller is not the configured owner.
    Unauthorized,
    /// The funds supplied are not of the kind of asset expected.
    AssetTypeMismatch,
    /// No native coins of the expected denomination were supplied.
    ZeroNativeInput,
    /// A token balance of zero was supplied.
    ZeroTokenInput,
    /// The configuration was read before instantiation wrote it.
    NotInitialized,
    /// A balance query could not be answered; the host's reason.
    QueryFailed { reason: String },
    /// An outbound message could not be encoded; the encoder's reason.
    EncodingFailed { reason: String },
    /// The issued token quantity does not fit in 128 bits.
    Overflow,
}

} // verus!

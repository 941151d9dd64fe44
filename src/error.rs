//! Errors of the check lifecycle.

use vstd::prelude::*;
use crate::ledger::TokenError;

verus! {

/// Why an operation on a check was refused.
#[derive(Clone, Copy, Debug, PartialEq, Eq, Structural)]
pub enum ErrorCode {
    /// The nonce does not give a valid program derived address.
    InvalidCheckNonce,
    /// The derived check signer does not match the one given.
    InvalidCheckSigner,
    /// The check has already been cashed.
    AlreadyBurned,
    /// The memo is not the approved greeting.
    InvalidMessage,
    /// The token ledger refused the movement of funds.
    TransferFailed(TokenError),
}

} // verus!

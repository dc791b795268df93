//! Error kinds surfaced by the buffer pool and by the wider asset factory.

use vstd::prelude::*;

verus! {

/// The failure modes of the buffer pool operations. Every precondition
/// violation is detected before any state mutation, so a call that returns
/// one of these left the pool exactly as it found it.
#[derive(Clone, Copy, Debug, PartialEq, Eq, Structural)]
pub enum Error {
    /// The pool configuration already exists, or a custody record already
    /// exists for the given token.
    AlreadyExists,
    /// A basis-point value outside the inclusive range 0 to 10000.
    InvalidPercentage,
    /// The caller identity does not match the required role, or the
    /// authentication proof for the invocation is missing or invalid.
    Unauthorized,
    /// The referenced token has no active custody record.
    TokenNotFound,
}

/// Error kinds of the carbon asset contract that issues the tokens the
/// pool takes into custody. The pool itself never raises these; they are
/// part of the shared error surface of the asset factory.
#[derive(Clone, Copy, Debug, PartialEq, Eq, Structural)]
pub enum ContractError {
    AlreadyInitialized,
    NotInitialized,
    NotAuthorized,
    TokenNotFound,
    NotOwner,
    TransferNotAllowed,
    StatusFrozen,
    InvalidStatusTransition,
    ComplianceFailed,
    RegulatoryNotSet,
    HostJurisdictionNotSet,
    TokenAlreadyBurned,
}

} // verus!

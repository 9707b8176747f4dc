//! The error codes that operations return, and their classes.

use vstd::prelude::*;

verus! {

/// What the global ledger's own operations can fail with.
#[derive(Clone, Copy, Debug, PartialEq, Eq, Structural)]
pub enum ErrorCode {
    /// Only the admin can mint credits.
    UnauthorizedAdmin,
    /// Amount must be greater than 0.
    InvalidAmount,
    /// Math operation overflow.
    MathOverflow,
}

/// The four classes of failure.
#[derive(Clone, Copy, Debug, PartialEq, Eq, Structural)]
pub enum ErrorClass {
    /// The caller is not who the operation requires.
    Authorization,
    /// An input does not fit the record it is applied to.
    Validation,
    /// A checked addition, subtraction, multiplication or division failed.
    Arithmetic,
    /// A record with the same identifier is already stored.
    StateConflict,
}

/// What an operation can fail with. Every failure aborts the whole
/// operation: no record is changed and no transfer is asked for.
#[derive(Clone, Copy, Debug, PartialEq, Eq, Structural)]
pub enum ContractError {
    /// Only the admin can mint credits.
    UnauthorizedAdmin,
    /// The account given as the project's owner is not its owner.
    InvalidProjectOwner,
    /// The ledger given is not the one that issued the project's credits.
    InvalidPlatformAuthority,
    /// Only the buyer of a purchase can retire its credits.
    NotPurchaseOwner,
    /// The amount must be greater than 0.
    InvalidAmount,
    /// The project is not active.
    ProjectInactive,
    /// The project has fewer credits left than were asked for.
    InsufficientTokens,
    /// The purchase has fewer credits left than were asked for.
    InsufficientRemainingTokens,
    /// No such project, or not the project of this purchase.
    InvalidProject,
    /// No such purchase.
    InvalidPurchase,
    /// The receipt's holding account is not the requester's, is for another
    /// receipt, or is empty.
    InvalidNFTAccount,
    /// The receipt presented is not the one bound to the purchase.
    InvalidNFTMint,
    /// The payment asset or the fee vault is not the one the ledger was set
    /// up with, or the asset does not have six decimals.
    InvalidPaymentAssetDescriptor,
    /// The request identifier is longer than 64 bytes.
    RequestIdTooLong,
    /// A checked arithmetic operation overflowed or underflowed.
    MathOverflow,
    /// The ledger has already been initialized.
    AlreadyInitialized,
    /// A project is already stored under this address.
    ProjectExists,
    /// A purchase is already stored under this address.
    PurchaseExists,
    /// The requester has already used this identifier for this purchase.
    OffsetRequestExists,
}

impl ErrorCode {
    /// The operation-level code that stands for this ledger-level code.
    pub open spec fn lifted(self) -> ContractError {
        match self {
            ErrorCode::UnauthorizedAdmin => ContractError::UnauthorizedAdmin,
            ErrorCode::InvalidAmount => ContractError::InvalidAmount,
            ErrorCode::MathOverflow => ContractError::MathOverflow,
        }
    }
}

impl ContractError {
    /// The class of this code.
    pub open spec fn spec_class(self) -> ErrorClass {
        match self {
            ContractError::UnauthorizedAdmin
            | ContractError::InvalidProjectOwner
            | ContractError::InvalidPlatformAuthority
            | ContractError::NotPurchaseOwner => ErrorClass::Authorization,
            ContractError::InvalidAmount
            | ContractError::ProjectInactive
            | ContractError::InsufficientTokens
            | ContractError::InsufficientRemainingTokens
            | ContractError::InvalidProject
            | ContractError::InvalidPurchase
            | ContractError::InvalidNFTAccount
            | ContractError::InvalidNFTMint
            | ContractError::InvalidPaymentAssetDescriptor
            | ContractError::RequestIdTooLong => ErrorClass::Validation,
            ContractError::MathOverflow => ErrorClass::Arithmetic,
            ContractError::AlreadyInitialized
            | ContractError::ProjectExists
            | ContractError::PurchaseExists
            | ContractError::OffsetRequestExists => ErrorClass::StateConflict,
        }
    }

    /// The class of this code.
    pub fn class(&self) -> (r: ErrorClass)
        ensures
            r == self.spec_class(),
    {
        match self {
            ContractError::UnauthorizedAdmin
            | ContractError::InvalidProjectOwner
            | ContractError::InvalidPlatformAuthority
            | ContractError::NotPurchaseOwner => ErrorClass::Authorization,
            ContractError::InvalidAmount
            | ContractError::ProjectInactive
            | ContractError::InsufficientTokens
            | ContractError::InsufficientRemainingTokens
            | ContractError::InvalidProject
            | ContractError::InvalidPurchase
            | ContractError::InvalidNFTAccount
            | ContractError::InvalidNFTMint
            | ContractError::InvalidPaymentAssetDescriptor
            | ContractError::RequestIdTooLong => ErrorClass::Validation,
            ContractError::MathOverflow => ErrorClass::Arithmetic,
            ContractError::AlreadyInitialized
            | ContractError::ProjectExists
            | ContractError::PurchaseExists
            | ContractError::OffsetRequestExists => ErrorClass::StateConflict,
        }
    }

    /// The operation-level code for a failure of the ledger's own
    /// operations.
    pub fn from_ledger(code: ErrorCode) -> (r: ContractError)
        ensures
            r == code.lifted(),
    {
        match code {
            ErrorCode::UnauthorizedAdmin => ContractError::UnauthorizedAdmin,
            ErrorCode::InvalidAmount => ContractError::InvalidAmount,
            ErrorCode::MathOverflow => ContractError::MathOverflow,
        }
    }
}

} // verus!

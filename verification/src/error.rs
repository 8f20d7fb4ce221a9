//! Typed failures for the marketplace.
//!
//! Every lifecycle transition and query surfaces failures synchronously as
//! one of these kinds; nothing is retried internally and no partial state
//! mutation occurs on any failure path.

use vstd::prelude::*;

verus! {

/// The error taxonomy of the marketplace ledger.
///
/// Each transition documents in its contract exactly which of these it
/// returns and on which inputs.
#[derive(Clone, Copy, Debug, PartialEq, Eq, Structural)]
pub enum ContractError {
    /// The listing id names no live listing.
    NotFound,
    /// The caller lacks the required relationship or role.
    Unauthorized,
    /// The listing has already been purchased.
    AlreadyPurchased,
    /// The listing has not been marked shipped yet.
    NotShipped,
    /// The listing is in the wrong state for a cancellation or an
    /// arbitration request.
    NotEligible,
    /// No arbitration has been requested for the listing.
    ArbitrationNotRequested,
    /// The arbitration recipient is neither the seller nor the buyer.
    InvalidRecipient,
    /// The attached payment does not equal the listing price exactly.
    IncorrectFunds,
    /// The description text exceeds the length cap.
    ContentTooLong,
    /// The content reference exceeds the length cap.
    LinkTooLong,
    /// The content reference does not start with the configured gateway
    /// prefix.
    InvalidGateway,
}

impl ContractError {
    /// A short description of the failure, one fixed sentence per kind.
    pub fn message(&self) -> (r: &'static str)
        ensures
            *self is NotFound ==> r@ == "Listing not found"@,
            *self is Unauthorized ==> r@ == "Unauthorized"@,
            *self is AlreadyPurchased ==> r@ == "Listing has already been purchased"@,
            *self is NotShipped ==> r@ == "Listing has not been shipped"@,
            *self is NotEligible ==> r@ == "Listing is not eligible for this action"@,
            *self is ArbitrationNotRequested ==> r@ == "Arbitration has not been requested"@,
            *self is InvalidRecipient ==> r@ == "Funds recipient must be the seller or buyer"@,
            *self is IncorrectFunds ==> r@ == "Attached funds must equal the listing price"@,
            *self is ContentTooLong ==> r@ == "Description text is too long"@,
            *self is LinkTooLong ==> r@ == "Content reference is too long"@,
            *self is InvalidGateway ==> r@ == "Content reference must use the configured gateway"@,
    {
        match self {
            ContractError::NotFound => "Listing not found",
            ContractError::Unauthorized => "Unauthorized",
            ContractError::AlreadyPurchased => "Listing has already been purchased",
            ContractError::NotShipped => "Listing has not been shipped",
            ContractError::NotEligible => "Listing is not eligible for this action",
            ContractError::ArbitrationNotRequested => "Arbitration has not been requested",
            ContractError::InvalidRecipient => "Funds recipient must be the seller or buyer",
            ContractError::IncorrectFunds => "Attached funds must equal the listing price",
            ContractError::ContentTooLong => "Description text is too long",
            ContractError::LinkTooLong => "Content reference is too long",
            ContractError::InvalidGateway => "Content reference must use the configured gateway",
        }
    }
}

} // verus!

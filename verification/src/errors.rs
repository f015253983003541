//! Why an operation was rejected.

use vstd::prelude::*;

verus! {

/// The reason for which an operation is rejected. A rejected operation leaves
/// the state exactly as it found it.
#[derive(Clone, Copy, Debug, PartialEq, Eq, Structural)]
pub enum ContractError {
    /// A vendor, item, drop, ticket type, account or pending mint is unknown.
    NotFound,
    /// The caller's role does not grant what the operation needs.
    Unauthorized,
    /// The drop was already claimed by this account, or its mint is in flight.
    AlreadyClaimed,
    /// Some scavenger id of the drop's hunt has not been found yet.
    ScavengerIncomplete,
    /// The buyer holds fewer tokens than the price.
    InsufficientBalance,
    /// The item is not purchasable any more.
    OutOfStock,
    /// A balance would leave the range of the ledger's integers.
    ArithmeticOverflow,
}

impl ContractError {
    /// The reason as text.
    pub open spec fn reason(self) -> Seq<char> {
        match self {
            ContractError::NotFound => "not found"@,
            ContractError::Unauthorized => "unauthorized"@,
            ContractError::AlreadyClaimed => "already claimed"@,
            ContractError::ScavengerIncomplete => "scavenger hunt incomplete"@,
            ContractError::InsufficientBalance => "insufficient balance"@,
            ContractError::OutOfStock => "out of stock"@,
            ContractError::ArithmeticOverflow => "arithmetic overflow"@,
        }
    }

    /// A short text that names the reason, for the caller to show.
    pub fn message(&self) -> (text: &'static str)
        ensures
            text@ == self.reason(),
    {
        match self {
            ContractError::NotFound => "not found",
            ContractError::Unauthorized => "unauthorized",
            ContractError::AlreadyClaimed => "already claimed",
            ContractError::ScavengerIncomplete => "scavenger hunt incomplete",
            ContractError::InsufficientBalance => "insufficient balance",
            ContractError::OutOfStock => "out of stock",
            ContractError::ArithmeticOverflow => "arithmetic overflow",
        }
    }
}

} // verus!

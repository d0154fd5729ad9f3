use vstd::prelude::*;

verus! {

/// Why an operation of the contract was refused.
#[derive(Debug, PartialEq)]
pub enum ContractError {
    /// A failure reported by the host (storage, address validation), as its message.
    Std(String),
    /// The caller is not the account that the operation requires.
    Unauthorized {},
    /// The queried denomination is unknown.
    DenomNotFound(String),
    /// The balance is below the disbursal threshold.
    InsufficientFunds,
}

} // verus!

use vstd::prelude::*;

verus! {

/// The errors that the contracts' handlers and helpers return.
#[derive(Debug, PartialEq, Eq)]
pub enum ContractError {
    /// A failure described by a message.
    GenericErr { msg: String },
    /// The sender may not perform the requested operation.
    Unauthorized,
    /// A subtraction of `subtrahend` from `minuend` would go below zero.
    Underflow { minuend: u128, subtrahend: u128 },
    /// A value could not be serialized.
    SerializeErr { msg: String },
}

/// Builds a `GenericErr` carrying the given message.
pub fn generic_err(msg: &str) -> (e: ContractError)
    ensures
        e matches ContractError::GenericErr { msg: m } && m@ == msg@,
{
    ContractError::GenericErr { msg: msg.to_owned() }
}

} // verus!

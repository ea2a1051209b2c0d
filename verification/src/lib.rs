//! Verified core of the Sienna contracts: the decimal helpers of the
//! exchange, and the decision logic of the burner, factory and vesting
//! management contracts, each written as a function from the contract's
//! state and an incoming message to the new state and the response.
pub mod error;
pub mod decimal_math;
pub mod text;
pub mod env;
pub mod addr;
pub mod burner;
pub mod bytes;
pub mod factory;
pub mod mgmt;

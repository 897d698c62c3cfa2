pub mod account;
pub mod fixed_point;
pub mod transaction;


use vstd::prelude::*;

verus! {

/// Identifier of a client.
pub type ClientId = u16;

/// Identifier of a transaction.
pub type TransactionId = u32;

} // verus!

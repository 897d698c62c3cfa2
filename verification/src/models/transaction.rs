use vstd::prelude::*;

use crate::models::fixed_point::Fixed4;
use crate::models::{ClientId, TransactionId};

verus! {

/// The representation of a transaction in the system.
#[derive(Debug, Copy, Clone, PartialEq, Eq, Structural)]
pub struct Transaction {
    /// Kind of the transaction.
    pub kind: TransactionType,
    /// Unique identifier of the client that performs the transaction.
    pub client: ClientId,
    /// Unique identifier of this transaction or the referenced transaction by the type.
    pub transaction: TransactionId,
    /// Amount processed by the transaction.
    /// Ignored for the kinds that do not require an amount.
    pub amount: Fixed4,
}

/// Different types of the transaction.
#[derive(Debug, Copy, Clone, PartialEq, Eq, Structural)]
pub enum TransactionType {
    Deposit,
    Withdrawal,
    Dispute,
    Resolve,
    Chargeback,
}

} // verus!

use std::collections::HashMap;
use vstd::prelude::*;

use crate::models::fixed_point::{fits_i64, Fixed4};
use crate::models::{ClientId, TransactionId};

verus! {

broadcast use vstd::std_specs::hash::group_hash_axioms;

/// The account of a specific client.
#[derive(Debug, Clone, PartialEq, Eq)]
pub struct ClientAccount {
    /// Unique identifier of the client that owns the account.
    pub client: ClientId,
    /// Amount that is available for trading, i.e. not held for any reason.
    pub available: Fixed4,
    /// Amount that is not available for the user to use.
    pub held: Fixed4,
    /// Total amount in the account, i.e. available + held.
    pub total: Fixed4,
    /// Whether the account is locked or not.
    pub locked: bool,
    /// Map of past deposit transactions that could be disputed.
    pub past_transactions: HashMap<TransactionId, DepositTransactionState>,
}

/// The state of a deposit transaction.
#[derive(Debug, Clone, PartialEq, Eq, Structural)]
pub struct DepositTransactionState {
    /// The amount of the transaction.
    pub amount: Fixed4,
    /// Whether it was disputed or not.
    pub disputed: bool,
}

/// The mathematical model of a [ClientAccount]: amounts are counted in units
/// (ten thousandths) as unbounded integers.
pub struct AccountView {
    pub client: ClientId,
    pub available: int,
    pub held: int,
    pub total: int,
    pub locked: bool,
    pub past_transactions: Map<TransactionId, DepositTransactionState>,
}

impl AccountView {
    /// The model of a fresh account of `client`: no funds, unlocked, no past deposits.
    pub open spec fn empty(client: ClientId) -> AccountView {
        AccountView {
            client,
            available: 0,
            held: 0,
            total: 0,
            locked: false,
            past_transactions: Map::empty(),
        }
    }

    /// Every amount fits in the units of a [Fixed4].
    pub open spec fn fits(self) -> bool {
        &&& fits_i64(self.available)
        &&& fits_i64(self.held)
        &&& fits_i64(self.total)
    }

    /// The total is the sum of the available and the held amounts.
    pub open spec fn balanced(self) -> bool {
        self.total == self.available + self.held
    }
}

impl View for ClientAccount {
    type V = AccountView;

    open spec fn view(&self) -> AccountView {
        AccountView {
            client: self.client,
            available: self.available@,
            held: self.held@,
            total: self.total@,
            locked: self.locked,
            past_transactions: self.past_transactions@,
        }
    }
}

impl ClientAccount {
    /// Builds a new empty [ClientAccount] for a client.
    pub fn new(client: ClientId) -> (r: Self)
        ensures
            r@ == AccountView::empty(client),
    {
        Self {
            client,
            available: Fixed4::default(),
            held: Fixed4::default(),
            total: Fixed4::default(),
            locked: false,
            past_transactions: HashMap::new(),
        }
    }

    /// Adds a transaction to the map for this account, not disputed; a past
    /// transaction with the same identifier is replaced.
    pub fn add_transaction(&mut self, transaction_id: TransactionId, amount: Fixed4)
        ensures
            final(self)@ == (AccountView {
                past_transactions: old(self)@.past_transactions.insert(
                    transaction_id,
                    DepositTransactionState { amount, disputed: false },
                ),
                ..old(self)@
            }),
    {
        self.past_transactions.insert(
            transaction_id,
            DepositTransactionState { amount, disputed: false },
        );
    }
}

} // verus!

use std::collections::HashMap;
use vstd::prelude::*;

use crate::models::account::{AccountView, ClientAccount, DepositTransactionState};
use crate::models::fixed_point::fits_i64;
use crate::models::transaction::{Transaction, TransactionType};
use crate::models::ClientId;

verus! {

broadcast use vstd::std_specs::hash::group_hash_axioms;

/// Handles all common state of the App.
#[derive(Debug)]
pub struct AppState {
    /// Map of every account handled by the system.
    pub client_accounts: HashMap<ClientId, ClientAccount>,
}

impl View for AppState {
    type V = Map<ClientId, AccountView>;

    /// Each client's account, by its model.
    open spec fn view(&self) -> Map<ClientId, AccountView> {
        self.client_accounts@.map_values(|a: ClientAccount| a@)
    }
}

/// The account of `client` in `accounts`, or a fresh one where it has none.
pub open spec fn account_or_new(accounts: Map<ClientId, AccountView>, client: ClientId) -> AccountView {
    if accounts.contains_key(client) {
        accounts[client]
    } else {
        AccountView::empty(client)
    }
}

/// What a transaction does to the account of its client.
///
/// A locked account only takes deposits. A deposit adds its amount to the
/// available and total funds and is remembered, undisputed. A withdrawal takes
/// its amount from the available and total funds, unless more than is available.
/// A dispute of a remembered, undisputed deposit moves its amount from the available
/// to the held funds and marks it disputed. A resolve of a disputed deposit moves
/// its amount back from held to available; a chargeback of a disputed deposit takes
/// its amount from the held and total funds and locks the account. Anything else
/// leaves the account as it is.
pub open spec fn apply_to_account(a: AccountView, tx: Transaction) -> AccountView {
    let amount = tx.amount@;
    let id = tx.transaction;
    if a.locked && !(tx.kind is Deposit) {
        a
    } else {
        match tx.kind {
            TransactionType::Deposit => AccountView {
                available: a.available + amount,
                total: a.total + amount,
                past_transactions: a.past_transactions.insert(
                    id,
                    DepositTransactionState { amount: tx.amount, disputed: false },
                ),
                ..a
            },
            TransactionType::Withdrawal => if a.available < amount {
                a
            } else {
                AccountView { available: a.available - amount, total: a.total - amount, ..a }
            },
            TransactionType::Dispute => if !a.past_transactions.contains_key(id)
                || a.past_transactions[id].disputed {
                a
            } else {
                let past = a.past_transactions[id];
                AccountView {
                    available: a.available - past.amount@,
                    held: a.held + past.amount@,
                    past_transactions: a.past_transactions.insert(
                        id,
                        DepositTransactionState { amount: past.amount, disputed: true },
                    ),
                    ..a
                }
            },
            TransactionType::Resolve => if !a.past_transactions.contains_key(id)
                || !a.past_transactions[id].disputed {
                a
            } else {
                let past = a.past_transactions[id];
                AccountView {
                    available: a.available + past.amount@,
                    held: a.held - past.amount@,
                    ..a
                }
            },
            TransactionType::Chargeback => if !a.past_transactions.contains_key(id)
                || !a.past_transactions[id].disputed {
                a
            } else {
                let past = a.past_transactions[id];
                AccountView {
                    held: a.held - past.amount@,
                    total: a.total - past.amount@,
                    locked: true,
                    ..a
                }
            },
        }
    }
}

/// The accounts after processing `tx`: the account of its client, created if
/// missing, takes the transaction; every other account stays as it is.
pub open spec fn apply_transaction(accounts: Map<ClientId, AccountView>, tx: Transaction) -> Map<
    ClientId,
    AccountView,
> {
    accounts.insert(tx.client, apply_to_account(account_or_new(accounts, tx.client), tx))
}

/// Whether processing `tx` keeps every amount of its client's account within
/// the range of a [crate::models::fixed_point::Fixed4].
pub open spec fn transaction_fits(accounts: Map<ClientId, AccountView>, tx: Transaction) -> bool {
    apply_to_account(account_or_new(accounts, tx.client), tx).fits()
}

/// Whether `v` fits in the units of a [crate::models::fixed_point::Fixed4].
fn in_units_range(v: i128) -> (r: bool)
    ensures
        r == fits_i64(v as int),
{
    i64::MIN as i128 <= v && v <= i64::MAX as i128
}

impl Default for AppState {
    /// An [AppState] with no accounts.
    fn default() -> (r: Self)
        ensures
            r@ == Map::<ClientId, AccountView>::empty(),
    {
        AppState::new()
    }
}

impl AppState {
    /// Whether processing `transaction` keeps every amount of its client's account
    /// within the range of a [crate::models::fixed_point::Fixed4], as
    /// [AppState::process_transaction] requires.
    pub fn can_process(&self, transaction: &Transaction) -> (r: bool)
        ensures
            r == transaction_fits(self@, *transaction),
    {
        let amount = transaction.amount.units() as i128;
        let account = self.client_accounts.get(&transaction.client);
        let ghost start = account_or_new(self@, transaction.client);
        let (available, held, total, locked) = match account {
            Some(a) => {
                proof {
                    a.available.lemma_units_fit();
                    a.held.lemma_units_fit();
                    a.total.lemma_units_fit();
                }
                (a.available.units() as i128, a.held.units() as i128, a.total.units() as i128, a.locked)
            },
            None => (0i128, 0i128, 0i128, false),
        };
        assert(start.fits());
        if locked && !matches!(transaction.kind, TransactionType::Deposit) {
            return true;
        }
        match transaction.kind {
            TransactionType::Deposit => {
                in_units_range(available + amount) && in_units_range(total + amount)
            },
            TransactionType::Withdrawal => {
                available < amount || (in_units_range(available - amount) && in_units_range(
                    total - amount,
                ))
            },
            _ => {
                let past = match account {
                    Some(a) => match a.past_transactions.get(&transaction.transaction) {
                        Some(v) => Some((v.amount.units() as i128, v.disputed)),
                        None => None,
                    },
                    None => None,
                };
                match past {
                    None => true,
                    Some((past_amount, disputed)) => {
                        match transaction.kind {
                            TransactionType::Dispute => {
                                disputed || (in_units_range(available - past_amount)
                                    && in_units_range(held + past_amount))
                            },
                            TransactionType::Resolve => {
                                !disputed || (in_units_range(available + past_amount)
                                    && in_units_range(held - past_amount))
                            },
                            _ => {
                                !disputed || (in_units_range(held - past_amount)
                                    && in_units_range(total - past_amount))
                            },
                        }
                    },
                }
            },
        }
    }

    /// Creates a new empty [AppState].
    pub fn new() -> (r: Self)
        ensures
            r@ == Map::<ClientId, AccountView>::empty(),
    {
        let r = AppState { client_accounts: HashMap::new() };
        assert(r@ =~= Map::<ClientId, AccountView>::empty());
        r
    }

    /// Process a [Transaction] and update the state accordingly.
    pub fn process_transaction(&mut self, transaction: Transaction)
        requires
            transaction_fits(old(self)@, transaction),
        ensures
            final(self)@ == apply_transaction(old(self)@, transaction),
    {
        let ghost before = self@;
        // Gets or creates the account for the user.
        let mut account = match self.client_accounts.remove(&transaction.client) {
            Some(account) => account,
            None => ClientAccount::new(transaction.client),
        };
        let ghost start = account@;
        assert(start == account_or_new(before, transaction.client));
        let ghost target = apply_to_account(start, transaction);

        // When an account is locked, we should ignore every other operation but in some cases,
        // like in crypto, someone can send you funds to your account without your permission or any
        // other kind of control. Therefore, I ignore everything BUT deposits.
        if account.locked && !matches!(transaction.kind, TransactionType::Deposit) {
        } else {
            match transaction.kind {
                TransactionType::Deposit => {
                    account.available.add_assign(transaction.amount);
                    account.total.add_assign(transaction.amount);
                    // Store the transaction for future disputes.
                    account.add_transaction(transaction.transaction, transaction.amount);
                },
                TransactionType::Withdrawal => {
                    // Cannot withdraw more quantity than available.
                    if account.available.units() >= transaction.amount.units() {
                        account.available.sub_assign(transaction.amount);
                        account.total.sub_assign(transaction.amount);
                    }
                },
                TransactionType::Dispute => {
                    // Get the past transaction, ignoring the dispute if it does not exist
                    // or is already disputed.
                    let past = match account.past_transactions.get(&transaction.transaction) {
                        Some(v) => Some((v.amount, v.disputed)),
                        None => None,
                    };
                    if let Some((amount, disputed)) = past {
                        if !disputed {
                            account.available.sub_assign(amount);
                            account.held.add_assign(amount);
                            account.past_transactions.insert(
                                transaction.transaction,
                                DepositTransactionState { amount, disputed: true },
                            );
                        }
                    }
                },
                TransactionType::Resolve => {
                    // Get the past transaction, ignoring the resolve if it does not exist
                    // or is not yet disputed.
                    let past = match account.past_transactions.get(&transaction.transaction) {
                        Some(v) => Some((v.amount, v.disputed)),
                        None => None,
                    };
                    if let Some((amount, disputed)) = past {
                        if disputed {
                            account.available.add_assign(amount);
                            account.held.sub_assign(amount);
                        }
                    }
                },
                TransactionType::Chargeback => {
                    // Get the past transaction, ignoring the chargeback if it does not exist
                    // or is not yet disputed.
                    let past = match account.past_transactions.get(&transaction.transaction) {
                        Some(v) => Some((v.amount, v.disputed)),
                        None => None,
                    };
                    if let Some((amount, disputed)) = past {
                        if disputed {
                            account.held.sub_assign(amount);
                            account.total.sub_assign(amount);
                            account.locked = true;
                        }
                    }
                },
            }
        }
        assert(account@ == target);
        self.client_accounts.insert(transaction.client, account);
        assert(self@ =~= apply_transaction(before, transaction));
    }
}

} // verus!

//! Properties of transaction processing that hold for every state and every
//! transaction, stated over the model that [crate::state::AppState::process_transaction]
//! is specified by.
use vstd::prelude::*;

use crate::models::account::{AccountView, DepositTransactionState};
use crate::models::transaction::{Transaction, TransactionType};
use crate::models::{ClientId, TransactionId};
use crate::state::{account_or_new, apply_to_account, apply_transaction};

verus! {

/// Processing a transaction changes the account of its client only: that account
/// exists afterwards, and every other client's account, or its absence, is as before.
pub proof fn lemma_only_the_client_account_changes(
    accounts: Map<ClientId, AccountView>,
    tx: Transaction,
)
    ensures
        apply_transaction(accounts, tx).contains_key(tx.client),
        forall|c: ClientId|
            c != tx.client ==> (#[trigger] apply_transaction(accounts, tx).contains_key(c)
                <==> accounts.contains_key(c)),
        forall|c: ClientId|
            c != tx.client && accounts.contains_key(c) ==> #[trigger] apply_transaction(
                accounts,
                tx,
            )[c] == accounts[c],
{
}

/// Where every account's total is the sum of its available and held funds,
/// this stays so after any transaction.
pub proof fn lemma_processing_keeps_accounts_balanced(
    accounts: Map<ClientId, AccountView>,
    tx: Transaction,
)
    requires
        forall|c: ClientId| #[trigger] accounts.contains_key(c) ==> accounts[c].balanced(),
    ensures
        forall|c: ClientId| #[trigger]
            apply_transaction(accounts, tx).contains_key(c) ==> apply_transaction(
                accounts,
                tx,
            )[c].balanced(),
{
}

/// Where every account is stored under the identifier of its own client, this
/// stays so after any transaction.
pub proof fn lemma_processing_keeps_account_owners(
    accounts: Map<ClientId, AccountView>,
    tx: Transaction,
)
    requires
        forall|c: ClientId| #[trigger] accounts.contains_key(c) ==> accounts[c].client == c,
    ensures
        forall|c: ClientId| #[trigger]
            apply_transaction(accounts, tx).contains_key(c) ==> apply_transaction(
                accounts,
                tx,
            )[c].client == c,
{
}

/// A locked account ignores every transaction but a deposit: the state does not change.
pub proof fn lemma_locked_account_ignores_all_but_deposits(
    accounts: Map<ClientId, AccountView>,
    tx: Transaction,
)
    requires
        accounts.contains_key(tx.client),
        accounts[tx.client].locked,
        !(tx.kind is Deposit),
    ensures
        apply_transaction(accounts, tx) == accounts,
{
    assert(apply_transaction(accounts, tx) =~= accounts);
}

/// A locked account stays locked, whatever the transaction.
pub proof fn lemma_accounts_stay_locked(accounts: Map<ClientId, AccountView>, tx: Transaction)
    ensures
        forall|c: ClientId|
            #[trigger] accounts.contains_key(c) && accounts[c].locked ==> apply_transaction(
                accounts,
                tx,
            )[c].locked,
{
}

/// A withdrawal never leaves the available funds negative: it is either ignored,
/// or what is left available is at least zero.
pub proof fn lemma_withdrawal_never_overdraws(accounts: Map<ClientId, AccountView>, tx: Transaction)
    requires
        tx.kind is Withdrawal,
    ensures
        ({
            let before = account_or_new(accounts, tx.client);
            let after = apply_transaction(accounts, tx)[tx.client];
            after == before || after.available >= 0
        }),
{
}

/// Disputing a transaction twice has the effect of disputing it once.
pub proof fn lemma_dispute_is_idempotent(accounts: Map<ClientId, AccountView>, tx: Transaction)
    requires
        tx.kind is Dispute,
    ensures
        apply_transaction(apply_transaction(accounts, tx), tx) == apply_transaction(accounts, tx),
{
    let once = apply_transaction(accounts, tx);
    assert(apply_transaction(once, tx) =~= once);
}

/// A dispute followed by a resolve of the same deposit gives the client back the
/// funds that the dispute held: available, held and total funds are as before,
/// and the deposit stays marked disputed.
pub proof fn lemma_resolve_undoes_dispute(
    accounts: Map<ClientId, AccountView>,
    dispute: Transaction,
    resolve: Transaction,
)
    requires
        dispute.kind is Dispute,
        resolve.kind is Resolve,
        resolve.client == dispute.client,
        resolve.transaction == dispute.transaction,
        ({
            let a = account_or_new(accounts, dispute.client);
            &&& !a.locked
            &&& a.past_transactions.contains_key(dispute.transaction)
            &&& !a.past_transactions[dispute.transaction].disputed
        }),
    ensures
        ({
            let before = account_or_new(accounts, dispute.client);
            let after = apply_transaction(apply_transaction(accounts, dispute), resolve)[dispute.client];
            &&& after.available == before.available
            &&& after.held == before.held
            &&& after.total == before.total
            &&& !after.locked
            &&& after.past_transactions[dispute.transaction].disputed
        }),
{
}

/// A dispute followed by a chargeback of the same deposit removes its amount from
/// the client's available and total funds, leaves the held funds as before the
/// dispute, and locks the account.
pub proof fn lemma_chargeback_after_dispute(
    accounts: Map<ClientId, AccountView>,
    dispute: Transaction,
    chargeback: Transaction,
)
    requires
        dispute.kind is Dispute,
        chargeback.kind is Chargeback,
        chargeback.client == dispute.client,
        chargeback.transaction == dispute.transaction,
        ({
            let a = account_or_new(accounts, dispute.client);
            &&& !a.locked
            &&& a.past_transactions.contains_key(dispute.transaction)
            &&& !a.past_transactions[dispute.transaction].disputed
        }),
    ensures
        ({
            let before = account_or_new(accounts, dispute.client);
            let amount = before.past_transactions[dispute.transaction].amount@;
            let after = apply_transaction(
                apply_transaction(accounts, dispute),
                chargeback,
            )[dispute.client];
            &&& after.available == before.available - amount
            &&& after.held == before.held
            &&& after.total == before.total - amount
            &&& after.locked
        }),
{
}

/// The account a transaction of `client` starts from: the stored one, or, for a
/// client without an account, one with no funds, unlocked and without past deposits.
pub open spec fn prior_account(accounts: Map<ClientId, AccountView>, client: ClientId) -> AccountView {
    if accounts.contains_key(client) {
        accounts[client]
    } else {
        AccountView {
            client,
            available: 0,
            held: 0,
            total: 0,
            locked: false,
            past_transactions: Map::empty(),
        }
    }
}

/// A fresh account has no funds, is unlocked and has no past deposits.
pub proof fn lemma_fresh_account_is_empty(client: ClientId)
    ensures
        AccountView::empty(client).client == client,
        AccountView::empty(client).available == 0,
        AccountView::empty(client).held == 0,
        AccountView::empty(client).total == 0,
        !AccountView::empty(client).locked,
        AccountView::empty(client).past_transactions == Map::<TransactionId, DepositTransactionState>::empty(),
{
}

/// A transaction starts from the client's stored account, or from an empty one.
pub proof fn lemma_transaction_starts_from_prior_account(
    accounts: Map<ClientId, AccountView>,
    client: ClientId,
)
    ensures
        account_or_new(accounts, client) == prior_account(accounts, client),
{
    assert(account_or_new(accounts, client) =~= prior_account(accounts, client));
}

/// A deposit adds its amount to the available and total funds, whether or not the
/// account is locked, and records the deposit, undisputed, under its identifier; the
/// held funds, the lock and every other stored deposit stay as they were.
pub proof fn lemma_deposit_credits_and_records(accounts: Map<ClientId, AccountView>, tx: Transaction)
    requires
        tx.kind is Deposit,
    ensures
        ({
            let before = prior_account(accounts, tx.client);
            apply_transaction(accounts, tx)[tx.client] == AccountView {
                available: before.available + tx.amount@,
                total: before.total + tx.amount@,
                past_transactions: before.past_transactions.insert(
                    tx.transaction,
                    DepositTransactionState { amount: tx.amount, disputed: false },
                ),
                ..before
            }
        }),
{
    lemma_transaction_starts_from_prior_account(accounts, tx.client);
}

/// On an unlocked account, a withdrawal of at most the available funds takes its
/// amount from the available and total funds, whatever is held, and changes nothing
/// else (in particular no deposit is stored); on a locked account, or for more than
/// is available, it changes nothing.
pub proof fn lemma_withdrawal_debits_or_is_ignored(
    accounts: Map<ClientId, AccountView>,
    tx: Transaction,
)
    requires
        tx.kind is Withdrawal,
    ensures
        ({
            let before = prior_account(accounts, tx.client);
            let after = apply_transaction(accounts, tx)[tx.client];
            &&& !before.locked && tx.amount@ <= before.available ==> after == AccountView {
                available: before.available - tx.amount@,
                total: before.total - tx.amount@,
                ..before
            }
            &&& before.locked || before.available < tx.amount@ ==> after == before
            &&& after.past_transactions == before.past_transactions
        }),
{
    lemma_transaction_starts_from_prior_account(accounts, tx.client);
}

/// On an unlocked account, a dispute of a stored, undisputed deposit moves its amount
/// from the available to the held funds and marks it disputed, changing nothing else;
/// any other dispute changes nothing.
pub proof fn lemma_dispute_holds_or_is_ignored(accounts: Map<ClientId, AccountView>, tx: Transaction)
    requires
        tx.kind is Dispute,
    ensures
        ({
            let before = prior_account(accounts, tx.client);
            let after = apply_transaction(accounts, tx)[tx.client];
            let id = tx.transaction;
            let applies = !before.locked && before.past_transactions.contains_key(id)
                && !before.past_transactions[id].disputed;
            &&& applies ==> after == AccountView {
                available: before.available - before.past_transactions[id].amount@,
                held: before.held + before.past_transactions[id].amount@,
                past_transactions: before.past_transactions.insert(
                    id,
                    DepositTransactionState {
                        amount: before.past_transactions[id].amount,
                        disputed: true,
                    },
                ),
                ..before
            }
            &&& !applies ==> after == before
        }),
{
    lemma_transaction_starts_from_prior_account(accounts, tx.client);
}

/// On an unlocked account, a resolve of a stored, disputed deposit moves its amount
/// from the held back to the available funds, changing nothing else; a resolve of a
/// transaction that is not stored, or not disputed, changes nothing.
pub proof fn lemma_resolve_releases_or_is_ignored(
    accounts: Map<ClientId, AccountView>,
    tx: Transaction,
)
    requires
        tx.kind is Resolve,
    ensures
        ({
            let before = prior_account(accounts, tx.client);
            let after = apply_transaction(accounts, tx)[tx.client];
            let id = tx.transaction;
            let applies = !before.locked && before.past_transactions.contains_key(id)
                && before.past_transactions[id].disputed;
            &&& applies ==> after == AccountView {
                available: before.available + before.past_transactions[id].amount@,
                held: before.held - before.past_transactions[id].amount@,
                ..before
            }
            &&& !applies ==> after == before
        }),
{
    lemma_transaction_starts_from_prior_account(accounts, tx.client);
}

/// On an unlocked account, a chargeback of a stored, disputed deposit takes its amount
/// from the held and total funds and locks the account, changing nothing else; a
/// chargeback of a transaction that is not stored, or not disputed, changes nothing,
/// and in particular does not lock the account.
pub proof fn lemma_chargeback_reverses_or_is_ignored(
    accounts: Map<ClientId, AccountView>,
    tx: Transaction,
)
    requires
        tx.kind is Chargeback,
    ensures
        ({
            let before = prior_account(accounts, tx.client);
            let after = apply_transaction(accounts, tx)[tx.client];
            let id = tx.transaction;
            let applies = !before.locked && before.past_transactions.contains_key(id)
                && before.past_transactions[id].disputed;
            &&& applies ==> after == AccountView {
                held: before.held - before.past_transactions[id].amount@,
                total: before.total - before.past_transactions[id].amount@,
                locked: true,
                ..before
            }
            &&& !applies ==> after == before
        }),
{
    lemma_transaction_starts_from_prior_account(accounts, tx.client);
}

} // verus!

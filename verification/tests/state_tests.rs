use payments_engine::{
    AppState, ClientAccount, DepositTransactionState, Fixed4, Transaction, TransactionType,
};

/// The fixed-point value of a decimal number, rounded to four decimal digits.
fn fx(value: f64) -> Fixed4 {
    Fixed4::from_units((value * 10_000.0).round() as i64)
}

#[test]
pub fn test_deposit_and_withdrawal_transactions() {
    let client = 0;
    let mut app_state = AppState::new();

    app_state.process_transaction(Transaction {
        kind: TransactionType::Deposit,
        client,
        transaction: 0,
        amount: fx(10.0),
    });

    app_state.process_transaction(Transaction {
        kind: TransactionType::Deposit,
        client,
        transaction: 1,
        amount: fx(20.0),
    });

    // Ignored
    app_state.process_transaction(Transaction {
        kind: TransactionType::Withdrawal,
        client,
        transaction: 2,
        amount: fx(50.0),
    });

    app_state.process_transaction(Transaction {
        kind: TransactionType::Withdrawal,
        client,
        transaction: 2,
        amount: fx(15.0),
    });

    app_state.process_transaction(Transaction {
        kind: TransactionType::Withdrawal,
        client,
        transaction: 2,
        amount: fx(5.0),
    });

    let account = app_state.client_accounts.get(&client).unwrap();

    assert_eq!(account.available, fx(10.0));
    assert_eq!(account.held, fx(0.0));
    assert_eq!(account.total, fx(10.0));
}

#[test]
pub fn test_dispute_transactions() {
    let client = 0;
    let mut app_state = AppState::new();
    let account = app_state
        .client_accounts
        .entry(client)
        .or_insert_with(|| ClientAccount::new(client));

    account.available = fx(15.0);
    account.total = fx(15.0);
    account.past_transactions.insert(
        0,
        DepositTransactionState {
            amount: fx(20.0),
            disputed: false,
        },
    );
    account.past_transactions.insert(
        1,
        DepositTransactionState {
            amount: fx(30.0),
            disputed: true,
        },
    );

    // Dispute transaction 0.
    app_state.process_transaction(Transaction {
        kind: TransactionType::Dispute,
        client,
        transaction: 0,
        amount: fx(0.0),
    });

    let account = app_state.client_accounts.get(&client).unwrap();

    assert_eq!(account.available, fx(-5.0));
    assert_eq!(account.held, fx(20.0));
    assert_eq!(account.total, fx(15.0));
    assert_eq!(
        account.past_transactions.get(&0).unwrap(),
        &DepositTransactionState {
            amount: fx(20.0),
            disputed: true,
        }
    );
    assert_eq!(
        account.past_transactions.get(&1).unwrap(),
        &DepositTransactionState {
            amount: fx(30.0),
            disputed: true,
        }
    );

    let account_clone = account.clone();

    // Skip disputing transaction 1.
    app_state.process_transaction(Transaction {
        kind: TransactionType::Dispute,
        client,
        transaction: 1,
        amount: fx(0.0),
    });

    assert_eq!(
        app_state.client_accounts.get(&client).unwrap(),
        &account_clone
    );
}

#[test]
pub fn test_resolve_transactions() {
    let client = 0;
    let mut app_state = AppState::new();
    let account = app_state
        .client_accounts
        .entry(client)
        .or_insert_with(|| ClientAccount::new(client));

    account.available = fx(-5.0);
    account.held = fx(20.0);
    account.total = fx(15.0);
    account.past_transactions.insert(
        0,
        DepositTransactionState {
            amount: fx(15.0),
            disputed: true,
        },
    );
    account.past_transactions.insert(
        1,
        DepositTransactionState {
            amount: fx(30.0),
            disputed: false,
        },
    );

    // Resolve transaction 0.
    app_state.process_transaction(Transaction {
        kind: TransactionType::Resolve,
        client,
        transaction: 0,
        amount: fx(0.0),
    });

    let account = app_state.client_accounts.get(&client).unwrap();

    assert_eq!(account.available, fx(10.0));
    assert_eq!(account.held, fx(5.0));
    assert_eq!(account.total, fx(15.0));
    assert_eq!(
        account.past_transactions.get(&0).unwrap(),
        &DepositTransactionState {
            amount: fx(15.0),
            disputed: true,
        }
    );
    assert_eq!(
        account.past_transactions.get(&1).unwrap(),
        &DepositTransactionState {
            amount: fx(30.0),
            disputed: false,
        }
    );

    let account_clone = account.clone();

    // Skip resolving transaction 1.
    app_state.process_transaction(Transaction {
        kind: TransactionType::Resolve,
        client,
        transaction: 1,
        amount: fx(0.0),
    });

    assert_eq!(
        app_state.client_accounts.get(&client).unwrap(),
        &account_clone
    );
}

#[test]
pub fn test_chargeback_transactions() {
    let client = 0;
    let mut app_state = AppState::new();
    let account = app_state
        .client_accounts
        .entry(client)
        .or_insert_with(|| ClientAccount::new(client));

    account.available = fx(-5.0);
    account.held = fx(20.0);
    account.total = fx(15.0);
    account.past_transactions.insert(
        0,
        DepositTransactionState {
            amount: fx(20.0),
            disputed: true,
        },
    );
    account.past_transactions.insert(
        1,
        DepositTransactionState {
            amount: fx(30.0),
            disputed: false,
        },
    );

    // Charge back transaction 0.
    app_state.process_transaction(Transaction {
        kind: TransactionType::Chargeback,
        client,
        transaction: 0,
        amount: fx(0.0),
    });

    let account = app_state.client_accounts.get(&client).unwrap();

    assert_eq!(account.available, fx(-5.0));
    assert_eq!(account.held, fx(0.0));
    assert_eq!(account.total, fx(-5.0));
    assert_eq!(
        account.past_transactions.get(&0).unwrap(),
        &DepositTransactionState {
            amount: fx(20.0),
            disputed: true,
        }
    );
    assert_eq!(
        account.past_transactions.get(&1).unwrap(),
        &DepositTransactionState {
            amount: fx(30.0),
            disputed: false,
        }
    );

    let account_clone = account.clone();

    // Skip transaction 1.
    app_state.process_transaction(Transaction {
        kind: TransactionType::Chargeback,
        client,
        transaction: 1,
        amount: fx(0.0),
    });

    assert_eq!(
        app_state.client_accounts.get(&client).unwrap(),
        &account_clone
    );
}

#[test]
pub fn test_locked_accounts_accept_deposits() {
    let client = 0;
    let mut app_state = AppState::new();
    let account = app_state
        .client_accounts
        .entry(client)
        .or_insert_with(|| ClientAccount::new(client));

    account.locked = true;

    // Process deposit transaction.
    app_state.process_transaction(Transaction {
        kind: TransactionType::Deposit,
        client,
        transaction: 0,
        amount: fx(50.5),
    });

    let account = app_state.client_accounts.get(&client).unwrap();

    assert_eq!(account.available, fx(50.5));
    assert_eq!(account.held, fx(0.0));
    assert_eq!(account.total, fx(50.5));
}

#[test]
pub fn test_locked_accounts_block_transactions() {
    let client = 0;
    let mut app_state = AppState::new();
    let account = app_state
        .client_accounts
        .entry(client)
        .or_insert_with(|| ClientAccount::new(client));

    account.available = fx(200.0);
    account.total = fx(200.0);
    account.locked = true;
    account.past_transactions.insert(
        8,
        DepositTransactionState {
            amount: fx(10.0),
            disputed: false,
        },
    );
    account.past_transactions.insert(
        9,
        DepositTransactionState {
            amount: fx(10.0),
            disputed: true,
        },
    );

    let account_clone = account.clone();

    // Process withdrawal transaction.
    app_state.process_transaction(Transaction {
        kind: TransactionType::Withdrawal,
        client,
        transaction: 10,
        amount: fx(10.0),
    });

    assert_eq!(
        app_state.client_accounts.get(&client).unwrap(),
        &account_clone
    );

    // Process dispute transaction.
    app_state.process_transaction(Transaction {
        kind: TransactionType::Dispute,
        client,
        transaction: 8,
        amount: fx(0.0),
    });

    assert_eq!(
        app_state.client_accounts.get(&client).unwrap(),
        &account_clone
    );

    // Process resolve transaction.
    app_state.process_transaction(Transaction {
        kind: TransactionType::Resolve,
        client,
        transaction: 9,
        amount: fx(0.0),
    });

    assert_eq!(
        app_state.client_accounts.get(&client).unwrap(),
        &account_clone
    );

    // Process chargeback transaction.
    app_state.process_transaction(Transaction {
        kind: TransactionType::Chargeback,
        client,
        transaction: 9,
        amount: fx(0.0),
    });

    assert_eq!(
        app_state.client_accounts.get(&client).unwrap(),
        &account_clone
    );
}

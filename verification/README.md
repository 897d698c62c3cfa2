# payments_engine

A payments engine that processes deposits, withdrawals, disputes, resolutions and
chargebacks against client accounts, with amounts in fixed-point arithmetic with four
decimal digits. The library is verified with Verus.

- `src/models/fixed_point.rs`: `Fixed4`, its arithmetic, specified over its number of units.
- `src/models/account.rs`: `ClientAccount`, its model `AccountView`, past deposits.
- `src/models/transaction.rs`: `Transaction` and `TransactionType`.
- `src/state.rs`: `AppState`; `process_transaction` is specified by `apply_transaction`,
  and `can_process` tells whether a transaction keeps every amount in range.
- `src/laws.rs`: properties of processing proved for every state and transaction.
- `app/`: the command-line program: CSV input and output, and the conversions between
  amounts and floating-point numbers.

Usage: `payments_engine transactions.csv > accounts.csv`.

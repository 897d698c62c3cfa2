//! A payments engine: client accounts that process deposits, withdrawals,
//! disputes, resolutions and chargebacks, with amounts held in fixed-point
//! arithmetic with four decimal digits.
pub mod models;
pub mod laws;
pub mod state;


pub use models::account::{AccountView, ClientAccount, DepositTransactionState};
pub use models::fixed_point::{Fixed4, UNITS_PER_WHOLE};
pub use models::transaction::{Transaction, TransactionType};
pub use models::{ClientId, TransactionId};
pub use state::AppState;

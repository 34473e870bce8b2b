//! The ledger: amounts, transactions and accounts.
pub mod accounts;
pub mod amount;
pub mod ledger;
pub mod transactions;

//! The settlement core of a small payments engine.
//!
//! A ledger keeps, for every client, the available, held and total balance
//! and a frozen flag, and applies deposits, withdrawals and the dispute
//! protocol (dispute, then resolve or chargeback) to them one transaction at
//! a time.
pub mod parser;

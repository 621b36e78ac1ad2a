//! Per-client ledger: deposits, withdrawals and the dispute protocol that
//! moves funds between available and held balances.
use vstd::prelude::*;

pub mod account;
pub mod amount;
pub mod balance;
pub mod directory;
pub mod error;
pub mod laws;
pub mod serializable_form;
pub mod text;
pub mod transaction;

verus! {

/// Identifies a client; stable for a run.
pub type ClientId = u16;

/// Identifies a deposit or withdrawal within one client's history.
pub type TransactionId = u32;

/// The kind of a transaction record.
#[derive(Clone, Copy, Debug, PartialEq, Eq, Structural)]
pub enum TransactionType {
    Deposit,
    Withdrawal,
    Dispute,
    Resolve,
    Chargeback,
}

} // verus!

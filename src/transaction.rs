//! The records that an account processes.
use vstd::prelude::*;

use crate::amount::Amount;
use crate::{TransactionId, TransactionType};

verus! {

/// One input record as an account sees it: its kind, the transaction id it
/// creates or refers to, and an amount, which deposits and withdrawals need
/// and the other kinds ignore.
#[derive(Clone, Copy, Debug, PartialEq, Eq)]
pub struct ClientAccountTransaction {
    pub transaction_type: TransactionType,
    pub transaction_id: TransactionId,
    pub amount: Option<Amount>,
}

/// A deposit or withdrawal as the account keeps it: a deposit with a positive
/// amount, a withdrawal with a negative one.
#[derive(Clone, Copy, Debug, PartialEq, Eq)]
pub struct DisputableTransaction {
    pub transaction_id: TransactionId,
    pub amount: Amount,
    pub is_under_dispute: bool,
}

impl DisputableTransaction {
    pub open spec fn deposit(transaction_id: TransactionId, amount: Amount) -> DisputableTransaction {
        DisputableTransaction { transaction_id, amount, is_under_dispute: false }
    }

    pub open spec fn withdrawal(transaction_id: TransactionId, amount: Amount) -> DisputableTransaction {
        DisputableTransaction { transaction_id, amount: amount.negated(), is_under_dispute: false }
    }

    pub fn new_deposit_transaction(transaction_id: TransactionId, amount: Amount) -> (r: Self)
        ensures
            r == DisputableTransaction::deposit(transaction_id, amount),
    {
        DisputableTransaction { transaction_id, amount, is_under_dispute: false }
    }

    pub fn new_withdrawal_transaction(transaction_id: TransactionId, amount: Amount) -> (r: Self)
        ensures
            r == DisputableTransaction::withdrawal(transaction_id, amount),
            r.amount.units() == -amount.units(),
    {
        DisputableTransaction { transaction_id, amount: amount.negate(), is_under_dispute: false }
    }
}

/// The kind of a record that refers to an earlier deposit or withdrawal.
#[derive(Clone, Copy, Debug, PartialEq, Eq, Structural)]
pub enum DisputeRelatedTransactionType {
    Dispute,
    Resolve,
    Chargeback,
}

/// A dispute, resolve or chargeback, with the id of the transaction it refers
/// to.
#[derive(Clone, Copy, Debug, PartialEq, Eq, Structural)]
pub struct DisputeRelatedTransaction {
    pub referenced_transaction_id: TransactionId,
    pub dispute_related_transaction_type: DisputeRelatedTransactionType,
}

impl DisputeRelatedTransaction {
    pub fn new_dispute_transaction(referenced_transaction_id: TransactionId) -> (r: Self)
        ensures
            r.referenced_transaction_id == referenced_transaction_id,
            r.dispute_related_transaction_type == DisputeRelatedTransactionType::Dispute,
    {
        DisputeRelatedTransaction {
            referenced_transaction_id,
            dispute_related_transaction_type: DisputeRelatedTransactionType::Dispute,
        }
    }

    pub fn new_resolve_transaction(referenced_transaction_id: TransactionId) -> (r: Self)
        ensures
            r.referenced_transaction_id == referenced_transaction_id,
            r.dispute_related_transaction_type == DisputeRelatedTransactionType::Resolve,
    {
        DisputeRelatedTransaction {
            referenced_transaction_id,
            dispute_related_transaction_type: DisputeRelatedTransactionType::Resolve,
        }
    }

    pub fn new_chargeback_transaction(referenced_transaction_id: TransactionId) -> (r: Self)
        ensures
            r.referenced_transaction_id == referenced_transaction_id,
            r.dispute_related_transaction_type == DisputeRelatedTransactionType::Chargeback,
    {
        DisputeRelatedTransaction {
            referenced_transaction_id,
            dispute_related_transaction_type: DisputeRelatedTransactionType::Chargeback,
        }
    }
}

} // verus!

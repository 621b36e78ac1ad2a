//! Recoverable errors of processing one transaction record.
use vstd::prelude::*;
use vstd::string::*;

use crate::text::{decimal_digits, decimal_string};
use crate::TransactionId;

verus! {

/// Why a transaction record was rejected; each names the transaction id
/// involved. A rejected record leaves the account unchanged.
#[derive(Clone, Copy, Debug, PartialEq, Eq, Structural)]
pub enum TransactionProcessingError {
    ReferencedTransactionNotFound(TransactionId),
    TransactionAlreadyHasPendingDispute(TransactionId),
    TransactionDoesNotHavePendingDispute(TransactionId),
    TransactionIdAlreadyExists(TransactionId),
    AmountNotPresentForDeposit(TransactionId),
    AmountNotPresentForWithdrawal(TransactionId),
    /// The record would take a balance, or the total, out of the range of an
    /// amount.
    BalanceOutOfRange(TransactionId),
}

impl TransactionProcessingError {
    /// The transaction id that the error names.
    pub open spec fn spec_transaction_id(&self) -> TransactionId {
        match *self {
            TransactionProcessingError::ReferencedTransactionNotFound(id) => id,
            TransactionProcessingError::TransactionAlreadyHasPendingDispute(id) => id,
            TransactionProcessingError::TransactionDoesNotHavePendingDispute(id) => id,
            TransactionProcessingError::TransactionIdAlreadyExists(id) => id,
            TransactionProcessingError::AmountNotPresentForDeposit(id) => id,
            TransactionProcessingError::AmountNotPresentForWithdrawal(id) => id,
            TransactionProcessingError::BalanceOutOfRange(id) => id,
        }
    }

    /// The name of the error's kind.
    pub open spec fn kind_name(&self) -> Seq<char> {
        match *self {
            TransactionProcessingError::ReferencedTransactionNotFound(_) => "ReferencedTransactionNotFound"@,
            TransactionProcessingError::TransactionAlreadyHasPendingDispute(_) => "TransactionAlreadyHasPendingDispute"@,
            TransactionProcessingError::TransactionDoesNotHavePendingDispute(_) => "TransactionDoesNotHavePendingDispute"@,
            TransactionProcessingError::TransactionIdAlreadyExists(_) => "TransactionIdAlreadyExists"@,
            TransactionProcessingError::AmountNotPresentForDeposit(_) => "AmountNotPresentForDeposit"@,
            TransactionProcessingError::AmountNotPresentForWithdrawal(_) => "AmountNotPresentForWithdrawal"@,
            TransactionProcessingError::BalanceOutOfRange(_) => "BalanceOutOfRange"@,
        }
    }

    #[verifier::when_used_as_spec(spec_transaction_id)]
    pub fn transaction_id(&self) -> (r: TransactionId)
        ensures
            r == self.spec_transaction_id(),
    {
        match self {
            TransactionProcessingError::ReferencedTransactionNotFound(id) => *id,
            TransactionProcessingError::TransactionAlreadyHasPendingDispute(id) => *id,
            TransactionProcessingError::TransactionDoesNotHavePendingDispute(id) => *id,
            TransactionProcessingError::TransactionIdAlreadyExists(id) => *id,
            TransactionProcessingError::AmountNotPresentForDeposit(id) => *id,
            TransactionProcessingError::AmountNotPresentForWithdrawal(id) => *id,
            TransactionProcessingError::BalanceOutOfRange(id) => *id,
        }
    }

    pub fn kind(&self) -> (r: &'static str)
        ensures
            r@ == self.kind_name(),
    {
        match self {
            TransactionProcessingError::ReferencedTransactionNotFound(_) => "ReferencedTransactionNotFound",
            TransactionProcessingError::TransactionAlreadyHasPendingDispute(_) => "TransactionAlreadyHasPendingDispute",
            TransactionProcessingError::TransactionDoesNotHavePendingDispute(_) => "TransactionDoesNotHavePendingDispute",
            TransactionProcessingError::TransactionIdAlreadyExists(_) => "TransactionIdAlreadyExists",
            TransactionProcessingError::AmountNotPresentForDeposit(_) => "AmountNotPresentForDeposit",
            TransactionProcessingError::AmountNotPresentForWithdrawal(_) => "AmountNotPresentForWithdrawal",
            TransactionProcessingError::BalanceOutOfRange(_) => "BalanceOutOfRange",
        }
    }

    /// The error as text: its kind, a colon and the transaction id, as in
    /// `ReferencedTransactionNotFound: 7`.
    pub fn message(&self) -> (r: String)
        ensures
            r@ == self.kind_name() + ": "@ + decimal_digits(self.transaction_id() as nat),
    {
        let id_text = decimal_string(self.transaction_id());
        let r = String::from_str(self.kind()).concat(": ").concat(id_text.as_str());
        r
    }
}

} // verus!

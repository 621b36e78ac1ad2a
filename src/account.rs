//! A client's account: the state machine over deposits, withdrawals and
//! disputes.
use std::collections::HashMap;

use vstd::prelude::*;

use crate::amount::Amount;
use crate::balance::{balances_fit, AccountBalance};
use crate::error::TransactionProcessingError;
use crate::transaction::{ClientAccountTransaction, DisputableTransaction, DisputeRelatedTransaction};
use crate::{ClientId, TransactionId, TransactionType};

verus! {

broadcast use vstd::std_specs::hash::group_hash_axioms;

/// The state of an account: its balances in units of 10^-12, its lock flag
/// and its deposits and withdrawals by id.
pub struct AccountModel {
    pub client_id: ClientId,
    pub available: int,
    pub held: int,
    pub locked: bool,
    pub transactions: Map<TransactionId, DisputableTransaction>,
}

impl AccountModel {
    /// A new account: zero balances, unlocked, no transactions.
    pub open spec fn fresh(client_id: ClientId) -> AccountModel {
        AccountModel { client_id, available: 0, held: 0, locked: false, transactions: Map::empty() }
    }

    pub open spec fn total(self) -> int {
        self.available + self.held
    }

    /// Records a deposit or withdrawal: its signed amount is added to the
    /// available funds.
    pub open spec fn record(self, d: DisputableTransaction) -> Result<AccountModel, TransactionProcessingError> {
        let id = d.transaction_id;
        let available = self.available + d.amount.units();
        if self.transactions.contains_key(id) {
            Err(TransactionProcessingError::TransactionIdAlreadyExists(id))
        } else if !balances_fit(available, self.held) {
            Err(TransactionProcessingError::BalanceOutOfRange(id))
        } else {
            Ok(AccountModel { available, transactions: self.transactions.insert(id, d), ..self })
        }
    }

    /// Disputes a transaction: its signed amount moves from available to held
    /// funds.
    pub open spec fn dispute(self, id: TransactionId) -> Result<AccountModel, TransactionProcessingError> {
        if !self.transactions.contains_key(id) {
            Err(TransactionProcessingError::ReferencedTransactionNotFound(id))
        } else {
            let d = self.transactions[id];
            let available = self.available - d.amount.units();
            let held = self.held + d.amount.units();
            if d.is_under_dispute {
                Err(TransactionProcessingError::TransactionAlreadyHasPendingDispute(id))
            } else if !balances_fit(available, held) {
                Err(TransactionProcessingError::BalanceOutOfRange(id))
            } else {
                Ok(
                    AccountModel {
                        available,
                        held,
                        transactions: self.transactions.insert(
                            id,
                            DisputableTransaction { is_under_dispute: true, ..d },
                        ),
                        ..self
                    },
                )
            }
        }
    }

    /// Resolves a dispute: the signed amount moves back from held to
    /// available funds.
    pub open spec fn resolve(self, id: TransactionId) -> Result<AccountModel, TransactionProcessingError> {
        if !self.transactions.contains_key(id) {
            Err(TransactionProcessingError::ReferencedTransactionNotFound(id))
        } else {
            let d = self.transactions[id];
            let available = self.available + d.amount.units();
            let held = self.held - d.amount.units();
            if !d.is_under_dispute {
                Err(TransactionProcessingError::TransactionDoesNotHavePendingDispute(id))
            } else if !balances_fit(available, held) {
                Err(TransactionProcessingError::BalanceOutOfRange(id))
            } else {
                Ok(
                    AccountModel {
                        available,
                        held,
                        transactions: self.transactions.insert(
                            id,
                            DisputableTransaction { is_under_dispute: false, ..d },
                        ),
                        ..self
                    },
                )
            }
        }
    }

    /// Charges a dispute back: the signed amount leaves the held funds and the
    /// account is locked for good.
    pub open spec fn chargeback(self, id: TransactionId) -> Result<AccountModel, TransactionProcessingError> {
        if !self.transactions.contains_key(id) {
            Err(TransactionProcessingError::ReferencedTransactionNotFound(id))
        } else {
            let d = self.transactions[id];
            let held = self.held - d.amount.units();
            if !d.is_under_dispute {
                Err(TransactionProcessingError::TransactionDoesNotHavePendingDispute(id))
            } else if !balances_fit(self.available, held) {
                Err(TransactionProcessingError::BalanceOutOfRange(id))
            } else {
                Ok(
                    AccountModel {
                        held,
                        locked: true,
                        transactions: self.transactions.insert(
                            id,
                            DisputableTransaction { is_under_dispute: false, ..d },
                        ),
                        ..self
                    },
                )
            }
        }
    }

    /// Applies one record, by its kind: the new state, or the error that
    /// rejects it.
    pub open spec fn apply(self, t: ClientAccountTransaction) -> Result<AccountModel, TransactionProcessingError> {
        let id = t.transaction_id;
        match t.transaction_type {
            TransactionType::Deposit => match t.amount {
                Some(a) => self.record(DisputableTransaction::deposit(id, a)),
                None => Err(TransactionProcessingError::AmountNotPresentForDeposit(id)),
            },
            TransactionType::Withdrawal => match t.amount {
                Some(a) => self.record(DisputableTransaction::withdrawal(id, a)),
                None => Err(TransactionProcessingError::AmountNotPresentForWithdrawal(id)),
            },
            TransactionType::Dispute => self.dispute(id),
            TransactionType::Resolve => self.resolve(id),
            TransactionType::Chargeback => self.chargeback(id),
        }
    }

    /// The state after one record: unchanged where the record is rejected.
    pub open spec fn after(self, t: ClientAccountTransaction) -> AccountModel {
        match self.apply(t) {
            Ok(m) => m,
            Err(_) => self,
        }
    }

    /// The state after a sequence of records, applied in order.
    pub open spec fn after_all(self, ts: Seq<ClientAccountTransaction>) -> AccountModel
        decreases ts.len(),
    {
        if ts.len() == 0 {
            self
        } else {
            self.after(ts[0]).after_all(ts.drop_first())
        }
    }
}

/// Receives each record that an account rejects, with the reason.
pub trait DiagnosticsSink {
    fn report(&mut self, transaction: &ClientAccountTransaction, error: TransactionProcessingError);
}

/// A sink that drops every report.
pub struct DiscardDiagnostics;

impl DiagnosticsSink for DiscardDiagnostics {
    fn report(&mut self, _transaction: &ClientAccountTransaction, _error: TransactionProcessingError) {
    }
}

/// A client's account.
#[derive(Debug)]
pub struct ClientAccount {
    client_id: ClientId,
    disputable_transactions: HashMap<TransactionId, DisputableTransaction>,
    balance: AccountBalance,
    locked: bool,
}

impl View for ClientAccount {
    type V = AccountModel;

    closed spec fn view(&self) -> AccountModel {
        AccountModel {
            client_id: self.client_id,
            available: self.balance.available_units(),
            held: self.balance.held_units(),
            locked: self.locked,
            transactions: self.disputable_transactions@,
        }
    }
}

impl ClientAccount {
    pub fn new(client_id: ClientId) -> (r: Self)
        ensures
            r@ == AccountModel::fresh(client_id),
    {
        let r = ClientAccount {
            client_id,
            disputable_transactions: HashMap::new(),
            balance: AccountBalance::new(),
            locked: false,
        };
        assert(r@.transactions =~= Map::empty());
        r
    }

    pub fn client_id(&self) -> (r: ClientId)
        ensures
            r == self@.client_id,
    {
        self.client_id
    }

    pub fn balance(&self) -> (r: &AccountBalance)
        ensures
            r.available_units() == self@.available,
            r.held_units() == self@.held,
    {
        &self.balance
    }

    pub fn locked(&self) -> (r: bool)
        ensures
            r == self@.locked,
    {
        self.locked
    }

    /// How many deposits and withdrawals the account holds.
    pub fn transaction_count(&self) -> (r: usize)
        ensures
            r == self@.transactions.len(),
    {
        self.disputable_transactions.len()
    }

    /// The deposit or withdrawal with the given id, if the account holds it.
    pub fn disputable_transaction(&self, id: TransactionId) -> (r: Option<DisputableTransaction>)
        ensures
            match r {
                Some(d) => self@.transactions.contains_key(id) && self@.transactions[id] == d,
                None => !self@.transactions.contains_key(id),
            },
    {
        match self.disputable_transactions.get(&id) {
            Some(d) => Some(*d),
            None => None,
        }
    }

    /// Records a deposit or withdrawal.
    pub fn process_disputable_transaction(&mut self, disputable_transaction: DisputableTransaction) -> (r: Result<(), TransactionProcessingError>)
        ensures
            match old(self)@.record(disputable_transaction) {
                Ok(m) => r is Ok && final(self)@ == m,
                Err(e) => r == Err::<(), _>(e) && final(self)@ == old(self)@,
            },
    {
        let id = disputable_transaction.transaction_id;
        if self.disputable_transactions.contains_key(&id) {
            return Err(TransactionProcessingError::TransactionIdAlreadyExists(id));
        }
        self.balance.in_range();
        let balance = match self.balance.available().checked_add(disputable_transaction.amount) {
            Some(available) => AccountBalance::from_amounts(available, self.balance.held()),
            None => None,
        };
        match balance {
            Some(balance) => {
                self.balance = balance;
                self.disputable_transactions.insert(id, disputable_transaction);
                Ok(())
            },
            None => Err(TransactionProcessingError::BalanceOutOfRange(id)),
        }
    }

    /// The recorded transaction that a dispute-related record refers to.
    fn referenced(&self, id: TransactionId) -> (r: Result<DisputableTransaction, TransactionProcessingError>)
        ensures
            match r {
                Ok(d) => self@.transactions.contains_key(id) && self@.transactions[id] == d,
                Err(e) => !self@.transactions.contains_key(id)
                    && e == TransactionProcessingError::ReferencedTransactionNotFound(id),
            },
    {
        match self.disputable_transactions.get(&id) {
            Some(d) => Ok(*d),
            None => Err(TransactionProcessingError::ReferencedTransactionNotFound(id)),
        }
    }

    /// Replaces the balance and the dispute flag of a recorded transaction.
    fn commit(
        &mut self,
        balance: AccountBalance,
        id: TransactionId,
        d: DisputableTransaction,
        is_under_dispute: bool,
    )
        ensures
            final(self)@ == (AccountModel {
                available: balance.available_units(),
                held: balance.held_units(),
                transactions: old(self)@.transactions.insert(
                    id,
                    DisputableTransaction { is_under_dispute, ..d },
                ),
                ..old(self)@
            }),
    {
        self.balance = balance;
        self.disputable_transactions.insert(
            id,
            DisputableTransaction {
                transaction_id: d.transaction_id,
                amount: d.amount,
                is_under_dispute,
            },
        );
    }

    /// Disputes a recorded transaction: its signed amount moves from
    /// available to held funds.
    pub fn process_dispute(&mut self, transaction: DisputeRelatedTransaction) -> (r: Result<(), TransactionProcessingError>)
        ensures
            match old(self)@.dispute(transaction.referenced_transaction_id) {
                Ok(m) => r is Ok && final(self)@ == m,
                Err(e) => r == Err::<(), _>(e) && final(self)@ == old(self)@,
            },
    {
        let id = transaction.referenced_transaction_id;
        let d = match self.referenced(id) {
            Ok(d) => d,
            Err(e) => return Err(e),
        };
        if d.is_under_dispute {
            return Err(TransactionProcessingError::TransactionAlreadyHasPendingDispute(id));
        }
        self.balance.in_range();
        let balance = match (
            self.balance.available().checked_sub(d.amount),
            self.balance.held().checked_add(d.amount),
        ) {
            (Some(available), Some(held)) => AccountBalance::from_amounts(available, held),
            _ => None,
        };
        match balance {
            Some(balance) => {
                self.commit(balance, id, d, true);
                Ok(())
            },
            None => Err(TransactionProcessingError::BalanceOutOfRange(id)),
        }
    }

    /// Resolves a dispute: the signed amount moves back from held to
    /// available funds.
    pub fn process_resolve(&mut self, transaction: DisputeRelatedTransaction) -> (r: Result<(), TransactionProcessingError>)
        ensures
            match old(self)@.resolve(transaction.referenced_transaction_id) {
                Ok(m) => r is Ok && final(self)@ == m,
                Err(e) => r == Err::<(), _>(e) && final(self)@ == old(self)@,
            },
    {
        let id = transaction.referenced_transaction_id;
        let d = match self.referenced(id) {
            Ok(d) => d,
            Err(e) => return Err(e),
        };
        if !d.is_under_dispute {
            return Err(TransactionProcessingError::TransactionDoesNotHavePendingDispute(id));
        }
        self.balance.in_range();
        let balance = match (
            self.balance.available().checked_add(d.amount),
            self.balance.held().checked_sub(d.amount),
        ) {
            (Some(available), Some(held)) => AccountBalance::from_amounts(available, held),
            _ => None,
        };
        match balance {
            Some(balance) => {
                self.commit(balance, id, d, false);
                Ok(())
            },
            None => Err(TransactionProcessingError::BalanceOutOfRange(id)),
        }
    }

    /// Charges a dispute back: the signed amount leaves the held funds, and
    /// the account is locked for good.
    pub fn process_chargeback(&mut self, transaction: DisputeRelatedTransaction) -> (r: Result<(), TransactionProcessingError>)
        ensures
            match old(self)@.chargeback(transaction.referenced_transaction_id) {
                Ok(m) => r is Ok && final(self)@ == m,
                Err(e) => r == Err::<(), _>(e) && final(self)@ == old(self)@,
            },
    {
        let id = transaction.referenced_transaction_id;
        let d = match self.referenced(id) {
            Ok(d) => d,
            Err(e) => return Err(e),
        };
        if !d.is_under_dispute {
            return Err(TransactionProcessingError::TransactionDoesNotHavePendingDispute(id));
        }
        self.balance.in_range();
        let balance = match self.balance.held().checked_sub(d.amount) {
            Some(held) => AccountBalance::from_amounts(self.balance.available(), held),
            None => None,
        };
        match balance {
            Some(balance) => {
                self.commit(balance, id, d, false);
                self.locked = true;
                Ok(())
            },
            None => Err(TransactionProcessingError::BalanceOutOfRange(id)),
        }
    }

    /// Applies one record by its kind, and returns the error that rejects it,
    /// if any; a rejected record leaves the account unchanged.
    pub fn process_transaction(&mut self, transaction: ClientAccountTransaction) -> (r: Result<(), TransactionProcessingError>)
        ensures
            match old(self)@.apply(transaction) {
                Ok(m) => r is Ok && final(self)@ == m,
                Err(e) => r == Err::<(), _>(e) && final(self)@ == old(self)@,
            },
            old(self)@.locked ==> final(self)@.locked,
    {
        let id = transaction.transaction_id;
        let r = match transaction.transaction_type {
            TransactionType::Deposit => match transaction.amount {
                Some(amount) => self.process_disputable_transaction(
                    DisputableTransaction::new_deposit_transaction(id, amount),
                ),
                None => Err(TransactionProcessingError::AmountNotPresentForDeposit(id)),
            },
            TransactionType::Withdrawal => match transaction.amount {
                Some(amount) => self.process_disputable_transaction(
                    DisputableTransaction::new_withdrawal_transaction(id, amount),
                ),
                None => Err(TransactionProcessingError::AmountNotPresentForWithdrawal(id)),
            },
            TransactionType::Dispute => self.process_dispute(
                DisputeRelatedTransaction::new_dispute_transaction(id),
            ),
            TransactionType::Resolve => self.process_resolve(
                DisputeRelatedTransaction::new_resolve_transaction(id),
            ),
            TransactionType::Chargeback => self.process_chargeback(
                DisputeRelatedTransaction::new_chargeback_transaction(id),
            ),
        };
        r
    }

    /// Applies one record by its kind; a rejected record leaves the account
    /// unchanged and goes, with the reason, to the diagnostics sink. Never
    /// fails.
    pub fn process_client_transaction<S: DiagnosticsSink>(
        &mut self,
        transaction: ClientAccountTransaction,
        debug_logger: &mut S,
    ) -> (r: Result<(), TransactionProcessingError>)
        ensures
            r is Ok,
            final(self)@ == old(self)@.after(transaction),
    {
        match self.process_transaction(transaction) {
            Ok(()) => {},
            Err(error) => debug_logger.report(&transaction, error),
        }
        Ok(())
    }
}

} // verus!

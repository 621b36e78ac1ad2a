//! The input record and the output row, as plain values.
use vstd::prelude::*;

use crate::account::{AccountModel, ClientAccount};
use crate::amount::{amount_text, Amount};
use crate::transaction::ClientAccountTransaction;
use crate::{ClientId, TransactionId, TransactionType};

verus! {

/// One input record: its kind, client, transaction id and optional amount.
#[derive(Clone, Copy, Debug, PartialEq, Eq)]
pub struct Transaction {
    pub transaction_type: TransactionType,
    pub client_id: ClientId,
    pub transaction_id: TransactionId,
    pub amount: Option<Amount>,
}

impl Transaction {
    /// The record as the client's account sees it.
    pub open spec fn account_record(self) -> ClientAccountTransaction {
        ClientAccountTransaction {
            transaction_type: self.transaction_type,
            transaction_id: self.transaction_id,
            amount: self.amount,
        }
    }
}

impl From<Transaction> for ClientAccountTransaction {
    fn from(transaction: Transaction) -> ClientAccountTransaction {
        ClientAccountTransaction {
            transaction_type: transaction.transaction_type,
            transaction_id: transaction.transaction_id,
            amount: transaction.amount,
        }
    }
}

impl vstd::std_specs::convert::FromSpecImpl<Transaction> for ClientAccountTransaction {
    open spec fn obeys_from_spec() -> bool {
        true
    }

    open spec fn from_spec(v: Transaction) -> ClientAccountTransaction {
        v.account_record()
    }
}

/// One output row: a client's balances as text with four fractional digits,
/// and its lock flag.
#[derive(Clone, Debug, PartialEq, Eq)]
pub struct Output {
    pub client: ClientId,
    pub available: String,
    pub held: String,
    pub total: String,
    pub locked: bool,
}

impl Output {
    /// Whether the row shows the given account state.
    pub open spec fn shows(self, m: AccountModel) -> bool {
        &&& self.client == m.client_id
        &&& self.available@ == amount_text(m.available)
        &&& self.held@ == amount_text(m.held)
        &&& self.total@ == amount_text(m.total())
        &&& self.locked == m.locked
    }

    pub fn from_client_account(client_account: &ClientAccount) -> (r: Output)
        ensures
            r.shows(client_account@),
    {
        let balance = client_account.balance();
        Output {
            client: client_account.client_id(),
            available: balance.available().to_four_place_string(),
            held: balance.held().to_four_place_string(),
            total: balance.total().to_four_place_string(),
            locked: client_account.locked(),
        }
    }
}

} // verus!

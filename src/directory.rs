//! All clients' accounts, created as records for them arrive.
use std::collections::HashMap;

use vstd::prelude::*;

use crate::account::{AccountModel, ClientAccount, DiagnosticsSink};
use crate::error::TransactionProcessingError;
use crate::serializable_form::{Output, Transaction};
use crate::transaction::ClientAccountTransaction;
use crate::ClientId;

verus! {

broadcast use vstd::std_specs::hash::group_hash_axioms;

/// The accounts by client id, and the clients in the order in which they
/// first appeared.
pub struct AccountDirectory {
    accounts: HashMap<ClientId, ClientAccount>,
    clients: Vec<ClientId>,
}

impl AccountDirectory {
    pub closed spec fn accounts(&self) -> Map<ClientId, ClientAccount> {
        self.accounts@
    }

    pub closed spec fn clients(&self) -> Seq<ClientId> {
        self.clients@
    }

    /// Each client appears once in the order, exactly the clients with an
    /// account appear, and each account belongs to its key's client.
    pub open spec fn wf(&self) -> bool {
        &&& self.clients().no_duplicates()
        &&& forall|c: ClientId| #[trigger]
            self.accounts().contains_key(c) <==> self.clients().contains(c)
        &&& forall|c: ClientId| #[trigger]
            self.accounts().contains_key(c) ==> self.accounts()[c]@.client_id == c
    }

    /// The state of a client's account: a fresh one for a client not seen
    /// yet.
    pub open spec fn account_model(&self, client_id: ClientId) -> AccountModel {
        if self.accounts().contains_key(client_id) {
            self.accounts()[client_id]@
        } else {
            AccountModel::fresh(client_id)
        }
    }

    pub fn new() -> (r: AccountDirectory)
        ensures
            r.wf(),
            r.accounts() == Map::<ClientId, ClientAccount>::empty(),
            r.clients() == Seq::<ClientId>::empty(),
    {
        let r = AccountDirectory { accounts: HashMap::new(), clients: Vec::new() };
        assert(r.accounts() =~= Map::empty());
        assert(r.clients() =~= Seq::empty());
        r
    }

    /// How many clients have an account.
    pub fn len(&self) -> (r: usize)
        requires
            self.wf(),
        ensures
            r == self.clients().len(),
    {
        self.clients.len()
    }

    /// The account of a client, if the client has one.
    pub fn get(&self, client_id: ClientId) -> (r: Option<&ClientAccount>)
        ensures
            match r {
                Some(a) => self.accounts().contains_key(client_id) && *a == self.accounts()[client_id],
                None => !self.accounts().contains_key(client_id),
            },
    {
        self.accounts.get(&client_id)
    }

    /// The clients in the order in which they first appeared.
    pub fn clients_in_order(&self) -> (r: &Vec<ClientId>)
        ensures
            r@ == self.clients(),
    {
        &self.clients
    }
}

/// Feeds a record to its client's account, creating the account (zero
/// balances, unlocked, no transactions) on the client's first record. A
/// rejected record goes to the diagnostics sink; other accounts are not
/// touched. Never fails.
pub fn process_transaction<S: DiagnosticsSink>(
    accounts: &mut AccountDirectory,
    transaction: &Transaction,
    debug_logger: &mut S,
) -> (r: Result<(), TransactionProcessingError>)
    requires
        old(accounts).wf(),
    ensures
        r is Ok,
        final(accounts).wf(),
        final(accounts).accounts().dom() == old(accounts).accounts().dom().insert(
            transaction.client_id,
        ),
        final(accounts).accounts()[transaction.client_id]@ == old(accounts).account_model(
            transaction.client_id,
        ).after(transaction.account_record()),
        forall|c: ClientId|
            c != transaction.client_id && #[trigger] old(accounts).accounts().contains_key(c)
                ==> final(accounts).accounts()[c] == old(accounts).accounts()[c],
        final(accounts).clients() == if old(accounts).accounts().contains_key(
            transaction.client_id,
        ) {
            old(accounts).clients()
        } else {
            old(accounts).clients().push(transaction.client_id)
        },
{
    let client_id = transaction.client_id;
    let mut account = match accounts.accounts.remove(&client_id) {
        Some(account) => account,
        None => {
            accounts.clients.push(client_id);
            ClientAccount::new(client_id)
        },
    };
    let _ = account.process_client_transaction(
        ClientAccountTransaction::from(*transaction),
        debug_logger,
    );
    accounts.accounts.insert(client_id, account);
    proof {
        let old_clients = old(accounts).clients();
        let new_clients = accounts.clients();
        if !old(accounts).accounts().contains_key(client_id) {
            assert(!old_clients.contains(client_id));
            assert forall|i: int, j: int|
                0 <= i < new_clients.len() && 0 <= j < new_clients.len() && i != j implies
                new_clients[i] != new_clients[j] by {
                if i == old_clients.len() as int {
                    assert(old_clients[j] == new_clients[j]);
                } else if j == old_clients.len() as int {
                    assert(old_clients[i] == new_clients[i]);
                } else {
                    assert(old_clients[i] == new_clients[i]);
                    assert(old_clients[j] == new_clients[j]);
                }
            }
            assert forall|c: ClientId| #[trigger]
                accounts.accounts().contains_key(c) <==> new_clients.contains(c) by {
                if new_clients.contains(c) && c != client_id {
                    let i = choose|i: int| 0 <= i < new_clients.len() && new_clients[i] == c;
                    assert(old_clients[i] == c);
                }
                if old_clients.contains(c) {
                    let i = choose|i: int| 0 <= i < old_clients.len() && old_clients[i] == c;
                    assert(new_clients[i] == c);
                }
                if c == client_id {
                    assert(new_clients[old_clients.len() as int] == c);
                }
            }
        }
        assert(accounts.accounts().dom() =~= old(accounts).accounts().dom().insert(client_id));
    }
    Ok(())
}

/// One output row per account, in the order in which the clients first
/// appeared.
pub fn create_serializable_output_from_accounts(accounts: &AccountDirectory) -> (r: Vec<Output>)
    requires
        accounts.wf(),
    ensures
        r@.len() == accounts.clients().len(),
        forall|i: int|
            0 <= i < r@.len() ==> #[trigger] r@[i].shows(
                accounts.accounts()[accounts.clients()[i]]@,
            ),
{
    let mut output: Vec<Output> = Vec::new();
    let mut i: usize = 0;
    while i < accounts.clients.len()
        invariant
            accounts.wf(),
            i <= accounts.clients().len(),
            output@.len() == i,
            forall|j: int|
                0 <= j < i ==> #[trigger] output@[j].shows(
                    accounts.accounts()[accounts.clients()[j]]@,
                ),
        decreases accounts.clients().len() - i,
    {
        let client_id = accounts.clients[i];
        assert(accounts.clients()[i as int] == client_id);
        assert(accounts.clients().contains(client_id));
        assert(accounts.accounts().contains_key(client_id));
        match accounts.accounts.get(&client_id) {
            Some(account) => {
                output.push(Output::from_client_account(account));
            },
            None => {
                assert(false);
            },
        }
        i = i + 1;
    }
    output
}

} // verus!

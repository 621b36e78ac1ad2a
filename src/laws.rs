//! Properties of the account state machine over any records.
use vstd::prelude::*;

use crate::account::AccountModel;
use crate::error::TransactionProcessingError;
use crate::transaction::ClientAccountTransaction;
use crate::{TransactionId, TransactionType};

verus! {

/// A record never unlocks an account.
pub proof fn lemma_lock_kept(m: AccountModel, t: ClientAccountTransaction)
    ensures
        m.locked ==> m.after(t).locked,
{
}

/// Once locked, an account stays locked for the rest of a run, whatever the
/// records that follow.
pub proof fn lemma_lock_is_permanent(m: AccountModel, ts: Seq<ClientAccountTransaction>)
    ensures
        m.locked ==> m.after_all(ts).locked,
    decreases ts.len(),
{
    if ts.len() > 0 {
        lemma_lock_kept(m, ts[0]);
        lemma_lock_is_permanent(m.after(ts[0]), ts.drop_first());
    }
}

/// A record keeps every recorded transaction, with its id and amount. It
/// changes the dispute flag of one only where it is a dispute of that
/// transaction while it is not under dispute, which sets the flag, or a
/// resolve or chargeback of it while it is, which clears the flag.
pub proof fn lemma_dispute_flag_transitions(
    m: AccountModel,
    t: ClientAccountTransaction,
    id: TransactionId,
)
    requires
        m.transactions.contains_key(id),
    ensures
        m.after(t).transactions.contains_key(id),
        m.after(t).transactions[id].transaction_id == m.transactions[id].transaction_id,
        m.after(t).transactions[id].amount == m.transactions[id].amount,
        m.after(t).transactions[id].is_under_dispute != m.transactions[id].is_under_dispute
            ==> t.transaction_id == id && ({
            ||| t.transaction_type == TransactionType::Dispute && !m.transactions[id].is_under_dispute
                && m.after(t).transactions[id].is_under_dispute
            ||| (t.transaction_type == TransactionType::Resolve || t.transaction_type
                == TransactionType::Chargeback) && m.transactions[id].is_under_dispute
                && !m.after(t).transactions[id].is_under_dispute
        }),
{
}

/// The transitions that the dispute protocol does not allow are rejected,
/// and a rejected record leaves the account as it was.
pub proof fn lemma_disallowed_transitions_rejected(m: AccountModel, t: ClientAccountTransaction)
    requires
        m.transactions.contains_key(t.transaction_id),
    ensures
        t.transaction_type == TransactionType::Dispute
            && m.transactions[t.transaction_id].is_under_dispute ==> m.apply(t) == Err::<
            AccountModel,
            _,
        >(TransactionProcessingError::TransactionAlreadyHasPendingDispute(t.transaction_id)),
        (t.transaction_type == TransactionType::Resolve || t.transaction_type
            == TransactionType::Chargeback) && !m.transactions[t.transaction_id].is_under_dispute
            ==> m.apply(t) == Err::<AccountModel, _>(
            TransactionProcessingError::TransactionDoesNotHavePendingDispute(t.transaction_id),
        ),
        m.apply(t) is Err ==> m.after(t) == m,
{
}

/// Disputing the same transaction twice in a row: the second dispute is
/// rejected as already pending, and leaves the balances as the first left
/// them.
pub proof fn lemma_second_dispute_rejected(m: AccountModel, t: ClientAccountTransaction)
    requires
        t.transaction_type == TransactionType::Dispute,
        m.apply(t) is Ok,
    ensures
        m.after(t).apply(t) == Err::<AccountModel, _>(
            TransactionProcessingError::TransactionAlreadyHasPendingDispute(t.transaction_id),
        ),
        m.after(t).after(t) == m.after(t),
{
}

} // verus!

//! What follows from the account rules, proved over the mathematical
//! transition that the executable code implements.

use vstd::prelude::*;
use crate::client::{AccountState, ClientErr};
use crate::engine::{account_of, routed, routed_outcome};
use crate::types::{Amount, TransactionType};

verus! {

/// An untouched account is valid.
pub proof fn lemma_empty_is_valid()
    ensures
        AccountState::empty().valid(),
{
}

/// No operation, accepted or refused, breaks `total == available + held`.
pub proof fn lemma_step_keeps_balance(s: AccountState, tx: TransactionType)
    requires
        s.balanced(),
    ensures
        s.next(tx).balanced(),
{
}

/// No operation, accepted or refused, breaks the account invariant: the
/// account stays balanced, the recorded operations stay deposits and
/// withdrawals under their own ids, and open disputes keep naming recorded
/// deposits.
pub proof fn lemma_step_keeps_valid(s: AccountState, tx: TransactionType)
    requires
        s.valid(),
    ensures
        s.next(tx).valid(),
{
    let t = s.next(tx);
    assert forall|id: u32| #[trigger] t.processed.contains_key(id) implies t.processed[id].is_recorded()
        && t.processed[id].spec_transaction_id() == id by {
        if !s.processed.contains_key(id) {
            assert(id == tx.spec_transaction_id());
        }
    }
    assert forall|id: u32| #[trigger] t.disputed.contains(id) implies t.processed.contains_key(id)
        && t.processed[id] is Deposit by {
        if !s.disputed.contains(id) {
            assert(id == tx.spec_transaction_id());
        }
    }
}

/// A refused operation leaves the account exactly as it was.
pub proof fn lemma_refusal_changes_nothing(s: AccountState, tx: TransactionType)
    requires
        s.outcome(tx) is Err,
    ensures
        s.next(tx) == s,
{
}

/// Offering the same operation a second time changes nothing more than
/// offering it once.
pub proof fn lemma_repeat_changes_nothing(s: AccountState, tx: TransactionType)
    ensures
        s.next(tx).next(tx) == s.next(tx),
{
}

/// Once a deposit or withdrawal was accepted, any deposit or withdrawal under
/// the same transaction id is refused as already processed and leaves the
/// account as the first one left it.
pub proof fn lemma_recorded_id_is_refused(
    s: AccountState,
    tx: TransactionType,
    again: TransactionType,
)
    requires
        tx.is_recorded(),
        again.is_recorded(),
        again.spec_transaction_id() == tx.spec_transaction_id(),
        s.outcome(tx) is Ok,
    ensures
        s.next(tx).outcome(again) == Err::<(), ClientErr>(ClientErr::AlreadyProcessed),
        s.next(tx).next(again) == s.next(tx),
{
}

/// Disputing a recorded deposit that is not under dispute moves exactly its
/// amount from `available` to `held`, leaves `total` alone and opens the
/// dispute.
pub proof fn lemma_dispute_conserves(
    s: AccountState,
    client: u16,
    id: u32,
    depositor: u16,
    amount: Amount,
)
    requires
        !s.locked,
        s.processed.contains_key(id),
        s.processed[id] == (TransactionType::Deposit { client: depositor, tx: id, amount }),
        !s.disputed.contains(id),
    ensures
        s.outcome(TransactionType::Dispute { client, tx: id }) is Ok,
        s.next(TransactionType::Dispute { client, tx: id }) == (AccountState {
            available: s.available - amount@,
            held: s.held + amount@,
            disputed: s.disputed.insert(id),
            ..s
        }),
        s.next(TransactionType::Dispute { client, tx: id }).total == s.total,
{
}

/// Disputing a recorded withdrawal is accepted and changes nothing: the
/// withdrawal does not enter the disputed set.
pub proof fn lemma_dispute_of_withdrawal_is_idle(s: AccountState, client: u16, id: u32)
    requires
        !s.locked,
        s.processed.contains_key(id),
        s.processed[id] is Withdrawal,
        !s.disputed.contains(id),
    ensures
        s.outcome(TransactionType::Dispute { client, tx: id }) is Ok,
        s.next(TransactionType::Dispute { client, tx: id }) == s,
{
}

/// Resolving a disputed deposit moves its amount back from `held` to
/// `available`, leaves `total` alone and closes the dispute.
pub proof fn lemma_resolve_restores(
    s: AccountState,
    client: u16,
    id: u32,
    depositor: u16,
    amount: Amount,
)
    requires
        !s.locked,
        s.processed.contains_key(id),
        s.processed[id] == (TransactionType::Deposit { client: depositor, tx: id, amount }),
        s.disputed.contains(id),
    ensures
        s.outcome(TransactionType::Resolve { client, tx: id }) is Ok,
        s.next(TransactionType::Resolve { client, tx: id }) == (AccountState {
            available: s.available + amount@,
            held: s.held - amount@,
            disputed: s.disputed.remove(id),
            ..s
        }),
        s.next(TransactionType::Resolve { client, tx: id }).total == s.total,
        !s.next(TransactionType::Resolve { client, tx: id }).disputed.contains(id),
{
}

/// A dispute followed by its resolution leaves the balances, the lock and the
/// history as they were before the dispute.
pub proof fn lemma_resolve_undoes_dispute(s: AccountState, client: u16, id: u32)
    requires
        s.outcome(TransactionType::Dispute { client, tx: id }) is Ok,
        s.processed[id] is Deposit,
    ensures
        ({
            let t = s.next(TransactionType::Dispute { client, tx: id }).next(
                TransactionType::Resolve { client, tx: id },
            );
            &&& t.available == s.available
            &&& t.held == s.held
            &&& t.total == s.total
            &&& t.locked == s.locked
            &&& t.processed == s.processed
            &&& t.disputed =~= s.disputed
        }),
{
}

/// Charging back a disputed deposit takes its amount out of `held` and out of
/// `total`, closes the dispute and locks the account.
pub proof fn lemma_chargeback_removes_and_locks(
    s: AccountState,
    client: u16,
    id: u32,
    depositor: u16,
    amount: Amount,
)
    requires
        !s.locked,
        s.processed.contains_key(id),
        s.processed[id] == (TransactionType::Deposit { client: depositor, tx: id, amount }),
        s.disputed.contains(id),
    ensures
        s.outcome(TransactionType::Chargeback { client, tx: id }) is Ok,
        s.next(TransactionType::Chargeback { client, tx: id }) == (AccountState {
            held: s.held - amount@,
            total: s.total - amount@,
            locked: true,
            disputed: s.disputed.remove(id),
            ..s
        }),
{
}

/// A locked account refuses every operation as locked and never changes
/// again.
pub proof fn lemma_locked_is_final(s: AccountState, tx: TransactionType)
    requires
        s.locked,
    ensures
        s.outcome(tx) == Err::<(), ClientErr>(ClientErr::AccountLocked),
        s.next(tx) == s,
{
}

/// After the chargeback of a disputed deposit every further operation is
/// refused as locked and changes no field.
pub proof fn lemma_chargeback_is_final(
    s: AccountState,
    client: u16,
    id: u32,
    later: TransactionType,
)
    requires
        s.valid(),
        s.outcome(TransactionType::Chargeback { client, tx: id }) is Ok,
    ensures
        ({
            let t = s.next(TransactionType::Chargeback { client, tx: id });
            &&& t.locked
            &&& t.outcome(later) == Err::<(), ClientErr>(ClientErr::AccountLocked)
            &&& t.next(later) == t
        }),
{
}

/// A new withdrawal of more than is available is refused for want of funds
/// and changes nothing.
pub proof fn lemma_overdraft_is_refused(s: AccountState, client: u16, id: u32, amount: Amount)
    requires
        !s.locked,
        !s.processed.contains_key(id),
        amount@ > s.available,
    ensures
        s.outcome(TransactionType::Withdrawal { client, tx: id, amount }) == Err::<(), ClientErr>(
            ClientErr::InsufficientFunds,
        ),
        s.next(TransactionType::Withdrawal { client, tx: id, amount }) == s,
{
}

/// Routing an operation changes the account of its own client only: every
/// other client has an account afterwards exactly if it had one before, and
/// that account is untouched.
pub proof fn lemma_routing_is_isolated(
    accounts: Map<u16, AccountState>,
    tx: TransactionType,
    other: u16,
)
    requires
        other != tx.spec_client_id(),
    ensures
        routed(accounts, tx).contains_key(other) == accounts.contains_key(other),
        account_of(routed(accounts, tx), other) == account_of(accounts, other),
        accounts.contains_key(other) ==> routed(accounts, tx)[other] == accounts[other],
{
}

/// Routing keeps every account valid, and so balanced.
pub proof fn lemma_routing_keeps_valid(accounts: Map<u16, AccountState>, tx: TransactionType)
    requires
        forall|c: u16| #[trigger] accounts.contains_key(c) ==> accounts[c].valid(),
    ensures
        forall|c: u16| #[trigger]
            routed(accounts, tx).contains_key(c) ==> routed(accounts, tx)[c].valid(),
{
    lemma_empty_is_valid();
    lemma_step_keeps_valid(account_of(accounts, tx.spec_client_id()), tx);
}

/// A refused operation leaves every account that existed as it was; at most
/// an untouched account for its client is added.
pub proof fn lemma_refused_routing(accounts: Map<u16, AccountState>, tx: TransactionType)
    requires
        routed_outcome(accounts, tx) is Err,
    ensures
        forall|c: u16| #[trigger]
            accounts.contains_key(c) ==> routed(accounts, tx)[c] == accounts[c],
        account_of(routed(accounts, tx), tx.spec_client_id()) == account_of(
            accounts,
            tx.spec_client_id(),
        ),
{
}

} // verus!

//! The router: one account per client, created when the client is first
//! named, and each operation handed to the account of its client.

use vstd::prelude::*;
use std::collections::HashMap;
use vstd::std_specs::hash::spec_hash_map_iter;
use vstd::std_specs::iter::IteratorSpec;
use crate::client::{AccountState, ClientAccount, ClientErr};
use crate::types::{Amount, TransactionType};

verus! {

broadcast use vstd::std_specs::hash::group_hash_axioms;

/// The state of `client`'s account among `accounts`: that of an untouched
/// account where the client was never named.
pub open spec fn account_of(accounts: Map<u16, AccountState>, client: u16) -> AccountState {
    if accounts.contains_key(client) {
        accounts[client]
    } else {
        AccountState::empty()
    }
}

/// The accounts after `tx` was routed: the account of its client has taken
/// the step, every other account is as it was.
pub open spec fn routed(accounts: Map<u16, AccountState>, tx: TransactionType) -> Map<
    u16,
    AccountState,
> {
    accounts.insert(tx.client_id(), account_of(accounts, tx.client_id()).next(tx))
}

/// What the account of `tx`'s client answers to `tx`.
pub open spec fn routed_outcome(accounts: Map<u16, AccountState>, tx: TransactionType) -> Result<
    (),
    ClientErr,
> {
    account_of(accounts, tx.client_id()).outcome(tx)
}

/// One line of the final snapshot: a client and its balances.
#[derive(Clone, Copy, Debug, PartialEq, Eq, Structural)]
pub struct AccountRow {
    pub client: u16,
    pub available: Amount,
    pub held: Amount,
    pub total: Amount,
    pub locked: bool,
}

impl AccountRow {
    /// Whether the row shows the balances and the lock of `state`.
    pub open spec fn shows(&self, state: AccountState) -> bool {
        &&& self.available@ == state.available
        &&& self.held@ == state.held
        &&& self.total@ == state.total
        &&& self.locked == state.locked
    }
}

/// All accounts, by client.
pub struct PaymentEngine {
    accounts: HashMap<u16, ClientAccount>,
}

impl View for PaymentEngine {
    type V = Map<u16, AccountState>;

    closed spec fn view(&self) -> Map<u16, AccountState> {
        Map::new(|c: u16| self.accounts@.contains_key(c), |c: u16| self.accounts@[c]@)
    }
}

impl PaymentEngine {
    /// Every account is valid and filed under its own client.
    pub closed spec fn wf(&self) -> bool {
        forall|c: u16| #[trigger]
            self.accounts@.contains_key(c) ==> self.accounts@[c].wf()
                && self.accounts@[c].spec_client() == c
    }

    /// Constructs a new [`PaymentEngine`].
    pub fn new() -> (r: PaymentEngine)
        ensures
            r.wf(),
            r@ == Map::<u16, AccountState>::empty(),
    {
        let r = PaymentEngine { accounts: HashMap::new() };
        assert(r@ =~= Map::<u16, AccountState>::empty());
        r
    }

    /// A valid engine holds valid accounts only.
    pub proof fn lemma_accounts_valid(&self)
        requires
            self.wf(),
        ensures
            forall|c: u16| #[trigger] self@.contains_key(c) ==> self@[c].valid(),
    {
    }

    /// The account of `client`, where the client was named before.
    pub fn account(&self, client: u16) -> (r: Option<&ClientAccount>)
        ensures
            r is Some <==> self@.contains_key(client),
            r matches Some(a) ==> a@ == self@[client],
            r matches Some(a) ==> (self.wf() ==> a.wf() && a.spec_client() == client),
    {
        self.accounts.get(&client)
    }

    /// Whether `tx` can be routed without a balance leaving the range of the
    /// integers that hold it.
    pub fn fits(&self, tx: &TransactionType) -> (r: bool)
        ensures
            r == account_of(self@, tx.client_id()).next(*tx).in_range(),
    {
        match self.accounts.get(&tx.client_id()) {
            Some(account) => account.fits(tx),
            None => ClientAccount::new(tx.client_id()).fits(tx),
        }
    }

    /// Serialize the current state of the accounts: one row for each client
    /// that was ever named, in no particular order.
    pub fn serialize(&self) -> (rows: Vec<AccountRow>)
        ensures
            rows@.len() == self@.dom().len(),
            forall|i: int|
                0 <= i < rows@.len() ==> self@.contains_key(#[trigger] rows@[i].client)
                    && rows@[i].shows(self@[rows@[i].client]),
            forall|c: u16| #[trigger]
                self@.contains_key(c) ==> exists|i: int|
                    0 <= i < rows@.len() && #[trigger] rows@[i].client == c,
            forall|i: int, j: int|
                0 <= i < j < rows@.len() ==> #[trigger] rows@[i].client != #[trigger] rows@[j].client,
    {
        let mut rows: Vec<AccountRow> = Vec::new();
        let ghost all = spec_hash_map_iter(&self.accounts).remaining();
        for entry in it: self.accounts.iter()
            invariant
                it.seq() == all,
                all.no_duplicates(),
                rows@.len() == it.index(),
                forall|i: int|
                    0 <= i < rows@.len() ==> #[trigger] rows@[i].client == *all[i].0
                        && rows@[i].shows((*all[i].1)@),
        {
            let (client, account) = entry;
            rows.push(
                AccountRow {
                    client: *client,
                    available: account.available(),
                    held: account.held(),
                    total: account.total(),
                    locked: account.is_locked(),
                },
            );
        }
        proof {
            assert(self@.dom() =~= self.accounts@.dom());
            assert forall|c: u16| #[trigger] self@.contains_key(c) implies exists|i: int|
                0 <= i < rows@.len() && #[trigger] rows@[i].client == c by {
                assert(self.accounts@.contains_key(c));
                let pair = (&c, &self.accounts@[c]);
                assert(all.contains(pair));
                let i = choose|i: int| 0 <= i < all.len() && all[i] == pair;
                assert(rows@[i].client == c);
            }
            assert forall|i: int, j: int| 0 <= i < j < rows@.len() implies #[trigger] rows@[i].client
                != #[trigger] rows@[j].client by {
                if rows@[i].client == rows@[j].client {
                    assert(self.accounts@.contains_key(*all[i].0));
                    assert(self.accounts@.contains_key(*all[j].0));
                    assert(self.accounts@[*all[i].0] == *all[i].1);
                    assert(self.accounts@[*all[j].0] == *all[j].1);
                    assert(all[i] == all[j]);
                }
            }
        }
        rows
    }

    /// Process the given transaction where every new balance fits the
    /// integers that hold it, and say so; else leave every account untouched
    /// and return `None`. On every input the accounts stay valid, and no
    /// account but that of the transaction's client changes.
    pub fn checked_process_transaction(&mut self, tx: TransactionType) -> (r: Option<
        Result<(), ClientErr>,
    >)
        requires
            old(self).wf(),
        ensures
            final(self).wf(),
            r is Some <==> account_of(old(self)@, tx.client_id()).next(tx).in_range(),
            r matches Some(answer) ==> answer == routed_outcome(old(self)@, tx) && final(self)@
                == routed(old(self)@, tx),
            r is None ==> final(self)@ == old(self)@,
            forall|c: u16|
                c != tx.client_id() ==> (final(self)@.contains_key(c) <==> #[trigger] old(
                    self,
                )@.contains_key(c)),
            forall|c: u16|
                c != tx.client_id() && old(self)@.contains_key(c) ==> #[trigger] final(self)@[c]
                    == old(self)@[c],
    {
        if self.fits(&tx) {
            Some(self.process_transaction(tx))
        } else {
            None
        }
    }

    /// Process the given transaction: the account of its client, made first
    /// where the client is new, takes the step; no other account changes.
    /// The account's answer is handed back for reporting and has no further
    /// effect.
    pub fn process_transaction(&mut self, tx: TransactionType) -> (r: Result<(), ClientErr>)
        requires
            old(self).wf(),
            account_of(old(self)@, tx.client_id()).next(tx).in_range(),
        ensures
            final(self).wf(),
            final(self)@ == routed(old(self)@, tx),
            r == routed_outcome(old(self)@, tx),
            forall|c: u16|
                c != tx.client_id() ==> (final(self)@.contains_key(c) <==> #[trigger] old(
                    self,
                )@.contains_key(c)),
            forall|c: u16|
                c != tx.client_id() && old(self)@.contains_key(c) ==> #[trigger] final(self)@[c]
                    == old(self)@[c],
    {
        let client_id = tx.client_id();
        let account = self.accounts.entry(client_id).or_insert(ClientAccount::new(client_id));
        let r = account.process_transaction(tx);
        assert(final(self)@ =~= routed(old(self)@, tx));
        r
    }
}

} // verus!

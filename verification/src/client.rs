//! One client's account and the rules by which operations change it.

use vstd::prelude::*;
use std::collections::{HashMap, HashSet};
use crate::types::{Amount, TransactionType};

verus! {

broadcast use vstd::std_specs::hash::group_hash_axioms;

/// Why an account refuses an operation.
#[derive(Clone, Copy, Debug, PartialEq, Eq, Structural)]
pub enum ClientErr {
    /// The account was locked by a chargeback.
    AccountLocked,
    /// A withdrawal asks for more than is available.
    InsufficientFunds,
    /// The referenced transaction is unknown, or not under dispute.
    DisputedTransactionNotFound,
    /// The transaction id was already recorded, or is already under dispute.
    AlreadyProcessed,
}

/// The mathematical content of an account. Balances are counts of
/// ten-thousandths.
pub struct AccountState {
    /// Funds that may be withdrawn.
    pub available: int,
    /// Funds frozen by open disputes.
    pub held: int,
    /// All funds of the account.
    pub total: int,
    /// Set by a chargeback, never cleared.
    pub locked: bool,
    /// The deposits and withdrawals accepted so far, by transaction id.
    pub processed: Map<u32, TransactionType>,
    /// The transaction ids with an open dispute.
    pub disputed: Set<u32>,
}

impl AccountState {
    /// The state of an account nothing has happened to.
    pub open spec fn empty() -> AccountState {
        AccountState {
            available: 0,
            held: 0,
            total: 0,
            locked: false,
            processed: Map::empty(),
            disputed: Set::empty(),
        }
    }

    /// `total` is the sum of `available` and `held`.
    pub open spec fn balanced(self) -> bool {
        self.total == self.available + self.held
    }

    /// What holds of every account: it is balanced, each recorded operation
    /// is a deposit or withdrawal stored under its own id, and each open
    /// dispute names a recorded deposit.
    pub open spec fn valid(self) -> bool {
        &&& self.balanced()
        &&& forall|id: u32| #[trigger]
            self.processed.contains_key(id) ==> self.processed[id].is_recorded()
                && self.processed[id].spec_transaction_id() == id
        &&& forall|id: u32| #[trigger]
            self.disputed.contains(id) ==> self.processed.contains_key(id)
                && self.processed[id] is Deposit
    }

    /// Every balance fits the machine integer that holds it.
    pub open spec fn in_range(self) -> bool {
        &&& i128::MIN <= self.available <= i128::MAX
        &&& i128::MIN <= self.held <= i128::MAX
        &&& i128::MIN <= self.total <= i128::MAX
    }

    /// The amount by which a dispute on `id` moves funds: that of the
    /// recorded deposit, and nothing for a recorded withdrawal.
    pub open spec fn disputable(self, id: u32) -> int {
        match self.processed[id] {
            TransactionType::Deposit { amount, .. } => amount@,
            _ => 0,
        }
    }

    /// What an unlocked account answers to a dispute on `id`: the
    /// transaction must be recorded and not under dispute already.
    pub open spec fn dispute_outcome(self, id: u32) -> Result<(), ClientErr> {
        if !self.processed.contains_key(id) {
            Err(ClientErr::DisputedTransactionNotFound)
        } else if self.disputed.contains(id) {
            Err(ClientErr::AlreadyProcessed)
        } else {
            Ok(())
        }
    }

    /// What an unlocked account answers to a resolve or a chargeback on
    /// `id`: the transaction must be recorded and under dispute.
    pub open spec fn settle_outcome(self, id: u32) -> Result<(), ClientErr> {
        if !self.processed.contains_key(id) || !self.disputed.contains(id) {
            Err(ClientErr::DisputedTransactionNotFound)
        } else {
            Ok(())
        }
    }

    /// The state after an accepted dispute on `id`: a deposit's amount moves
    /// from `available` to `held` and the dispute is open; a withdrawal
    /// changes nothing.
    pub open spec fn after_dispute(self, id: u32) -> AccountState {
        if self.processed[id] is Deposit {
            AccountState {
                available: self.available - self.disputable(id),
                held: self.held + self.disputable(id),
                disputed: self.disputed.insert(id),
                ..self
            }
        } else {
            self
        }
    }

    /// The state after an accepted resolve on `id`: the amount moves back
    /// from `held` to `available` and the dispute is closed.
    pub open spec fn after_resolve(self, id: u32) -> AccountState {
        AccountState {
            available: self.available + self.disputable(id),
            held: self.held - self.disputable(id),
            disputed: self.disputed.remove(id),
            ..self
        }
    }

    /// The state after an accepted chargeback on `id`: the amount leaves
    /// `held` and `total`, the dispute is closed and the account is locked.
    pub open spec fn after_chargeback(self, id: u32) -> AccountState {
        AccountState {
            held: self.held - self.disputable(id),
            total: self.total - self.disputable(id),
            locked: self.locked || self.processed[id] is Deposit,
            disputed: self.disputed.remove(id),
            ..self
        }
    }

    /// Whether the account accepts `tx`, and the error if it does not. The
    /// lock is looked at first, then the transaction id, then the funds.
    pub open spec fn outcome(self, tx: TransactionType) -> Result<(), ClientErr> {
        if self.locked {
            Err(ClientErr::AccountLocked)
        } else {
            match tx {
                TransactionType::Deposit { tx: id, .. } => {
                    if self.processed.contains_key(id) {
                        Err(ClientErr::AlreadyProcessed)
                    } else {
                        Ok(())
                    }
                },
                TransactionType::Withdrawal { tx: id, amount, .. } => {
                    if self.processed.contains_key(id) {
                        Err(ClientErr::AlreadyProcessed)
                    } else if amount@ > self.available {
                        Err(ClientErr::InsufficientFunds)
                    } else {
                        Ok(())
                    }
                },
                TransactionType::Dispute { tx: id, .. } => self.dispute_outcome(id),
                TransactionType::Resolve { tx: id, .. } => self.settle_outcome(id),
                TransactionType::Chargeback { tx: id, .. } => self.settle_outcome(id),
            }
        }
    }

    /// The state after `tx` was offered to the account: unchanged where the
    /// account refuses it.
    pub open spec fn next(self, tx: TransactionType) -> AccountState {
        if self.outcome(tx) is Err {
            self
        } else {
            match tx {
                TransactionType::Deposit { tx: id, amount, .. } => AccountState {
                    available: self.available + amount@,
                    total: self.total + amount@,
                    processed: self.processed.insert(id, tx),
                    ..self
                },
                TransactionType::Withdrawal { tx: id, amount, .. } => AccountState {
                    available: self.available - amount@,
                    total: self.total - amount@,
                    processed: self.processed.insert(id, tx),
                    ..self
                },
                TransactionType::Dispute { tx: id, .. } => self.after_dispute(id),
                TransactionType::Resolve { tx: id, .. } => self.after_resolve(id),
                TransactionType::Chargeback { tx: id, .. } => self.after_chargeback(id),
            }
        }
    }
}

/// One client's balances, and the history that disputes refer to.
#[derive(Debug)]
pub struct ClientAccount {
    client: u16,
    available: Amount,
    held: Amount,
    total: Amount,
    locked: bool,
    processed_tx: HashMap<u32, TransactionType>,
    under_dispute: HashSet<u32>,
}

impl View for ClientAccount {
    type V = AccountState;

    closed spec fn view(&self) -> AccountState {
        AccountState {
            available: self.available@,
            held: self.held@,
            total: self.total@,
            locked: self.locked,
            processed: self.processed_tx@,
            disputed: self.under_dispute@,
        }
    }
}

/// Whether `a + b` is an `i128`.
fn sum_fits(a: i128, b: i128) -> (r: bool)
    ensures
        r == (i128::MIN <= a + b <= i128::MAX),
{
    a.checked_add(b).is_some()
}

/// Whether `a - b` is an `i128`.
fn difference_fits(a: i128, b: i128) -> (r: bool)
    ensures
        r == (i128::MIN <= a - b <= i128::MAX),
{
    a.checked_sub(b).is_some()
}

impl ClientAccount {
    /// The client that owns the account.
    pub closed spec fn spec_client(&self) -> u16 {
        self.client
    }

    /// The account's invariant: see [`AccountState::valid`].
    pub open spec fn wf(&self) -> bool {
        self@.valid()
    }

    /// Constructs a new [`ClientAccount`] with the given client ID.
    pub fn new(client: u16) -> (r: ClientAccount)
        ensures
            r.wf(),
            r@ == AccountState::empty(),
            r.spec_client() == client,
    {
        ClientAccount {
            client,
            available: Amount::zero(),
            held: Amount::zero(),
            total: Amount::zero(),
            locked: false,
            processed_tx: HashMap::new(),
            under_dispute: HashSet::new(),
        }
    }

    /// The client that owns the account.
    pub fn client(&self) -> (r: u16)
        ensures
            r == self.spec_client(),
    {
        self.client
    }

    /// Funds that may be withdrawn.
    pub fn available(&self) -> (r: Amount)
        ensures
            r@ == self@.available,
    {
        self.available
    }

    /// Funds frozen by open disputes.
    pub fn held(&self) -> (r: Amount)
        ensures
            r@ == self@.held,
    {
        self.held
    }

    /// All funds of the account.
    pub fn total(&self) -> (r: Amount)
        ensures
            r@ == self@.total,
    {
        self.total
    }

    /// True if the account is locked.
    pub fn is_locked(&self) -> (r: bool)
        ensures
            r == self@.locked,
    {
        self.locked
    }

    /// Whether `tx` can be offered to the account without a balance leaving
    /// the range of the integers that hold it.
    pub fn fits(&self, tx: &TransactionType) -> (r: bool)
        ensures
            r == self@.next(*tx).in_range(),
    {
        if self.locked {
            return true;
        }
        match *tx {
            TransactionType::Deposit { tx: id, amount, .. } => {
                self.processed_tx.contains_key(&id) || (sum_fits(self.available.units, amount.units)
                    && sum_fits(self.total.units, amount.units))
            },
            TransactionType::Withdrawal { tx: id, amount, .. } => {
                self.processed_tx.contains_key(&id) || amount.units > self.available.units || (
                difference_fits(self.available.units, amount.units) && difference_fits(
                    self.total.units,
                    amount.units,
                ))
            },
            TransactionType::Dispute { tx: id, .. } => {
                match self.processed_tx.get(&id) {
                    Some(TransactionType::Deposit { amount, .. }) => {
                        self.under_dispute.contains(&id) || (difference_fits(
                            self.available.units,
                            amount.units,
                        ) && sum_fits(self.held.units, amount.units))
                    },
                    _ => true,
                }
            },
            TransactionType::Resolve { tx: id, .. } => {
                match self.processed_tx.get(&id) {
                    Some(TransactionType::Deposit { amount, .. }) => {
                        !self.under_dispute.contains(&id) || (sum_fits(
                            self.available.units,
                            amount.units,
                        ) && difference_fits(self.held.units, amount.units))
                    },
                    _ => true,
                }
            },
            TransactionType::Chargeback { tx: id, .. } => {
                match self.processed_tx.get(&id) {
                    Some(TransactionType::Deposit { amount, .. }) => {
                        !self.under_dispute.contains(&id) || (difference_fits(
                            self.held.units,
                            amount.units,
                        ) && difference_fits(self.total.units, amount.units))
                    },
                    _ => true,
                }
            },
        }
    }

    /// Process the transaction: the account moves to [`AccountState::next`]
    /// and the result is [`AccountState::outcome`]. A refused operation
    /// changes nothing.
    pub fn process_transaction(&mut self, tx: TransactionType) -> (r: Result<(), ClientErr>)
        requires
            old(self).wf(),
            old(self)@.next(tx).in_range(),
        ensures
            final(self).wf(),
            final(self)@.balanced(),
            final(self)@ == old(self)@.next(tx),
            r == old(self)@.outcome(tx),
            final(self).spec_client() == old(self).spec_client(),
    {
        if self.is_locked() {
            return Err(ClientErr::AccountLocked);
        }
        match tx {
            TransactionType::Deposit { tx: id, amount, .. } => {
                self.handle_deposit(id, amount)?;
                self.processed_tx.insert(id, tx);
            },
            TransactionType::Withdrawal { tx: id, amount, .. } => {
                self.handle_withdraw(id, amount)?;
                self.processed_tx.insert(id, tx);
            },
            TransactionType::Dispute { tx: id, .. } => self.handle_dispute(id)?,
            TransactionType::Resolve { tx: id, .. } => self.handle_resolve(id)?,
            TransactionType::Chargeback { tx: id, .. } => self.handle_chargeback(id)?,
        }
        Ok(())
    }

    /// Process the transaction where every new balance fits the integers
    /// that hold it, and say so; else leave the account untouched and return
    /// `None`. Validity, and with it `total == available + held`, is kept on
    /// every input.
    pub fn checked_process_transaction(&mut self, tx: TransactionType) -> (r: Option<
        Result<(), ClientErr>,
    >)
        requires
            old(self).wf(),
        ensures
            final(self).wf(),
            final(self)@.balanced(),
            r is Some <==> old(self)@.next(tx).in_range(),
            r matches Some(answer) ==> answer == old(self)@.outcome(tx) && final(self)@ == old(
                self,
            )@.next(tx),
            r is None ==> *final(self) == *old(self),
            final(self).spec_client() == old(self).spec_client(),
    {
        if self.fits(&tx) {
            Some(self.process_transaction(tx))
        } else {
            None
        }
    }

    /// Credits `amount`, unless `tx` was recorded before. Recording `tx` is
    /// left to the caller.
    fn handle_deposit(&mut self, tx: u32, amount: Amount) -> (r: Result<(), ClientErr>)
        requires
            !old(self)@.locked,
            !old(self)@.processed.contains_key(tx) ==> {
                &&& i128::MIN <= old(self)@.available + amount@ <= i128::MAX
                &&& i128::MIN <= old(self)@.total + amount@ <= i128::MAX
            },
        ensures
            r is Err <==> old(self)@.processed.contains_key(tx),
            r is Err ==> r == Err::<(), ClientErr>(ClientErr::AlreadyProcessed) && *final(self)
                == *old(self),
            r is Ok ==> final(self)@ == (AccountState {
                available: old(self)@.available + amount@,
                total: old(self)@.total + amount@,
                ..old(self)@
            }),
            final(self).spec_client() == old(self).spec_client(),
    {
        if self.processed_tx.contains_key(&tx) {
            return Err(ClientErr::AlreadyProcessed);
        }
        self.available = Amount { units: self.available.units + amount.units };
        self.total = Amount { units: self.total.units + amount.units };
        Ok(())
    }

    /// Debits `amount`, unless `tx` was recorded before or the funds do not
    /// suffice. Recording `tx` is left to the caller.
    fn handle_withdraw(&mut self, tx: u32, amount: Amount) -> (r: Result<(), ClientErr>)
        requires
            !old(self)@.locked,
            !old(self)@.processed.contains_key(tx) && amount@ <= old(self)@.available ==> {
                &&& i128::MIN <= old(self)@.available - amount@ <= i128::MAX
                &&& i128::MIN <= old(self)@.total - amount@ <= i128::MAX
            },
        ensures
            r == (if old(self)@.processed.contains_key(tx) {
                Err::<(), ClientErr>(ClientErr::AlreadyProcessed)
            } else if amount@ > old(self)@.available {
                Err::<(), ClientErr>(ClientErr::InsufficientFunds)
            } else {
                Ok::<(), ClientErr>(())
            }),
            r is Err ==> *final(self) == *old(self),
            r is Ok ==> final(self)@ == (AccountState {
                available: old(self)@.available - amount@,
                total: old(self)@.total - amount@,
                ..old(self)@
            }),
            final(self).spec_client() == old(self).spec_client(),
    {
        if self.processed_tx.contains_key(&tx) {
            return Err(ClientErr::AlreadyProcessed);
        }
        if self.available.units < amount.units {
            return Err(ClientErr::InsufficientFunds);
        }
        self.available = Amount { units: self.available.units - amount.units };
        self.total = Amount { units: self.total.units - amount.units };
        Ok(())
    }

    /// Freezes the funds of the recorded deposit `tx`.
    fn handle_dispute(&mut self, tx: u32) -> (r: Result<(), ClientErr>)
        requires
            old(self).wf(),
            !old(self)@.locked,
            old(self)@.dispute_outcome(tx) is Ok ==> old(self)@.after_dispute(tx).in_range(),
        ensures
            r == old(self)@.dispute_outcome(tx),
            final(self)@ == (if r is Ok {
                old(self)@.after_dispute(tx)
            } else {
                old(self)@
            }),
            final(self).spec_client() == old(self).spec_client(),
    {
        if self.under_dispute.contains(&tx) {
            assert(old(self)@.disputed.contains(tx));
            return Err(ClientErr::AlreadyProcessed);
        }
        let found = match self.processed_tx.get(&tx) {
            Some(found) => *found,
            None => {
                return Err(ClientErr::DisputedTransactionNotFound);
            },
        };
        if let TransactionType::Deposit { amount, .. } = found {
            self.available = Amount { units: self.available.units - amount.units };
            self.held = Amount { units: self.held.units + amount.units };
            self.under_dispute.insert(found.transaction_id());
            assert(final(self)@.disputed =~= old(self)@.disputed.insert(tx));
        }
        Ok(())
    }

    /// Releases the funds of the disputed deposit `tx`.
    fn handle_resolve(&mut self, tx: u32) -> (r: Result<(), ClientErr>)
        requires
            old(self).wf(),
            !old(self)@.locked,
            old(self)@.settle_outcome(tx) is Ok ==> old(self)@.after_resolve(tx).in_range(),
        ensures
            r == old(self)@.settle_outcome(tx),
            final(self)@ == (if r is Ok {
                old(self)@.after_resolve(tx)
            } else {
                old(self)@
            }),
            final(self).spec_client() == old(self).spec_client(),
    {
        let disputed_tx = match self.processed_tx.get(&tx) {
            Some(found) => *found,
            None => {
                return Err(ClientErr::DisputedTransactionNotFound);
            },
        };
        // Tx must be marked as disputed to resolve it.
        if !self.under_dispute.remove(&disputed_tx.transaction_id()) {
            assert(final(self)@.disputed =~= old(self)@.disputed);
            return Err(ClientErr::DisputedTransactionNotFound);
        }
        if let TransactionType::Deposit { amount, .. } = disputed_tx {
            self.available = Amount { units: self.available.units + amount.units };
            self.held = Amount { units: self.held.units - amount.units };
        }
        Ok(())
    }

    /// Removes the funds of the disputed deposit `tx` and locks the account.
    fn handle_chargeback(&mut self, tx: u32) -> (r: Result<(), ClientErr>)
        requires
            old(self).wf(),
            !old(self)@.locked,
            old(self)@.settle_outcome(tx) is Ok ==> old(self)@.after_chargeback(tx).in_range(),
        ensures
            r == old(self)@.settle_outcome(tx),
            final(self)@ == (if r is Ok {
                old(self)@.after_chargeback(tx)
            } else {
                old(self)@
            }),
            final(self).spec_client() == old(self).spec_client(),
    {
        let disputed_tx = match self.processed_tx.get(&tx) {
            Some(found) => *found,
            None => {
                return Err(ClientErr::DisputedTransactionNotFound);
            },
        };
        // Tx must be marked as disputed to chargeback it.
        if !self.under_dispute.remove(&disputed_tx.transaction_id()) {
            assert(final(self)@.disputed =~= old(self)@.disputed);
            return Err(ClientErr::DisputedTransactionNotFound);
        }
        if let TransactionType::Deposit { amount, .. } = disputed_tx {
            self.held = Amount { units: self.held.units - amount.units };
            self.total = Amount { units: self.total.units - amount.units };
            self.locked = true;
        }
        Ok(())
    }
}

} // verus!

//! The ledger as a mathematical state machine.
//!
//! An account is modelled by an [`AccountView`], whose balances are raw
//! values (see the `amount` module), and a ledger by a map from client
//! identifiers to such views. The functions here say what applying a
//! transaction does to them; the executable ledger is proved against them.
use crate::parser::amount::fits;
use crate::parser::transactions::{Transaction, TransactionType};
use vstd::prelude::*;

verus! {

/// The value of an account.
#[verifier::ext_equal]
pub struct AccountView {
    pub client_id: u16,
    /// Funds that the client can withdraw.
    pub available: int,
    /// Funds that are frozen while a dispute is open.
    pub held: int,
    /// All funds of the account.
    pub total: int,
    /// Whether the account is frozen.
    pub locked: bool,
    /// The deposits and withdrawals that were applied, by transaction
    /// identifier.
    pub history: Map<u32, Transaction>,
    /// The transactions that are under dispute.
    pub disputed: Set<u32>,
}

/// The value of a ledger: the account of every client that has appeared.
pub type LedgerView = Map<u16, AccountView>;

/// The amount by which a deposit or withdrawal moves funds, with its sign:
/// positive into the account, negative out of it. `None` where the
/// transaction carries no amount or the signed amount cannot be represented.
pub open spec fn signed_amount(t: Transaction) -> Option<int> {
    match t.amount {
        Some(amount) => {
            let delta = t.transaction_type.direction() * amount@;
            if fits(delta) {
                Some(delta)
            } else {
                None
            }
        },
        None => None,
    }
}

impl AccountView {
    /// The account of a client that no transaction has touched yet.
    pub open spec fn fresh(client_id: u16) -> AccountView {
        AccountView {
            client_id,
            available: 0,
            held: 0,
            total: 0,
            locked: false,
            history: Map::empty(),
            disputed: Set::empty(),
        }
    }

    /// The total is the sum of the available and the held funds.
    pub open spec fn balanced(self) -> bool {
        self.total == self.available + self.held
    }

    /// The history entry under `id` is a deposit or withdrawal of this client
    /// with that identifier, and its signed amount can be represented.
    pub open spec fn records(self, id: u32) -> bool {
        let entry = self.history[id];
        &&& entry.tx_id == id
        &&& entry.client_id == self.client_id
        &&& entry.transaction_type.carries_amount()
        &&& signed_amount(entry).is_some()
    }

    /// What holds of every account that a ledger has built: the balances can
    /// be represented and add up, the history holds what was applied, and
    /// only applied transactions are under dispute.
    pub open spec fn wf(self) -> bool {
        &&& fits(self.available)
        &&& fits(self.held)
        &&& fits(self.total)
        &&& self.balanced()
        &&& forall|id: u32| #[trigger] self.history.contains_key(id) ==> self.records(id)
        &&& forall|id: u32| #[trigger] self.disputed.contains(id) ==> self.history.contains_key(id)
    }

    /// A deposit or a withdrawal. The new total and the new available funds
    /// must be representable, and a withdrawal must leave the available funds
    /// at zero or above; the transaction is then recorded in the history.
    /// Otherwise nothing changes.
    pub open spec fn transfer(self, t: Transaction) -> AccountView {
        match signed_amount(t) {
            Some(delta) => {
                if fits(self.total + delta) && fits(self.available + delta)
                    && (t.transaction_type is Deposit || self.available + delta >= 0) {
                    AccountView {
                        total: self.total + delta,
                        available: self.available + delta,
                        history: self.history.insert(t.tx_id, t),
                        ..self
                    }
                } else {
                    self
                }
            },
            None => self,
        }
    }

    /// Opens a dispute on a recorded deposit or withdrawal: its signed amount
    /// moves from the available to the held funds, whatever their sign
    /// becomes, and the transaction is marked as disputed. Nothing changes
    /// where the transaction is not recorded or a new balance cannot be
    /// represented.
    pub open spec fn dispute(self, tx_id: u32) -> AccountView {
        if self.history.contains_key(tx_id)
            && self.history[tx_id].transaction_type.carries_amount() {
            match signed_amount(self.history[tx_id]) {
                Some(delta) => {
                    if fits(self.available - delta) && fits(self.held + delta) {
                        AccountView {
                            available: self.available - delta,
                            held: self.held + delta,
                            disputed: self.disputed.insert(tx_id),
                            ..self
                        }
                    } else {
                        self
                    }
                },
                None => self,
            }
        } else {
            self
        }
    }

    /// Whether a resolve or a chargeback can act on the transaction: it is
    /// recorded and currently disputed.
    pub open spec fn under_dispute(self, tx_id: u32) -> bool {
        self.history.contains_key(tx_id) && self.disputed.contains(tx_id)
    }

    /// Closes a dispute in the client's favour: the signed amount moves back
    /// from the held to the available funds and the transaction is no longer
    /// disputed.
    pub open spec fn resolve(self, tx_id: u32) -> AccountView {
        if self.under_dispute(tx_id) {
            match signed_amount(self.history[tx_id]) {
                Some(delta) => {
                    if fits(self.held - delta) && fits(self.available + delta) {
                        AccountView {
                            held: self.held - delta,
                            available: self.available + delta,
                            disputed: self.disputed.remove(tx_id),
                            ..self
                        }
                    } else {
                        self
                    }
                },
                None => self,
            }
        } else {
            self
        }
    }

    /// Closes a dispute against the client: the signed amount leaves the held
    /// funds and the total, the transaction is no longer disputed, and the
    /// account is frozen. The available funds stay as the dispute left them.
    pub open spec fn chargeback(self, tx_id: u32) -> AccountView {
        if self.under_dispute(tx_id) {
            match signed_amount(self.history[tx_id]) {
                Some(delta) => {
                    if fits(self.held - delta) && fits(self.total - delta) {
                        AccountView {
                            held: self.held - delta,
                            total: self.total - delta,
                            disputed: self.disputed.remove(tx_id),
                            locked: true,
                            ..self
                        }
                    } else {
                        self
                    }
                },
                None => self,
            }
        } else {
            self
        }
    }

    /// Whether a dispute on `tx_id` is refused for overflow while an older
    /// dispute on the same transaction is open and its resolve can be
    /// applied. A resolve that follows then closes the older dispute.
    pub open spec fn refuses_second_dispute(self, tx_id: u32) -> bool {
        &&& !self.locked
        &&& self.under_dispute(tx_id)
        &&& signed_amount(self.history[tx_id]) matches Some(delta)
        &&& delta != 0
        &&& !(fits(self.available - delta) && fits(self.held + delta))
        &&& fits(self.held - delta) && fits(self.available + delta)
    }

    /// The account after a dispute on `tx_id` and, at once, its resolve.
    pub open spec fn dispute_resolve(self, tx_id: u32) -> AccountView {
        self.step(dispute_of(self.client_id, tx_id)).step(resolve_of(self.client_id, tx_id))
    }

    /// The account after a transaction of its client. A frozen account never
    /// changes.
    pub open spec fn step(self, t: Transaction) -> AccountView {
        if self.locked {
            self
        } else {
            match t.transaction_type {
                TransactionType::Deposit | TransactionType::Withdrawal => self.transfer(t),
                TransactionType::Dispute => self.dispute(t.tx_id),
                TransactionType::Resolve => self.resolve(t.tx_id),
                TransactionType::Chargeback => self.chargeback(t.tx_id),
            }
        }
    }
}

/// The account of a client in a ledger: the one that the ledger holds, or a
/// fresh one.
pub open spec fn account_of(ledger: LedgerView, client_id: u16) -> AccountView {
    if ledger.contains_key(client_id) {
        ledger[client_id]
    } else {
        AccountView::fresh(client_id)
    }
}

/// The ledger after a transaction: the account of the transaction's client,
/// created if need be, takes the step; no other account changes.
pub open spec fn ledger_step(ledger: LedgerView, t: Transaction) -> LedgerView {
    ledger.insert(t.client_id, account_of(ledger, t.client_id).step(t))
}

/// The ledger after a sequence of transactions, applied in order.
pub open spec fn ledger_run(ledger: LedgerView, txs: Seq<Transaction>) -> LedgerView
    decreases txs.len(),
{
    if txs.len() == 0 {
        ledger
    } else {
        ledger_step(ledger_run(ledger, txs.drop_last()), txs.last())
    }
}

/// What holds of every ledger that was built from the empty one: each account
/// is stored under its own client and is well formed.
pub open spec fn ledger_wf(ledger: LedgerView) -> bool {
    forall|client_id: u16| #[trigger]
        ledger.contains_key(client_id) ==> ledger[client_id].client_id == client_id
            && ledger[client_id].wf()
}

/// A transaction of the `Dispute` type.
pub open spec fn dispute_of(client_id: u16, tx_id: u32) -> Transaction {
    Transaction { transaction_type: TransactionType::Dispute, client_id, tx_id, amount: None }
}

/// A transaction of the `Resolve` type.
pub open spec fn resolve_of(client_id: u16, tx_id: u32) -> Transaction {
    Transaction { transaction_type: TransactionType::Resolve, client_id, tx_id, amount: None }
}

/// A fresh account is well formed.
pub proof fn lemma_fresh_is_wf(client_id: u16)
    ensures
        AccountView::fresh(client_id).wf(),
        AccountView::fresh(client_id).client_id == client_id,
{
}

/// No transaction breaks the balance of an account: if the total was the sum
/// of the available and the held funds, it still is.
pub proof fn lemma_step_keeps_balance(account: AccountView, t: Transaction)
    requires
        account.balanced(),
    ensures
        account.step(t).balanced(),
{
}

/// A transaction of an account's own client keeps the account well formed.
pub proof fn lemma_step_keeps_wf(account: AccountView, t: Transaction)
    requires
        account.wf(),
        t.client_id == account.client_id,
    ensures
        account.step(t).wf(),
        account.step(t).client_id == account.client_id,
{
}

/// A transaction keeps a ledger well formed.
pub proof fn lemma_ledger_step_keeps_wf(ledger: LedgerView, t: Transaction)
    requires
        ledger_wf(ledger),
    ensures
        ledger_wf(ledger_step(ledger, t)),
{
    lemma_fresh_is_wf(t.client_id);
    lemma_step_keeps_wf(account_of(ledger, t.client_id), t);
}

/// Whatever transactions a well-formed ledger has seen, it is well formed.
pub proof fn lemma_ledger_run_keeps_wf(ledger: LedgerView, txs: Seq<Transaction>)
    requires
        ledger_wf(ledger),
    ensures
        ledger_wf(ledger_run(ledger, txs)),
    decreases txs.len(),
{
    if txs.len() > 0 {
        lemma_ledger_run_keeps_wf(ledger, txs.drop_last());
        lemma_ledger_step_keeps_wf(ledger_run(ledger, txs.drop_last()), txs.last());
    }
}

/// At every point in time the total of every account is the sum of its
/// available and its held funds: this holds of each account of the ledger
/// that any sequence of transactions builds from the empty ledger.
pub proof fn lemma_balance_invariant(txs: Seq<Transaction>, client_id: u16)
    requires
        ledger_run(Map::empty(), txs).contains_key(client_id),
    ensures
        ({
            let account = ledger_run(Map::empty(), txs)[client_id];
            account.total == account.available + account.held
        }),
{
    lemma_ledger_run_keeps_wf(Map::empty(), txs);
}

/// Once an account is frozen, no transaction changes it, whichever client
/// the transaction belongs to.
pub proof fn lemma_locked_account_is_frozen(ledger: LedgerView, t: Transaction, client_id: u16)
    requires
        ledger.contains_key(client_id),
        ledger[client_id].locked,
    ensures
        ledger_step(ledger, t).contains_key(client_id),
        ledger_step(ledger, t)[client_id] == ledger[client_id],
{
}

/// Once an account is frozen, no sequence of transactions changes it.
pub proof fn lemma_locked_account_stays_frozen(
    ledger: LedgerView,
    txs: Seq<Transaction>,
    client_id: u16,
)
    requires
        ledger.contains_key(client_id),
        ledger[client_id].locked,
    ensures
        ledger_run(ledger, txs).contains_key(client_id),
        ledger_run(ledger, txs)[client_id] == ledger[client_id],
    decreases txs.len(),
{
    if txs.len() > 0 {
        lemma_locked_account_stays_frozen(ledger, txs.drop_last(), client_id);
        lemma_locked_account_is_frozen(ledger_run(ledger, txs.drop_last()), txs.last(), client_id);
    }
}

/// A dispute on a transaction followed at once by its resolve, and then both
/// once more, gives back the available and the held funds as they were
/// before the first dispute. Where the transaction was not under dispute the
/// whole account comes back, after the first resolve already.
///
/// Left out are the accounts in which the first dispute is refused while an
/// older dispute on the same transaction is open (see
/// [`AccountView::refuses_second_dispute`]): there the resolve closes the
/// older dispute.
pub proof fn lemma_dispute_resolve_round_trip(account: AccountView, tx_id: u32)
    requires
        account.wf(),
        !account.refuses_second_dispute(tx_id),
    ensures
        account.dispute_resolve(tx_id).dispute_resolve(tx_id).available == account.available,
        account.dispute_resolve(tx_id).dispute_resolve(tx_id).held == account.held,
        !account.disputed.contains(tx_id) ==> account.dispute_resolve(tx_id) == account
            && account.dispute_resolve(tx_id).dispute_resolve(tx_id) == account,
{
    let once = account.dispute_resolve(tx_id);
    if account.history.contains_key(tx_id) {
        assert(account.records(tx_id));
    }
    if !account.disputed.contains(tx_id) {
        assert(once.disputed =~= account.disputed);
        assert(once =~= account);
    }
}

/// In the accounts that the round trip leaves out it does fail: the resolve
/// closes the older dispute, and the second dispute and resolve move the
/// amount there and back, so that the funds end where the older dispute had
/// taken them from.
pub proof fn lemma_round_trip_fails_after_refused_dispute(account: AccountView, tx_id: u32)
    requires
        account.wf(),
        account.refuses_second_dispute(tx_id),
    ensures
        account.dispute_resolve(tx_id).dispute_resolve(tx_id).available != account.available,
        account.dispute_resolve(tx_id).dispute_resolve(tx_id).held != account.held,
{
}

/// A withdrawal that would leave less than nothing available is rejected:
/// the account does not change.
pub proof fn lemma_overdraft_is_rejected(account: AccountView, t: Transaction)
    requires
        t.transaction_type is Withdrawal,
        t.amount.is_some(),
        account.available - t.amount.unwrap()@ < 0,
    ensures
        account.step(t) == account,
{
}

/// A deposit is rejected only for overflow or by a frozen account: where the
/// new total or the new available funds cannot be represented the account
/// does not change, and otherwise an account that is not frozen takes and
/// records the deposit, however large or small its balances become.
pub proof fn lemma_deposit_rejected_only_for_overflow(account: AccountView, t: Transaction)
    requires
        t.transaction_type is Deposit,
        t.amount.is_some(),
    ensures
        ({
            let amount = t.amount.unwrap()@;
            if fits(account.total + amount) && fits(account.available + amount) {
                !account.locked ==> account.step(t) == (AccountView {
                    total: account.total + amount,
                    available: account.available + amount,
                    history: account.history.insert(t.tx_id, t),
                    ..account
                })
            } else {
                account.step(t) == account
            }
        }),
{
}

} // verus!

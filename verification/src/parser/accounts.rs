//! Accounts and the ledger that holds them.
use crate::parser::amount::decimal_text;
use crate::parser::ledger::{
    ledger_step, ledger_wf, lemma_ledger_step_keeps_wf, signed_amount, AccountView, LedgerView,
};
use crate::parser::transactions::{FloatingPoint, Transaction, TransactionType};
use std::collections::{HashMap, HashSet};
use vstd::prelude::*;
use vstd::std_specs::hash::{axiom_spec_hash_map_iter, group_hash_axioms, spec_hash_map_iter};
use vstd::std_specs::iter::IteratorSpec;

verus! {

broadcast use group_hash_axioms;

/// `HashSet::clone` of the standard library: the copy holds the same
/// identifiers.
#[verifier::external_body]
fn clone_disputes(disputes: &HashSet<u32>) -> (copy: HashSet<u32>)
    ensures
        copy@ == disputes@,
{
    disputes.clone()
}

/// The ledger state of one client, with what is needed to handle disputes.
#[derive(Debug, Eq, PartialEq)]
pub struct Account {
    pub client_id: u16,
    pub avail_bal: FloatingPoint,
    pub held_bal: FloatingPoint,
    pub total_bal: FloatingPoint,
    pub locked: bool,
    /// The applied deposits and withdrawals, by transaction identifier.
    pub transactions: HashMap<u32, Transaction>,
    /// The transactions under dispute.
    pub disputes: HashSet<u32>,
}

impl View for Account {
    type V = AccountView;

    open spec fn view(&self) -> AccountView {
        AccountView {
            client_id: self.client_id,
            available: self.avail_bal@,
            held: self.held_bal@,
            total: self.total_bal@,
            locked: self.locked,
            history: self.transactions@,
            disputed: self.disputes@,
        }
    }
}

impl Clone for Account {
    fn clone(&self) -> (copy: Account)
        ensures
            copy@ == self@,
    {
        Account {
            client_id: self.client_id,
            avail_bal: self.avail_bal,
            held_bal: self.held_bal,
            total_bal: self.total_bal,
            locked: self.locked,
            transactions: self.transactions.clone(),
            disputes: clone_disputes(&self.disputes),
        }
    }
}

/// The signed amount of a recorded transaction: its amount times the sign of
/// its type.
fn signed_amount_of(recorded: &Transaction) -> (delta: Option<FloatingPoint>)
    ensures
        match delta {
            Some(d) => signed_amount(*recorded) == Some(d@),
            None => signed_amount(*recorded).is_none(),
        },
{
    match recorded.amount {
        Some(amount) => {
            amount.0.checked_mul(recorded.transaction_type.get_sign())
        },
        None => None,
    }
}

impl Account {
    fn new(client_id: u16) -> (account: Account)
        ensures
            account@ == AccountView::fresh(client_id),
    {
        Account {
            client_id,
            avail_bal: FloatingPoint::from_num(0),
            held_bal: FloatingPoint::from_num(0),
            total_bal: FloatingPoint::from_num(0),
            locked: false,
            transactions: HashMap::new(),
            disputes: HashSet::new(),
        }
    }

    /// Applies a transaction of this account's client.
    ///
    /// A frozen account ignores every transaction. A deposit or withdrawal
    /// moves the total and the available funds; a dispute moves the disputed
    /// amount from the available to the held funds; a resolve moves it back;
    /// a chargeback removes it from the held funds and the total and freezes
    /// the account. A transaction that cannot be applied changes nothing.
    fn apply(&mut self, t: &Transaction)
        requires
            t.check_state(),
        ensures
            final(self)@ == old(self)@.step(*t),
    {
        if self.locked {
            return ;
        }
        match t.transaction_type {
            TransactionType::Deposit | TransactionType::Withdrawal => {
                let delta = signed_amount_of(t);
                let new_total_bal = match delta {
                    Some(delta) => delta.checked_add(self.total_bal),
                    None => None,
                };
                let new_avail_bal = match delta {
                    Some(delta) => delta.checked_add(self.avail_bal),
                    None => None,
                };
                // A deposit may leave the available funds below zero; a
                // withdrawal may not.
                if new_total_bal.is_some() && new_avail_bal.is_some()
                    && (t.transaction_type == TransactionType::Deposit
                    || new_avail_bal.unwrap().ge(FloatingPoint::from_num(0))) {
                    self.total_bal = new_total_bal.unwrap();
                    self.avail_bal = new_avail_bal.unwrap();
                    self.transactions.insert(t.tx_id, *t);
                }
            },
            TransactionType::Dispute => {
                if let Some(disputed_tx) = self.transactions.get(&t.tx_id) {
                    // Only deposits and withdrawals can be disputed.
                    if disputed_tx.transaction_type == TransactionType::Deposit
                        || disputed_tx.transaction_type == TransactionType::Withdrawal {
                        if let Some(delta) = signed_amount_of(disputed_tx) {
                            let new_avail_bal = self.avail_bal.checked_sub(delta);
                            let new_held_bal = self.held_bal.checked_add(delta);
                            if new_held_bal.is_some() && new_avail_bal.is_some() {
                                self.avail_bal = new_avail_bal.unwrap();
                                self.held_bal = new_held_bal.unwrap();
                                self.disputes.insert(t.tx_id);
                            }
                        }
                    }
                }
            },
            TransactionType::Resolve => {
                if let Some(disputed_tx) = self.transactions.get(&t.tx_id) {
                    if self.disputes.contains(&t.tx_id) {
                        if let Some(delta) = signed_amount_of(disputed_tx) {
                            let new_held_bal = self.held_bal.checked_sub(delta);
                            let new_avail_bal = self.avail_bal.checked_add(delta);
                            if new_avail_bal.is_some() && new_held_bal.is_some() {
                                self.held_bal = new_held_bal.unwrap();
                                self.avail_bal = new_avail_bal.unwrap();
                                self.disputes.remove(&t.tx_id);
                            }
                        }
                    }
                }
            },
            TransactionType::Chargeback => {
                if let Some(disputed_tx) = self.transactions.get(&t.tx_id) {
                    if self.disputes.contains(&t.tx_id) {
                        if let Some(delta) = signed_amount_of(disputed_tx) {
                            let new_held_bal = self.held_bal.checked_sub(delta);
                            let new_total_bal = self.total_bal.checked_sub(delta);
                            if new_total_bal.is_some() && new_held_bal.is_some() {
                                self.held_bal = new_held_bal.unwrap();
                                self.total_bal = new_total_bal.unwrap();
                                self.disputes.remove(&t.tx_id);
                                self.locked = true;
                            }
                        }
                    }
                }
            },
        }
    }
}

/// The balances of one account at the time of an export.
#[derive(Debug, Clone, Copy, Eq, PartialEq)]
pub struct AccountSnapshot {
    pub client_id: u16,
    pub available: FloatingPoint,
    pub held: FloatingPoint,
    pub total: FloatingPoint,
    pub locked: bool,
}

/// The value of a snapshot: the balances as raw values.
pub struct AccountSnapshotView {
    pub client_id: u16,
    pub available: int,
    pub held: int,
    pub total: int,
    pub locked: bool,
}

impl View for AccountSnapshot {
    type V = AccountSnapshotView;

    open spec fn view(&self) -> AccountSnapshotView {
        AccountSnapshotView {
            client_id: self.client_id,
            available: self.available@,
            held: self.held@,
            total: self.total@,
            locked: self.locked,
        }
    }
}

/// The snapshot of an account.
pub open spec fn snapshot_of(account: AccountView) -> AccountSnapshotView {
    AccountSnapshotView {
        client_id: account.client_id,
        available: account.available,
        held: account.held,
        total: account.total,
        locked: account.locked,
    }
}

/// One account as it is written out: the balances in decimal notation with
/// four digits after the point.
#[derive(Debug, Clone, Eq, PartialEq)]
pub struct OutputRecord {
    pub client: u16,
    pub available: String,
    pub held: String,
    pub total: String,
    pub locked: bool,
}

/// The value of an output record.
pub struct OutputRecordView {
    pub client: u16,
    pub available: Seq<char>,
    pub held: Seq<char>,
    pub total: Seq<char>,
    pub locked: bool,
}

impl View for OutputRecord {
    type V = OutputRecordView;

    open spec fn view(&self) -> OutputRecordView {
        OutputRecordView {
            client: self.client,
            available: self.available@,
            held: self.held@,
            total: self.total@,
            locked: self.locked,
        }
    }
}

/// The output record of a snapshot.
pub open spec fn record_of(snapshot: AccountSnapshotView) -> OutputRecordView {
    OutputRecordView {
        client: snapshot.client_id,
        available: decimal_text(snapshot.available),
        held: decimal_text(snapshot.held),
        total: decimal_text(snapshot.total),
        locked: snapshot.locked,
    }
}

impl AccountSnapshot {
    /// The snapshot as it is written out.
    pub fn to_record(&self) -> (record: OutputRecord)
        ensures
            record@ == record_of(self@),
    {
        OutputRecord {
            client: self.client_id,
            available: self.available.to_decimal_string(),
            held: self.held.to_decimal_string(),
            total: self.total.to_decimal_string(),
            locked: self.locked,
        }
    }
}

/// Whether `snapshots` lists the accounts of `ledger` in the order of
/// `clients`.
pub open spec fn lists_in_order(
    snapshots: Seq<AccountSnapshotView>,
    ledger: LedgerView,
    clients: Seq<u16>,
) -> bool {
    &&& snapshots.len() == clients.len()
    &&& forall|i: int|
        0 <= i < clients.len() ==> ledger.contains_key(#[trigger] clients[i]) && snapshots[i]
            == snapshot_of(ledger[clients[i]])
}

/// Whether `snapshots` holds one snapshot for each account of `ledger`, in
/// some order, and nothing else.
pub open spec fn is_export_of(snapshots: Seq<AccountSnapshotView>, ledger: LedgerView) -> bool {
    exists|clients: Seq<u16>|
        clients.no_duplicates() && clients.to_set() == ledger.dom() && #[trigger] lists_in_order(
            snapshots,
            ledger,
            clients,
        )
}

/// A set of accounts: a map from the client's identifier to the account.
#[derive(Debug, PartialEq)]
pub struct Accounts {
    pub state: HashMap<u16, Account>,
}

impl Clone for Accounts {
    fn clone(&self) -> (copy: Accounts)
        ensures
            copy@ == self@,
    {
        Accounts { state: self.state.clone() }
    }
}

impl View for Accounts {
    type V = LedgerView;

    open spec fn view(&self) -> LedgerView {
        self.state@.map_values(|account: Account| account@)
    }
}

impl Accounts {
    /// Each account is stored under its own client and is well formed.
    pub open spec fn wf(&self) -> bool {
        ledger_wf(self@)
    }

    /// Creates an empty set of accounts.
    pub fn new() -> (accounts: Accounts)
        ensures
            accounts@ == LedgerView::empty(),
            accounts.wf(),
    {
        Accounts { state: HashMap::new() }
    }

    /// A snapshot of all accounts, one for each, in no particular order.
    pub fn export(&self) -> (snapshots: Vec<AccountSnapshot>)
        ensures
            is_export_of(snapshots@.map_values(|s: AccountSnapshot| s@), self@),
    {
        let mut snapshots: Vec<AccountSnapshot> = Vec::new();
        for (_, account) in it: self.state.iter()
            invariant
                snapshots.len() == it.index(),
                it.seq() == spec_hash_map_iter(&self.state).remaining(),
                it.seq().no_duplicates(),
                forall|i: int|
                    0 <= i < it.index() ==> (#[trigger] snapshots[i])@ == snapshot_of(
                        (*it.seq()[i].1)@,
                    ),
        {
            snapshots.push(
                AccountSnapshot {
                    client_id: account.client_id,
                    available: account.avail_bal,
                    held: account.held_bal,
                    total: account.total_bal,
                    locked: account.locked,
                },
            );
        }
        proof {
            let pairs = spec_hash_map_iter(&self.state).remaining();
            let clients = pairs.map_values(|pair: (&u16, &Account)| *pair.0);
            let views = snapshots@.map_values(|s: AccountSnapshot| s@);
            axiom_spec_hash_map_iter(&self.state);
            // No client is listed twice: equal keys would make equal pairs.
            assert forall|i: int, j: int|
                0 <= i < clients.len() && 0 <= j < clients.len() && i != j implies clients[i]
                != clients[j] by {
                assert(self.state@[*pairs[j].0] == *pairs[j].1);
            }
            // Every client is listed.
            assert forall|client_id: u16|
                self@.dom().contains(client_id) implies clients.to_set().contains(client_id) by {
                let pair = (&client_id, &self.state@[client_id]);
                let i = choose|i: int| 0 <= i < pairs.len() && pairs[i] == pair;
                assert(clients[i] == client_id);
            }
            assert(clients.to_set() =~= self@.dom());
            assert(lists_in_order(views, self@, clients));
        }
        snapshots
    }

    /// Changes `self` to reflect the transaction `t`.
    ///
    /// The account of the transaction's client is created if this is the
    /// first transaction that names the client, and then takes the step that
    /// [`AccountView::step`] describes. No other account changes.
    pub fn process_transaction(&mut self, t: &Transaction)
        requires
            t.check_state(),
        ensures
            final(self)@ == ledger_step(old(self)@, *t),
            final(self)@.dom() == old(self)@.dom().insert(t.client_id),
            old(self).wf() ==> final(self).wf(),
    {
        let account = self.state.entry(t.client_id).or_insert(Account::new(t.client_id));
        account.apply(t);
        proof {
            if old(self).wf() {
                lemma_ledger_step_keeps_wf(old(self)@, *t);
            }
        }
    }
}

} // verus!

//! Transactions: the events that a ledger applies.
use crate::parser::amount::ONE_BITS;
use vstd::prelude::*;

pub use crate::parser::amount::FloatingPoint;

verus! {

/// The type of a transaction.
#[derive(Debug, Clone, Copy, Eq, PartialEq, Structural)]
pub enum TransactionType {
    Deposit,
    Withdrawal,
    Dispute,
    Resolve,
    Chargeback,
}

impl TransactionType {
    /// The direction in which a transaction of this type moves funds: plus
    /// one for a deposit, minus one for every other type.
    pub open spec fn direction(self) -> int {
        if self is Deposit {
            1
        } else {
            -1
        }
    }

    /// Whether a transaction of this type moves funds by an amount of its
    /// own, so that it carries an amount and can later be disputed.
    pub open spec fn carries_amount(self) -> bool {
        self is Deposit || self is Withdrawal
    }

    /// The sign of the transaction as an amount. A deposit adds money to an
    /// account, so its sign is one; every other type has the sign minus one.
    pub fn get_sign(&self) -> (sign: FloatingPoint)
        ensures
            sign@ == self.direction() * ONE_BITS,
    {
        match self {
            TransactionType::Deposit => FloatingPoint::from_num(1),
            TransactionType::Withdrawal => FloatingPoint::from_num(-1),
            _ => FloatingPoint::from_num(-1),
        }
    }
}

/// The amount of a deposit or a withdrawal.
#[derive(Debug, Clone, Copy, Eq, PartialEq, Structural)]
pub struct FloatingPointWrap(pub FloatingPoint);

impl View for FloatingPointWrap {
    type V = int;

    /// The raw value of the amount.
    open spec fn view(&self) -> int {
        self.0@
    }
}

/// One ledger event.
#[derive(Debug, Clone, Copy, Eq, PartialEq)]
pub struct Transaction {
    pub transaction_type: TransactionType,
    pub client_id: u16,
    pub tx_id: u32,
    pub amount: Option<FloatingPointWrap>,
}

impl Transaction {
    /// A transaction is well formed when it carries an amount exactly if it
    /// is a deposit or a withdrawal.
    pub open spec fn is_well_formed(&self) -> bool {
        match self.transaction_type {
            TransactionType::Deposit | TransactionType::Withdrawal => self.amount.is_some(),
            TransactionType::Dispute | TransactionType::Resolve | TransactionType::Chargeback => {
                self.amount.is_none()
            },
        }
    }

    /// Checks that the amount is there exactly when the type of the
    /// transaction asks for one.
    #[verifier::when_used_as_spec(is_well_formed)]
    pub fn check_state(&self) -> (ok: bool)
        ensures
            ok == self.is_well_formed(),
    {
        match self.transaction_type {
            TransactionType::Deposit | TransactionType::Withdrawal => self.amount.is_some(),
            TransactionType::Dispute | TransactionType::Resolve | TransactionType::Chargeback => {
                self.amount.is_none()
            },
        }
    }
}

} // verus!

use vstd::prelude::*;

verus! {

/// Why a transaction leaves the accounts as they are.
#[derive(Debug, Clone, Copy, PartialEq, Eq, Structural)]
pub enum Rejection {
    /// The client's account is frozen by a chargeback.
    AccountFrozen,
    /// A deposit or withdrawal reuses the id of a recorded transaction.
    DuplicateTransaction,
    /// A deposit or withdrawal without an amount, or a referenced transaction
    /// without one.
    MissingAmount,
    /// The available funds are less than the amount withdrawn.
    InsufficientFunds,
    /// The referenced transaction is not under dispute.
    NotDisputed,
    /// No transaction is recorded under the referenced id.
    TransactionNotFound,
    /// The client has no account.
    AccountNotFound,
}

/// The message of a rejection.
pub open spec fn rejection_message(r: Rejection) -> Seq<char> {
    match r {
        Rejection::AccountFrozen => "account is frozen"@,
        Rejection::DuplicateTransaction => "duplicate transaction id"@,
        Rejection::MissingAmount => "missing amount"@,
        Rejection::InsufficientFunds => "insufficient available funds"@,
        Rejection::NotDisputed => "transaction is not under dispute"@,
        Rejection::TransactionNotFound => "transaction not found"@,
        Rejection::AccountNotFound => "account not found"@,
    }
}

impl Rejection {
    /// The message that describes the rejection.
    pub fn message(&self) -> (m: &'static str)
        ensures
            m@ == rejection_message(*self),
    {
        match self {
            Rejection::AccountFrozen => "account is frozen",
            Rejection::DuplicateTransaction => "duplicate transaction id",
            Rejection::MissingAmount => "missing amount",
            Rejection::InsufficientFunds => "insufficient available funds",
            Rejection::NotDisputed => "transaction is not under dispute",
            Rejection::TransactionNotFound => "transaction not found",
            Rejection::AccountNotFound => "account not found",
        }
    }
}

} // verus!

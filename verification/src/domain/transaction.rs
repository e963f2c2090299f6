use vstd::prelude::*;
use crate::domain::amount::Amount;

verus! {

/// The kinds of transaction.
#[derive(Debug, Clone, Copy, PartialEq, Eq, Structural)]
pub enum TransactionType {
    Deposit,
    Withdrawal,
    Dispute,
    Resolve,
    Chargeback,
}

/// A transaction of a client; deposits and withdrawals carry an amount,
/// disputes, resolves and chargebacks refer to an earlier transaction by `tx`.
#[derive(Debug, Clone, Copy, PartialEq, Eq, Structural)]
pub struct Transaction {
    pub tx_type: TransactionType,
    pub client: u16,
    pub tx: u32,
    pub amount: Option<Amount>,
}

} // verus!

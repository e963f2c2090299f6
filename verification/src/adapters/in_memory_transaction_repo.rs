use vstd::prelude::*;
use std::collections::HashMap;
use crate::domain::transaction::Transaction;
use crate::ports::TransactionRepository;

verus! {

broadcast use vstd::std_specs::hash::group_hash_axioms;

/// Transactions kept in memory, in a hash map keyed by transaction id.
pub struct InMemoryTransactionRepo {
    transactions: HashMap<u32, Transaction>,
}

impl InMemoryTransactionRepo {
    pub fn new() -> (r: Self)
        ensures
            r.transactions() == Map::<u32, Transaction>::empty(),
    {
        InMemoryTransactionRepo { transactions: HashMap::new() }
    }
}

impl TransactionRepository for InMemoryTransactionRepo {
    closed spec fn transactions(&self) -> Map<u32, Transaction> {
        self.transactions@
    }

    fn find_by_tx_id(&self, tx_id: u32) -> (found: Option<Transaction>) {
        match self.transactions.get(&tx_id) {
            Some(t) => Some(*t),
            None => None,
        }
    }

    fn save(&mut self, transaction: Transaction) {
        self.transactions.insert(transaction.tx, transaction);
    }
}

} // verus!

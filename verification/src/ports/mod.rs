use vstd::prelude::*;
use crate::domain::account::Account;
use crate::domain::transaction::Transaction;

verus! {

/// Whether `listed` holds the accounts of `accounts`, each once, in some order
/// of their client ids.
pub open spec fn lists_accounts(accounts: Map<u16, Account>, listed: Seq<Account>) -> bool {
    exists|ids: Seq<u16>|
        {
            &&& ids.no_duplicates()
            &&& ids.to_set() == accounts.dom()
            &&& listed == ids.map_values(|id: u16| accounts[id])
        }
}

/// Where the accounts are kept, by client id.
pub trait AccountRepository {
    /// The accounts that the repository holds, by client id.
    spec fn accounts(&self) -> Map<u16, Account>;

    /// The account saved under `client_id`, if any.
    fn find_by_client_id(&self, client_id: u16) -> (found: Option<Account>)
        ensures
            found == self.accounts().get(client_id),
    ;

    /// Saves `account` under its client id, in place of any earlier one.
    fn save(&mut self, account: Account)
        ensures
            final(self).accounts() == old(self).accounts().insert(account.client, account),
    ;

    /// All the accounts, in an order that the repository chooses.
    fn all(&self) -> (all: Vec<Account>)
        ensures
            lists_accounts(self.accounts(), all@),
    ;
}

/// Where the transactions are kept, by transaction id.
pub trait TransactionRepository {
    /// The transactions that the repository holds, by transaction id.
    spec fn transactions(&self) -> Map<u32, Transaction>;

    /// The transaction saved under `tx_id`, if any.
    fn find_by_tx_id(&self, tx_id: u32) -> (found: Option<Transaction>)
        ensures
            found == self.transactions().get(tx_id),
    ;

    /// Saves `transaction` under its id, in place of any earlier one.
    fn save(&mut self, transaction: Transaction)
        ensures
            final(self).transactions() == old(self).transactions().insert(
                transaction.tx,
                transaction,
            ),
    ;
}

/// Which transactions are under dispute.
pub trait DisputeRepository {
    /// The ids of the transactions under dispute.
    spec fn disputed(&self) -> Set<u32>;

    fn is_disputed(&self, tx_id: u32) -> (r: bool)
        ensures
            r == self.disputed().contains(tx_id),
    ;

    fn mark_disputed(&mut self, tx_id: u32)
        ensures
            final(self).disputed() == old(self).disputed().insert(tx_id),
    ;

    fn remove_dispute(&mut self, tx_id: u32)
        ensures
            final(self).disputed() == old(self).disputed().remove(tx_id),
    ;
}

} // verus!

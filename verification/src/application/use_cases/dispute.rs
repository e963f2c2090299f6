use vstd::prelude::*;
use crate::application::rejection::Rejection;
use crate::application::use_cases::deposit::frozen;
use crate::domain::account::Account;
use crate::domain::amount::{fits_i64, Amount};
use crate::domain::transaction::Transaction;
use crate::ports::{AccountRepository, DisputeRepository, TransactionRepository};

verus! {

/// The amount of the transaction saved under `tx`.
pub open spec fn amount_of(txs: Map<u32, Transaction>, tx: u32) -> Amount {
    txs[tx].amount->0
}

/// Why a dispute of `tx` by `client`, on an account that is not frozen, changes
/// nothing, if it does not go through: the transaction is unknown, the client
/// has no account, or the transaction carries no amount (checked in that
/// order).
pub open spec fn dispute_skip(
    accounts: Map<u16, Account>,
    txs: Map<u32, Transaction>,
    client: u16,
    tx: u32,
) -> Option<Rejection> {
    if !txs.contains_key(tx) {
        Some(Rejection::TransactionNotFound)
    } else if !accounts.contains_key(client) {
        Some(Rejection::AccountNotFound)
    } else if txs[tx].amount is None {
        Some(Rejection::MissingAmount)
    } else {
        None
    }
}

/// `a` with `amount` moved from its available funds to its held funds.
pub open spec fn held_back(a: Account, amount: Amount) -> Account {
    Account {
        client: a.client,
        available: Amount((a.available@ - amount@) as i64),
        held: Amount((a.held@ + amount@) as i64),
        locked: a.locked,
    }
}

/// What a dispute of `tx` by `client` gives: rejected when the account is
/// frozen, else for the reasons of `dispute_skip`, else the account with the
/// amount of `tx` moved from available to held.
pub open spec fn dispute_outcome(
    accounts: Map<u16, Account>,
    txs: Map<u32, Transaction>,
    client: u16,
    tx: u32,
) -> Result<Account, Rejection> {
    if frozen(accounts, client) {
        Err(Rejection::AccountFrozen)
    } else {
        match dispute_skip(accounts, txs, client, tx) {
            Some(skip) => Err(skip),
            None => Ok(held_back(accounts[client], amount_of(txs, tx))),
        }
    }
}

/// A dispute that goes through stays in the range of `i64`.
pub open spec fn dispute_fits(
    accounts: Map<u16, Account>,
    txs: Map<u32, Transaction>,
    client: u16,
    tx: u32,
) -> bool {
    dispute_outcome(accounts, txs, client, tx) is Ok ==> {
        &&& fits_i64(accounts[client].available@ - amount_of(txs, tx)@)
        &&& fits_i64(accounts[client].held@ + amount_of(txs, tx)@)
    }
}

/// The accounts after a dispute: the account is saved under its client id; a
/// dispute that does not go through changes nothing.
pub open spec fn dispute_accounts(
    accounts: Map<u16, Account>,
    txs: Map<u32, Transaction>,
    client: u16,
    tx: u32,
) -> Map<u16, Account> {
    match dispute_outcome(accounts, txs, client, tx) {
        Ok(a) => accounts.insert(a.client, a),
        Err(_) => accounts,
    }
}

/// The disputed transactions after a dispute: one that goes through puts `tx`
/// under dispute.
pub open spec fn dispute_disputes(
    accounts: Map<u16, Account>,
    txs: Map<u32, Transaction>,
    disputes: Set<u32>,
    client: u16,
    tx: u32,
) -> Set<u32> {
    if dispute_outcome(accounts, txs, client, tx) is Ok {
        disputes.insert(tx)
    } else {
        disputes
    }
}

pub struct DisputeUseCase<A: AccountRepository, T: TransactionRepository, D: DisputeRepository> {
    account_repo: A,
    tx_repo: T,
    dispute_repo: D,
}

impl<A: AccountRepository, T: TransactionRepository, D: DisputeRepository> DisputeUseCase<A, T, D> {
    /// The account repository of the use case.
    pub closed spec fn account_store(&self) -> A {
        self.account_repo
    }

    /// The transaction repository of the use case.
    pub closed spec fn tx_store(&self) -> T {
        self.tx_repo
    }

    /// The dispute repository of the use case.
    pub closed spec fn dispute_store(&self) -> D {
        self.dispute_repo
    }

    pub fn new(account_repo: A, tx_repo: T, dispute_repo: D) -> (r: Self)
        ensures
            r.account_store() == account_repo,
            r.tx_store() == tx_repo,
            r.dispute_store() == dispute_repo,
    {
        Self { account_repo, tx_repo, dispute_repo }
    }

    /// The dispute rule over a set of repositories: moves the amount of
    /// transaction `tx_id` from the available funds of `client_id` to its
    /// held funds and puts `tx_id` under dispute, giving the account as saved;
    /// a frozen account, an unknown transaction, a client with no account or
    /// a transaction without amount is rejected and nothing changes.
    pub fn apply(account_repo: &mut A, tx_repo: &T, dispute_repo: &mut D, client_id: u16, tx_id: u32) -> (r:
        Result<Account, Rejection>)
        requires
            dispute_fits(old(account_repo).accounts(), tx_repo.transactions(), client_id, tx_id),
        ensures
            r == dispute_outcome(old(account_repo).accounts(), tx_repo.transactions(), client_id, tx_id),
            final(account_repo).accounts() == dispute_accounts(
                old(account_repo).accounts(),
                tx_repo.transactions(),
                client_id,
                tx_id,
            ),
            final(dispute_repo).disputed() == dispute_disputes(
                old(account_repo).accounts(),
                tx_repo.transactions(),
                old(dispute_repo).disputed(),
                client_id,
                tx_id,
            ),
    {
        let found = account_repo.find_by_client_id(client_id);
        if let Some(a) = found {
            if a.locked {
                return Err(Rejection::AccountFrozen);
            }
        }
        let tx = match tx_repo.find_by_tx_id(tx_id) {
            Some(tx) => tx,
            None => return Err(Rejection::TransactionNotFound),
        };
        let mut account = match found {
            Some(account) => account,
            None => return Err(Rejection::AccountNotFound),
        };
        let disputed_amount = match tx.amount {
            Some(a) => a,
            None => return Err(Rejection::MissingAmount),
        };
        account.available = account.available - disputed_amount;
        account.held = account.held + disputed_amount;
        account_repo.save(account);
        dispute_repo.mark_disputed(tx_id);
        Ok(account)
    }

    /// Moves the amount of transaction `tx_id` from the available funds of
    /// `client_id` to its held funds and puts `tx_id` under dispute, giving
    /// the account as saved; a frozen account, an unknown transaction, a
    /// client with no account or a transaction without amount is rejected and
    /// nothing changes.
    pub fn execute(&mut self, client_id: u16, tx_id: u32) -> (r: Result<Account, Rejection>)
        requires
            dispute_fits(
                old(self).account_store().accounts(),
                old(self).tx_store().transactions(),
                client_id,
                tx_id,
            ),
        ensures
            r == dispute_outcome(
                old(self).account_store().accounts(),
                old(self).tx_store().transactions(),
                client_id,
                tx_id,
            ),
            final(self).account_store().accounts() == dispute_accounts(
                old(self).account_store().accounts(),
                old(self).tx_store().transactions(),
                client_id,
                tx_id,
            ),
            final(self).dispute_store().disputed() == dispute_disputes(
                old(self).account_store().accounts(),
                old(self).tx_store().transactions(),
                old(self).dispute_store().disputed(),
                client_id,
                tx_id,
            ),
            final(self).tx_store() == old(self).tx_store(),
    {
        Self::apply(&mut self.account_repo, &self.tx_repo, &mut self.dispute_repo, client_id, tx_id)
    }

    pub fn account_repo(&self) -> (r: &A)
        ensures
            *r == self.account_store(),
    {
        &self.account_repo
    }

    pub fn dispute_repo(&self) -> (r: &D)
        ensures
            *r == self.dispute_store(),
    {
        &self.dispute_repo
    }
}

} // verus!

use vstd::prelude::*;
use crate::application::rejection::Rejection;
use crate::application::use_cases::deposit::frozen;
use crate::application::use_cases::dispute::{amount_of, dispute_skip};
use crate::domain::account::Account;
use crate::domain::amount::{fits_i64, Amount};
use crate::domain::transaction::Transaction;
use crate::ports::{AccountRepository, DisputeRepository, TransactionRepository};

verus! {

/// Why settling (resolving or charging back) the dispute of `tx` by `client`
/// changes nothing, if it does not go through: the account is frozen, the
/// transaction is not under dispute, is unknown, the client has no account, or
/// the transaction carries no amount (checked in that order).
pub open spec fn settle_skip(
    accounts: Map<u16, Account>,
    txs: Map<u32, Transaction>,
    disputes: Set<u32>,
    client: u16,
    tx: u32,
) -> Option<Rejection> {
    if frozen(accounts, client) {
        Some(Rejection::AccountFrozen)
    } else if !disputes.contains(tx) {
        Some(Rejection::NotDisputed)
    } else {
        dispute_skip(accounts, txs, client, tx)
    }
}

/// The disputes after a resolve or chargeback of `tx` by `client`: one that
/// goes through ends the dispute.
pub open spec fn settle_disputes(
    accounts: Map<u16, Account>,
    txs: Map<u32, Transaction>,
    disputes: Set<u32>,
    client: u16,
    tx: u32,
) -> Set<u32> {
    if settle_skip(accounts, txs, disputes, client, tx) is None {
        disputes.remove(tx)
    } else {
        disputes
    }
}

/// `a` with `amount` moved from its held funds back to its available funds.
pub open spec fn released(a: Account, amount: Amount) -> Account {
    Account {
        client: a.client,
        available: Amount((a.available@ + amount@) as i64),
        held: Amount((a.held@ - amount@) as i64),
        locked: a.locked,
    }
}

/// What a resolve of `tx` by `client` gives: rejected for the reasons of
/// `settle_skip`, else the account with the amount of `tx` moved from held
/// back to available.
pub open spec fn resolve_outcome(
    accounts: Map<u16, Account>,
    txs: Map<u32, Transaction>,
    disputes: Set<u32>,
    client: u16,
    tx: u32,
) -> Result<Account, Rejection> {
    match settle_skip(accounts, txs, disputes, client, tx) {
        Some(skip) => Err(skip),
        None => Ok(released(accounts[client], amount_of(txs, tx))),
    }
}

/// A resolve that goes through stays in the range of `i64`.
pub open spec fn resolve_fits(
    accounts: Map<u16, Account>,
    txs: Map<u32, Transaction>,
    disputes: Set<u32>,
    client: u16,
    tx: u32,
) -> bool {
    settle_skip(accounts, txs, disputes, client, tx) is None ==> {
        &&& fits_i64(accounts[client].held@ - amount_of(txs, tx)@)
        &&& fits_i64(accounts[client].available@ + amount_of(txs, tx)@)
    }
}

/// The accounts after a resolve: the account is saved under its client id; a
/// resolve that does not go through changes nothing.
pub open spec fn resolve_accounts(
    accounts: Map<u16, Account>,
    txs: Map<u32, Transaction>,
    disputes: Set<u32>,
    client: u16,
    tx: u32,
) -> Map<u16, Account> {
    match resolve_outcome(accounts, txs, disputes, client, tx) {
        Ok(a) => accounts.insert(a.client, a),
        Err(_) => accounts,
    }
}

pub struct ResolveUseCase<A: AccountRepository, T: TransactionRepository, D: DisputeRepository> {
    account_repo: A,
    tx_repo: T,
    dispute_repo: D,
}

impl<A: AccountRepository, T: TransactionRepository, D: DisputeRepository> ResolveUseCase<A, T, D> {
    /// The account repository of the use case.
    pub closed spec fn account_store(&self) -> A {
        self.account_repo
    }

    /// The transaction repository of the use case.
    pub closed spec fn tx_store(&self) -> T {
        self.tx_repo
    }

    /// The dispute repository of the use case.
    pub closed spec fn dispute_store(&self) -> D {
        self.dispute_repo
    }

    pub fn new(account_repo: A, tx_repo: T, dispute_repo: D) -> (r: Self)
        ensures
            r.account_store() == account_repo,
            r.tx_store() == tx_repo,
            r.dispute_store() == dispute_repo,
    {
        Self { account_repo, tx_repo, dispute_repo }
    }

    /// The resolve rule over a set of repositories: moves the amount of the
    /// disputed transaction `tx_id` from the held funds of `client_id` back to
    /// its available funds and ends the dispute, giving the account as saved;
    /// a frozen account, a transaction not under dispute or unknown, a client
    /// with no account or a transaction without amount is rejected and nothing
    /// changes.
    pub fn apply(account_repo: &mut A, tx_repo: &T, dispute_repo: &mut D, client_id: u16, tx_id: u32) -> (r:
        Result<Account, Rejection>)
        requires
            resolve_fits(
                old(account_repo).accounts(),
                tx_repo.transactions(),
                old(dispute_repo).disputed(),
                client_id,
                tx_id,
            ),
        ensures
            r == resolve_outcome(
                old(account_repo).accounts(),
                tx_repo.transactions(),
                old(dispute_repo).disputed(),
                client_id,
                tx_id,
            ),
            final(account_repo).accounts() == resolve_accounts(
                old(account_repo).accounts(),
                tx_repo.transactions(),
                old(dispute_repo).disputed(),
                client_id,
                tx_id,
            ),
            final(dispute_repo).disputed() == settle_disputes(
                old(account_repo).accounts(),
                tx_repo.transactions(),
                old(dispute_repo).disputed(),
                client_id,
                tx_id,
            ),
    {
        let found = account_repo.find_by_client_id(client_id);
        if let Some(a) = found {
            if a.locked {
                return Err(Rejection::AccountFrozen);
            }
        }
        if !dispute_repo.is_disputed(tx_id) {
            return Err(Rejection::NotDisputed);
        }
        let tx = match tx_repo.find_by_tx_id(tx_id) {
            Some(tx) => tx,
            None => return Err(Rejection::TransactionNotFound),
        };
        let mut account = match found {
            Some(account) => account,
            None => return Err(Rejection::AccountNotFound),
        };
        let amount = match tx.amount {
            Some(a) => a,
            None => return Err(Rejection::MissingAmount),
        };
        account.held = account.held - amount;
        account.available = account.available + amount;
        account_repo.save(account);
        dispute_repo.remove_dispute(tx_id);
        Ok(account)
    }

    /// Moves the amount of the disputed transaction `tx_id` from the held funds
    /// of `client_id` back to its available funds and ends the dispute, giving
    /// the account as saved; a frozen account, a transaction not under dispute
    /// or unknown, a client with no account or a transaction without amount is
    /// rejected and nothing changes.
    pub fn execute(&mut self, client_id: u16, tx_id: u32) -> (r: Result<Account, Rejection>)
        requires
            resolve_fits(
                old(self).account_store().accounts(),
                old(self).tx_store().transactions(),
                old(self).dispute_store().disputed(),
                client_id,
                tx_id,
            ),
        ensures
            r == resolve_outcome(
                old(self).account_store().accounts(),
                old(self).tx_store().transactions(),
                old(self).dispute_store().disputed(),
                client_id,
                tx_id,
            ),
            final(self).account_store().accounts() == resolve_accounts(
                old(self).account_store().accounts(),
                old(self).tx_store().transactions(),
                old(self).dispute_store().disputed(),
                client_id,
                tx_id,
            ),
            final(self).dispute_store().disputed() == settle_disputes(
                old(self).account_store().accounts(),
                old(self).tx_store().transactions(),
                old(self).dispute_store().disputed(),
                client_id,
                tx_id,
            ),
            final(self).tx_store() == old(self).tx_store(),
    {
        Self::apply(&mut self.account_repo, &self.tx_repo, &mut self.dispute_repo, client_id, tx_id)
    }

    pub fn account_repo(&self) -> (r: &A)
        ensures
            *r == self.account_store(),
    {
        &self.account_repo
    }

    pub fn dispute_repo(&self) -> (r: &D)
        ensures
            *r == self.dispute_store(),
    {
        &self.dispute_repo
    }
}

} // verus!

use vstd::prelude::*;
use crate::application::rejection::Rejection;
use crate::application::use_cases::deposit::{current_account, frozen, recorded};
use crate::domain::account::Account;
use crate::domain::amount::{fits_i64, Amount};
use crate::domain::transaction::{Transaction, TransactionType};
use crate::ports::{AccountRepository, TransactionRepository};

verus! {

/// Why a withdrawal is refused.
pub type WithdrawalError = Rejection;

/// `a` with `amount` taken from its available funds.
pub open spec fn withdrawn(a: Account, amount: Amount) -> Account {
    Account {
        client: a.client,
        available: Amount((a.available@ - amount@) as i64),
        held: a.held,
        locked: a.locked,
    }
}

/// The available funds of `client` (none if it has no account) are less than `amount`.
pub open spec fn insufficient_funds(accounts: Map<u16, Account>, client: u16, amount: Amount) -> bool {
    current_account(accounts, client).available@ - amount@ < 0
}

/// What a withdrawal of `amount` from `client` under id `tx` gives: rejected
/// when the account is frozen, the id is already recorded, or the available
/// funds (zero for a client with no account) are less than `amount` (checked
/// in that order), else the account with the amount taken from its
/// available funds.
pub open spec fn withdraw_outcome(
    accounts: Map<u16, Account>,
    txs: Map<u32, Transaction>,
    client: u16,
    tx: u32,
    amount: Amount,
) -> Result<Account, Rejection> {
    if frozen(accounts, client) {
        Err(Rejection::AccountFrozen)
    } else if txs.contains_key(tx) {
        Err(Rejection::DuplicateTransaction)
    } else if insufficient_funds(accounts, client, amount) {
        Err(Rejection::InsufficientFunds)
    } else {
        Ok(withdrawn(current_account(accounts, client), amount))
    }
}

/// The available funds less `amount`, which a withdrawal that passes the
/// frozen and duplicate checks computes, stay in the range of `i64`.
pub open spec fn withdraw_fits(
    accounts: Map<u16, Account>,
    txs: Map<u32, Transaction>,
    client: u16,
    tx: u32,
    amount: Amount,
) -> bool {
    (!frozen(accounts, client) && !txs.contains_key(tx)) ==> fits_i64(
        current_account(accounts, client).available@ - amount@,
    )
}

/// The accounts after a withdrawal: the debited account is saved under its
/// client id; a rejected withdrawal changes nothing.
pub open spec fn withdraw_accounts(
    accounts: Map<u16, Account>,
    txs: Map<u32, Transaction>,
    client: u16,
    tx: u32,
    amount: Amount,
) -> Map<u16, Account> {
    match withdraw_outcome(accounts, txs, client, tx, amount) {
        Ok(a) => accounts.insert(a.client, a),
        Err(_) => accounts,
    }
}

/// The recorded transactions after a withdrawal: one that goes through is
/// recorded under its id.
pub open spec fn withdraw_transactions(
    accounts: Map<u16, Account>,
    txs: Map<u32, Transaction>,
    client: u16,
    tx: u32,
    amount: Amount,
) -> Map<u32, Transaction> {
    if withdraw_outcome(accounts, txs, client, tx, amount) is Ok {
        txs.insert(tx, recorded(TransactionType::Withdrawal, client, tx, amount))
    } else {
        txs
    }
}

pub struct WithdrawalUseCase<A: AccountRepository, T: TransactionRepository> {
    account_repo: A,
    tx_repo: T,
}

impl<A: AccountRepository, T: TransactionRepository> WithdrawalUseCase<A, T> {
    /// The account repository of the use case.
    pub closed spec fn account_store(&self) -> A {
        self.account_repo
    }

    /// The transaction repository of the use case.
    pub closed spec fn tx_store(&self) -> T {
        self.tx_repo
    }

    pub fn new(account_repo: A, tx_repo: T) -> (r: Self)
        ensures
            r.account_store() == account_repo,
            r.tx_store() == tx_repo,
    {
        Self { account_repo, tx_repo }
    }

    /// The withdrawal rule over a pair of repositories: takes `amount` from
    /// the available funds of `client_id` and records the withdrawal under
    /// `tx`, giving the account as saved; rejects, changing nothing, a frozen
    /// account, an id already recorded, or available funds below `amount`.
    pub fn apply(account_repo: &mut A, tx_repo: &mut T, client_id: u16, tx: u32, amount: Amount) -> (r:
        Result<Account, Rejection>)
        requires
            withdraw_fits(old(account_repo).accounts(), old(tx_repo).transactions(), client_id, tx, amount),
        ensures
            r == withdraw_outcome(
                old(account_repo).accounts(),
                old(tx_repo).transactions(),
                client_id,
                tx,
                amount,
            ),
            final(account_repo).accounts() == withdraw_accounts(
                old(account_repo).accounts(),
                old(tx_repo).transactions(),
                client_id,
                tx,
                amount,
            ),
            final(tx_repo).transactions() == withdraw_transactions(
                old(account_repo).accounts(),
                old(tx_repo).transactions(),
                client_id,
                tx,
                amount,
            ),
    {
        let found = account_repo.find_by_client_id(client_id);
        if let Some(a) = found {
            if a.locked {
                return Err(Rejection::AccountFrozen);
            }
        }
        if tx_repo.find_by_tx_id(tx).is_some() {
            return Err(Rejection::DuplicateTransaction);
        }
        let mut account = match found {
            Some(a) => a,
            None => Account::new(client_id),
        };
        if (account.available - amount).is_negative() {
            return Err(Rejection::InsufficientFunds);
        }
        account.available = account.available - amount;
        account_repo.save(account);
        tx_repo.save(
            Transaction {
                tx_type: TransactionType::Withdrawal,
                client: client_id,
                tx,
                amount: Some(amount),
            },
        );
        Ok(account)
    }

    /// Takes `amount` from the available funds of `client_id` and records the
    /// withdrawal under `tx`, giving the account as saved; a frozen account,
    /// an id already recorded, or available funds (zero for a client with no
    /// account) below `amount` are rejected and nothing changes.
    pub fn execute(&mut self, client_id: u16, tx: u32, amount: Amount) -> (r: Result<
        Account,
        WithdrawalError,
    >)
        requires
            withdraw_fits(
                old(self).account_store().accounts(),
                old(self).tx_store().transactions(),
                client_id,
                tx,
                amount,
            ),
        ensures
            r == withdraw_outcome(
                old(self).account_store().accounts(),
                old(self).tx_store().transactions(),
                client_id,
                tx,
                amount,
            ),
            final(self).account_store().accounts() == withdraw_accounts(
                old(self).account_store().accounts(),
                old(self).tx_store().transactions(),
                client_id,
                tx,
                amount,
            ),
            final(self).tx_store().transactions() == withdraw_transactions(
                old(self).account_store().accounts(),
                old(self).tx_store().transactions(),
                client_id,
                tx,
                amount,
            ),
    {
        Self::apply(&mut self.account_repo, &mut self.tx_repo, client_id, tx, amount)
    }

    pub fn account_repo(&self) -> (r: &A)
        ensures
            *r == self.account_store(),
    {
        &self.account_repo
    }

    pub fn tx_repo(&self) -> (r: &T)
        ensures
            *r == self.tx_store(),
    {
        &self.tx_repo
    }
}

} // verus!

use vstd::prelude::*;
use crate::application::rejection::Rejection;
use crate::domain::account::{new_account, Account};
use crate::domain::amount::{fits_i64, Amount};
use crate::domain::transaction::{Transaction, TransactionType};
use crate::ports::{AccountRepository, TransactionRepository};

verus! {

/// The account of `client` is frozen by a chargeback.
pub open spec fn frozen(accounts: Map<u16, Account>, client: u16) -> bool {
    accounts.contains_key(client) && accounts[client].locked
}

/// The account of `client` in `accounts`, or a new one if it has none.
pub open spec fn current_account(accounts: Map<u16, Account>, client: u16) -> Account {
    if accounts.contains_key(client) {
        accounts[client]
    } else {
        new_account(client)
    }
}

/// The record that a deposit or withdrawal leaves in the transaction repository.
pub open spec fn recorded(tx_type: TransactionType, client: u16, tx: u32, amount: Amount) -> Transaction {
    Transaction { tx_type, client, tx, amount: Some(amount) }
}

/// `a` with `amount` added to its available funds.
pub open spec fn deposited(a: Account, amount: Amount) -> Account {
    Account {
        client: a.client,
        available: Amount((a.available@ + amount@) as i64),
        held: a.held,
        locked: a.locked,
    }
}

/// What a deposit of `amount` to `client` under id `tx` gives: rejected when
/// the account is frozen or the id is already recorded (checked in that
/// order), else the account with the amount added to its available funds (a
/// new account if the client has none).
pub open spec fn deposit_outcome(
    accounts: Map<u16, Account>,
    txs: Map<u32, Transaction>,
    client: u16,
    tx: u32,
    amount: Amount,
) -> Result<Account, Rejection> {
    if frozen(accounts, client) {
        Err(Rejection::AccountFrozen)
    } else if txs.contains_key(tx) {
        Err(Rejection::DuplicateTransaction)
    } else {
        Ok(deposited(current_account(accounts, client), amount))
    }
}

/// A deposit that goes through stays in the range of `i64`.
pub open spec fn deposit_fits(
    accounts: Map<u16, Account>,
    txs: Map<u32, Transaction>,
    client: u16,
    tx: u32,
    amount: Amount,
) -> bool {
    deposit_outcome(accounts, txs, client, tx, amount) is Ok ==> fits_i64(
        current_account(accounts, client).available@ + amount@,
    )
}

/// The accounts after a deposit: the credited account is saved under its
/// client id; a rejected deposit changes nothing.
pub open spec fn deposit_accounts(
    accounts: Map<u16, Account>,
    txs: Map<u32, Transaction>,
    client: u16,
    tx: u32,
    amount: Amount,
) -> Map<u16, Account> {
    match deposit_outcome(accounts, txs, client, tx, amount) {
        Ok(a) => accounts.insert(a.client, a),
        Err(_) => accounts,
    }
}

/// The recorded transactions after a deposit: one that goes through is
/// recorded under its id.
pub open spec fn deposit_transactions(
    accounts: Map<u16, Account>,
    txs: Map<u32, Transaction>,
    client: u16,
    tx: u32,
    amount: Amount,
) -> Map<u32, Transaction> {
    if deposit_outcome(accounts, txs, client, tx, amount) is Ok {
        txs.insert(tx, recorded(TransactionType::Deposit, client, tx, amount))
    } else {
        txs
    }
}

pub struct DepositUseCase<A: AccountRepository, T: TransactionRepository> {
    account_repo: A,
    tx_repo: T,
}

impl<A: AccountRepository, T: TransactionRepository> DepositUseCase<A, T> {
    /// The account repository of the use case.
    pub closed spec fn account_store(&self) -> A {
        self.account_repo
    }

    /// The transaction repository of the use case.
    pub closed spec fn tx_store(&self) -> T {
        self.tx_repo
    }

    pub fn new(account_repo: A, tx_repo: T) -> (r: Self)
        ensures
            r.account_store() == account_repo,
            r.tx_store() == tx_repo,
    {
        Self { account_repo, tx_repo }
    }

    /// The deposit rule over a pair of repositories: adds `amount` to the
    /// available funds of `client_id` (opening its account if it has none)
    /// and records the deposit under `tx`, giving the account as saved;
    /// rejects, changing nothing, a frozen account or an id already recorded.
    pub fn apply(account_repo: &mut A, tx_repo: &mut T, client_id: u16, tx: u32, amount: Amount) -> (r:
        Result<Account, Rejection>)
        requires
            deposit_fits(old(account_repo).accounts(), old(tx_repo).transactions(), client_id, tx, amount),
        ensures
            r == deposit_outcome(
                old(account_repo).accounts(),
                old(tx_repo).transactions(),
                client_id,
                tx,
                amount,
            ),
            final(account_repo).accounts() == deposit_accounts(
                old(account_repo).accounts(),
                old(tx_repo).transactions(),
                client_id,
                tx,
                amount,
            ),
            final(tx_repo).transactions() == deposit_transactions(
                old(account_repo).accounts(),
                old(tx_repo).transactions(),
                client_id,
                tx,
                amount,
            ),
    {
        let found = account_repo.find_by_client_id(client_id);
        if let Some(a) = found {
            if a.locked {
                return Err(Rejection::AccountFrozen);
            }
        }
        if tx_repo.find_by_tx_id(tx).is_some() {
            return Err(Rejection::DuplicateTransaction);
        }
        let mut account = match found {
            Some(a) => a,
            None => Account::new(client_id),
        };
        account.available = account.available + amount;
        account_repo.save(account);
        tx_repo.save(
            Transaction { tx_type: TransactionType::Deposit, client: client_id, tx, amount: Some(amount) },
        );
        Ok(account)
    }

    /// Adds `amount` to the available funds of `client_id`, opening its account
    /// if it has none, and records the deposit under `tx`, giving the account
    /// as saved; a frozen account or an id already recorded is rejected and
    /// nothing changes.
    pub fn execute(&mut self, client_id: u16, tx: u32, amount: Amount) -> (r: Result<Account, Rejection>)
        requires
            deposit_fits(
                old(self).account_store().accounts(),
                old(self).tx_store().transactions(),
                client_id,
                tx,
                amount,
            ),
        ensures
            r == deposit_outcome(
                old(self).account_store().accounts(),
                old(self).tx_store().transactions(),
                client_id,
                tx,
                amount,
            ),
            final(self).account_store().accounts() == deposit_accounts(
                old(self).account_store().accounts(),
                old(self).tx_store().transactions(),
                client_id,
                tx,
                amount,
            ),
            final(self).tx_store().transactions() == deposit_transactions(
                old(self).account_store().accounts(),
                old(self).tx_store().transactions(),
                client_id,
                tx,
                amount,
            ),
    {
        Self::apply(&mut self.account_repo, &mut self.tx_repo, client_id, tx, amount)
    }

    pub fn repo(&self) -> (r: &A)
        ensures
            *r == self.account_store(),
    {
        &self.account_repo
    }

    pub fn tx_repo(&self) -> (r: &T)
        ensures
            *r == self.tx_store(),
    {
        &self.tx_repo
    }
}

} // verus!

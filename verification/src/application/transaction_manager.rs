use vstd::prelude::*;
use crate::application::rejection::Rejection;
use crate::application::use_cases::chargeback::{
    chargeback_accounts,
    chargeback_fits,
    chargeback_outcome,
    ChargebackUseCase,
};
use crate::application::use_cases::deposit::{
    deposit_accounts,
    deposit_fits,
    deposit_outcome,
    deposit_transactions,
    DepositUseCase,
};
use crate::application::use_cases::dispute::{
    dispute_accounts,
    dispute_disputes,
    dispute_fits,
    dispute_outcome,
    DisputeUseCase,
};
use crate::application::use_cases::resolve::{
    resolve_accounts,
    resolve_fits,
    resolve_outcome,
    settle_disputes,
    ResolveUseCase,
};
use crate::application::use_cases::withdrawal::{
    withdraw_accounts,
    withdraw_fits,
    withdraw_outcome,
    withdraw_transactions,
    WithdrawalUseCase,
};
use crate::domain::account::Account;
use crate::domain::transaction::{Transaction, TransactionType};
use crate::ports::{AccountRepository, DisputeRepository, TransactionRepository};

verus! {

/// What processing `tx` gives: what the use case of its kind gives; a deposit
/// or withdrawal without an amount is rejected.
pub open spec fn process_outcome(
    accounts: Map<u16, Account>,
    txs: Map<u32, Transaction>,
    disputes: Set<u32>,
    tx: Transaction,
) -> Result<Account, Rejection> {
    match tx.tx_type {
        TransactionType::Deposit => match tx.amount {
            None => Err(Rejection::MissingAmount),
            Some(x) => deposit_outcome(accounts, txs, tx.client, tx.tx, x),
        },
        TransactionType::Withdrawal => match tx.amount {
            None => Err(Rejection::MissingAmount),
            Some(x) => withdraw_outcome(accounts, txs, tx.client, tx.tx, x),
        },
        TransactionType::Dispute => dispute_outcome(accounts, txs, tx.client, tx.tx),
        TransactionType::Resolve => resolve_outcome(accounts, txs, disputes, tx.client, tx.tx),
        TransactionType::Chargeback => chargeback_outcome(accounts, txs, disputes, tx.client, tx.tx),
    }
}

/// The accounts after processing `tx`: as the use case of its kind leaves them.
pub open spec fn process_accounts(
    accounts: Map<u16, Account>,
    txs: Map<u32, Transaction>,
    disputes: Set<u32>,
    tx: Transaction,
) -> Map<u16, Account> {
    match tx.tx_type {
        TransactionType::Deposit => match tx.amount {
            None => accounts,
            Some(x) => deposit_accounts(accounts, txs, tx.client, tx.tx, x),
        },
        TransactionType::Withdrawal => match tx.amount {
            None => accounts,
            Some(x) => withdraw_accounts(accounts, txs, tx.client, tx.tx, x),
        },
        TransactionType::Dispute => dispute_accounts(accounts, txs, tx.client, tx.tx),
        TransactionType::Resolve => resolve_accounts(accounts, txs, disputes, tx.client, tx.tx),
        TransactionType::Chargeback => chargeback_accounts(accounts, txs, disputes, tx.client, tx.tx),
    }
}

/// The recorded transactions after processing `tx`: as the use case of its
/// kind leaves them.
pub open spec fn process_transactions(
    accounts: Map<u16, Account>,
    txs: Map<u32, Transaction>,
    disputes: Set<u32>,
    tx: Transaction,
) -> Map<u32, Transaction> {
    match tx.tx_type {
        TransactionType::Deposit => match tx.amount {
            None => txs,
            Some(x) => deposit_transactions(accounts, txs, tx.client, tx.tx, x),
        },
        TransactionType::Withdrawal => match tx.amount {
            None => txs,
            Some(x) => withdraw_transactions(accounts, txs, tx.client, tx.tx, x),
        },
        _ => txs,
    }
}

/// The disputed transactions after processing `tx`: as the use case of its
/// kind leaves them.
pub open spec fn process_disputes(
    accounts: Map<u16, Account>,
    txs: Map<u32, Transaction>,
    disputes: Set<u32>,
    tx: Transaction,
) -> Set<u32> {
    match tx.tx_type {
        TransactionType::Dispute => dispute_disputes(accounts, txs, disputes, tx.client, tx.tx),
        TransactionType::Resolve => settle_disputes(accounts, txs, disputes, tx.client, tx.tx),
        TransactionType::Chargeback => settle_disputes(accounts, txs, disputes, tx.client, tx.tx),
        _ => disputes,
    }
}

/// The balances that processing `tx` computes stay in the range of `i64`.
pub open spec fn process_fits(
    accounts: Map<u16, Account>,
    txs: Map<u32, Transaction>,
    disputes: Set<u32>,
    tx: Transaction,
) -> bool {
    match tx.tx_type {
        TransactionType::Deposit => match tx.amount {
            None => true,
            Some(x) => deposit_fits(accounts, txs, tx.client, tx.tx, x),
        },
        TransactionType::Withdrawal => match tx.amount {
            None => true,
            Some(x) => withdraw_fits(accounts, txs, tx.client, tx.tx, x),
        },
        TransactionType::Dispute => dispute_fits(accounts, txs, tx.client, tx.tx),
        TransactionType::Resolve => resolve_fits(accounts, txs, disputes, tx.client, tx.tx),
        TransactionType::Chargeback => chargeback_fits(accounts, txs, disputes, tx.client, tx.tx),
    }
}

/// Routes each transaction to the use case of its kind, over one set of
/// repositories that all the use cases share.
pub struct TransactionManager<A: AccountRepository, T: TransactionRepository, D: DisputeRepository> {
    account_repo: A,
    tx_repo: T,
    dispute_repo: D,
}

impl<A: AccountRepository, T: TransactionRepository, D: DisputeRepository> TransactionManager<
    A,
    T,
    D,
> {
    /// The account repository of the manager.
    pub closed spec fn account_store(&self) -> A {
        self.account_repo
    }

    /// The transaction repository of the manager.
    pub closed spec fn tx_store(&self) -> T {
        self.tx_repo
    }

    /// The dispute repository of the manager.
    pub closed spec fn dispute_store(&self) -> D {
        self.dispute_repo
    }

    /// The accounts that the manager holds.
    pub open spec fn accounts(&self) -> Map<u16, Account> {
        self.account_store().accounts()
    }

    /// The transactions that the manager has recorded.
    pub open spec fn transactions(&self) -> Map<u32, Transaction> {
        self.tx_store().transactions()
    }

    /// The transactions under dispute.
    pub open spec fn disputes(&self) -> Set<u32> {
        self.dispute_store().disputed()
    }

    pub fn new(account_repo: A, tx_repo: T, dispute_repo: D) -> (r: Self)
        ensures
            r.account_store() == account_repo,
            r.tx_store() == tx_repo,
            r.dispute_store() == dispute_repo,
    {
        Self { account_repo, tx_repo, dispute_repo }
    }

    /// Whether the balances that processing `tx` computes stay in the range of
    /// `i64`, which `process` and `try_process` require.
    pub fn fits(&self, tx: &Transaction) -> (r: bool)
        ensures
            r == process_fits(self.accounts(), self.transactions(), self.disputes(), *tx),
    {
        let current = self.account_repo.find_by_client_id(tx.client);
        if let Some(a) = current {
            if a.locked {
                return true;
            }
        }
        let account = match current {
            Some(a) => a,
            None => Account::new(tx.client),
        };
        let in_range = |v: i128| -> (b: bool)
            ensures
                b == (i64::MIN <= v <= i64::MAX),
            { i64::MIN as i128 <= v && v <= i64::MAX as i128 };
        let available = account.available.0 as i128;
        let held = account.held.0 as i128;
        match tx.tx_type {
            TransactionType::Deposit | TransactionType::Withdrawal => {
                let amount = match tx.amount {
                    None => return true,
                    Some(x) => x,
                };
                if self.tx_repo.find_by_tx_id(tx.tx).is_some() {
                    return true;
                }
                if tx.tx_type == TransactionType::Deposit {
                    in_range(available + amount.0 as i128)
                } else {
                    in_range(available - amount.0 as i128)
                }
            },
            _ => {
                if tx.tx_type != TransactionType::Dispute && !self.dispute_repo.is_disputed(tx.tx) {
                    return true;
                }
                let amount = match self.tx_repo.find_by_tx_id(tx.tx) {
                    Some(t) => match t.amount {
                        Some(x) => x,
                        None => return true,
                    },
                    None => return true,
                };
                if current.is_none() {
                    return true;
                }
                let x = amount.0 as i128;
                match tx.tx_type {
                    TransactionType::Dispute => in_range(available - x) && in_range(held + x),
                    TransactionType::Resolve => in_range(held - x) && in_range(available + x),
                    _ => in_range(held - x),
                }
            },
        }
    }

    /// Processes `tx` with the use case of its kind: gives the account as
    /// saved, or why nothing changed.
    pub fn try_process(&mut self, tx: Transaction) -> (r: Result<Account, Rejection>)
        requires
            process_fits(old(self).accounts(), old(self).transactions(), old(self).disputes(), tx),
        ensures
            r == process_outcome(
                old(self).accounts(),
                old(self).transactions(),
                old(self).disputes(),
                tx,
            ),
            final(self).accounts() == process_accounts(
                old(self).accounts(),
                old(self).transactions(),
                old(self).disputes(),
                tx,
            ),
            final(self).transactions() == process_transactions(
                old(self).accounts(),
                old(self).transactions(),
                old(self).disputes(),
                tx,
            ),
            final(self).disputes() == process_disputes(
                old(self).accounts(),
                old(self).transactions(),
                old(self).disputes(),
                tx,
            ),
    {
        match tx.tx_type {
            TransactionType::Deposit => match tx.amount {
                None => Err(Rejection::MissingAmount),
                Some(x) => DepositUseCase::<A, T>::apply(
                    &mut self.account_repo,
                    &mut self.tx_repo,
                    tx.client,
                    tx.tx,
                    x,
                ),
            },
            TransactionType::Withdrawal => match tx.amount {
                None => Err(Rejection::MissingAmount),
                Some(x) => WithdrawalUseCase::<A, T>::apply(
                    &mut self.account_repo,
                    &mut self.tx_repo,
                    tx.client,
                    tx.tx,
                    x,
                ),
            },
            TransactionType::Dispute => DisputeUseCase::<A, T, D>::apply(
                &mut self.account_repo,
                &self.tx_repo,
                &mut self.dispute_repo,
                tx.client,
                tx.tx,
            ),
            TransactionType::Resolve => ResolveUseCase::<A, T, D>::apply(
                &mut self.account_repo,
                &self.tx_repo,
                &mut self.dispute_repo,
                tx.client,
                tx.tx,
            ),
            TransactionType::Chargeback => ChargebackUseCase::<A, T, D>::apply(
                &mut self.account_repo,
                &self.tx_repo,
                &mut self.dispute_repo,
                tx.client,
                tx.tx,
            ),
        }
    }

    /// Processes `tx` with the use case of its kind: gives the account as
    /// saved, or `None` when nothing changed.
    pub fn process(&mut self, tx: Transaction) -> (r: Option<Account>)
        requires
            process_fits(old(self).accounts(), old(self).transactions(), old(self).disputes(), tx),
        ensures
            r == (match process_outcome(
                old(self).accounts(),
                old(self).transactions(),
                old(self).disputes(),
                tx,
            ) {
                Ok(a) => Some(a),
                Err(_) => None,
            }),
            final(self).accounts() == process_accounts(
                old(self).accounts(),
                old(self).transactions(),
                old(self).disputes(),
                tx,
            ),
            final(self).transactions() == process_transactions(
                old(self).accounts(),
                old(self).transactions(),
                old(self).disputes(),
                tx,
            ),
            final(self).disputes() == process_disputes(
                old(self).accounts(),
                old(self).transactions(),
                old(self).disputes(),
                tx,
            ),
    {
        match self.try_process(tx) {
            Ok(a) => Some(a),
            Err(_) => None,
        }
    }

    pub fn account_repo(&self) -> (r: &A)
        ensures
            *r == self.account_store(),
    {
        &self.account_repo
    }
}

} // verus!

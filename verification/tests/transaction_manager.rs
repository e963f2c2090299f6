use payment_engine::adapters::in_memory_account_repo::InMemoryAccountRepo;
use payment_engine::adapters::in_memory_dispute_repo::InMemoryDisputeRepo;
use payment_engine::adapters::in_memory_transaction_repo::InMemoryTransactionRepo;
use payment_engine::application::rejection::Rejection;
use payment_engine::application::transaction_manager::TransactionManager;
use payment_engine::domain::amount::Amount;
use payment_engine::domain::transaction::{Transaction, TransactionType};
use payment_engine::ports::AccountRepository;

type Manager = TransactionManager<InMemoryAccountRepo, InMemoryTransactionRepo, InMemoryDisputeRepo>;

fn amount(s: &str) -> Amount {
    s.parse().unwrap()
}

fn manager() -> Manager {
    TransactionManager::new(
        InMemoryAccountRepo::new(),
        InMemoryTransactionRepo::new(),
        InMemoryDisputeRepo::new(),
    )
}

fn tx(tx_type: TransactionType, client: u16, tx: u32, value: Option<&str>) -> Transaction {
    Transaction {
        tx_type,
        client,
        tx,
        amount: value.map(amount),
    }
}

fn balances(m: &Manager, client: u16) -> (Amount, Amount, bool) {
    let a = m.account_repo().get(client).unwrap();
    (a.available, a.held, a.locked)
}

#[test]
fn processes_deposit_and_returns_account() {
    let mut manager = manager();

    let tx = Transaction {
        tx_type: TransactionType::Deposit,
        client: 1,
        tx: 1,
        amount: Some(amount("100.0")),
    };

    let account = manager.process(tx).unwrap();
    assert_eq!(account.client, 1);
    assert_eq!(account.available, amount("100.0"));
    assert_eq!(account.held, Amount::zero());
    assert_eq!(account.total(), amount("100.0"));
}

#[test]
fn frozen_account_rejects_every_transaction() {
    let mut m = manager();
    m.process(tx(TransactionType::Deposit, 1, 1, Some("10.0")));
    m.process(tx(TransactionType::Dispute, 1, 1, None));
    let charged = m.process(tx(TransactionType::Chargeback, 1, 1, None)).unwrap();
    assert!(charged.locked);
    assert_eq!(balances(&m, 1), (Amount::zero(), Amount::zero(), true));

    for t in [
        tx(TransactionType::Deposit, 1, 2, Some("5.0")),
        tx(TransactionType::Withdrawal, 1, 3, Some("1.0")),
        tx(TransactionType::Dispute, 1, 1, None),
        tx(TransactionType::Resolve, 1, 1, None),
        tx(TransactionType::Chargeback, 1, 1, None),
    ] {
        assert_eq!(m.try_process(t), Err(Rejection::AccountFrozen));
    }
    assert_eq!(balances(&m, 1), (Amount::zero(), Amount::zero(), true));
    assert!(Rejection::AccountFrozen.message().contains("frozen"));
}

#[test]
fn duplicate_transaction_id_is_rejected() {
    let mut m = manager();
    m.process(tx(TransactionType::Deposit, 1, 1, Some("100.0")));
    assert_eq!(
        m.try_process(tx(TransactionType::Deposit, 1, 1, Some("50.0"))),
        Err(Rejection::DuplicateTransaction)
    );
    m.process(tx(TransactionType::Withdrawal, 1, 2, Some("10.0")));
    assert_eq!(balances(&m, 1), (amount("90.0"), Amount::zero(), false));
    assert!(Rejection::DuplicateTransaction.message().contains("duplicate"));
}

#[test]
fn dispute_holds_funds() {
    let mut m = manager();
    m.process(tx(TransactionType::Deposit, 1, 1, Some("100.0")));
    m.process(tx(TransactionType::Deposit, 1, 2, Some("50.0")));
    m.process(tx(TransactionType::Dispute, 1, 1, None));
    assert_eq!(balances(&m, 1), (amount("50.0"), amount("100.0"), false));
}

#[test]
fn dispute_then_resolve_releases_funds() {
    let mut m = manager();
    m.process(tx(TransactionType::Deposit, 1, 1, Some("100.0")));
    m.process(tx(TransactionType::Deposit, 1, 2, Some("50.0")));
    m.process(tx(TransactionType::Dispute, 1, 1, None));
    m.process(tx(TransactionType::Resolve, 1, 1, None));
    m.process(tx(TransactionType::Withdrawal, 1, 3, Some("30.0")));
    assert_eq!(balances(&m, 1), (amount("120.0"), Amount::zero(), false));
}

#[test]
fn rejections_name_their_reason() {
    let mut m = manager();
    assert_eq!(
        m.try_process(tx(TransactionType::Deposit, 1, 1, None)),
        Err(Rejection::MissingAmount)
    );
    assert_eq!(
        m.try_process(tx(TransactionType::Withdrawal, 1, 1, Some("1.0"))),
        Err(Rejection::InsufficientFunds)
    );
    assert_eq!(
        m.try_process(tx(TransactionType::Dispute, 1, 9, None)),
        Err(Rejection::TransactionNotFound)
    );
    m.process(tx(TransactionType::Deposit, 1, 1, Some("1.0")));
    assert_eq!(
        m.try_process(tx(TransactionType::Dispute, 2, 1, None)),
        Err(Rejection::AccountNotFound)
    );
    assert_eq!(
        m.try_process(tx(TransactionType::Resolve, 1, 1, None)),
        Err(Rejection::NotDisputed)
    );
    assert_eq!(
        m.try_process(tx(TransactionType::Chargeback, 1, 1, None)),
        Err(Rejection::NotDisputed)
    );
    assert!(m.process(tx(TransactionType::Resolve, 1, 1, None)).is_none());
    assert_eq!(balances(&m, 1), (amount("1.0"), Amount::zero(), false));
}

#[test]
fn clients_are_kept_apart() {
    let mut m = manager();
    m.process(tx(TransactionType::Deposit, 1, 1, Some("1.0")));
    m.process(tx(TransactionType::Deposit, 2, 2, Some("2.0")));
    m.process(tx(TransactionType::Withdrawal, 1, 3, Some("1.5")));
    assert_eq!(balances(&m, 1), (amount("1.0"), Amount::zero(), false));
    assert_eq!(balances(&m, 2), (amount("2.0"), Amount::zero(), false));
    let mut all = m.account_repo().all();
    all.sort_by_key(|a| a.client);
    assert_eq!(all.len(), 2);
    assert_eq!(all[0].available.to_string(), "1.00");
    assert_eq!(all[1].total().to_string(), "2.00");
}

#[test]
fn fits_reports_overflow() {
    let mut m = manager();
    let big = Transaction {
        tx_type: TransactionType::Deposit,
        client: 1,
        tx: 1,
        amount: Some(Amount(i64::MAX)),
    };
    assert!(m.fits(&big));
    m.process(big);
    let more = tx(TransactionType::Deposit, 1, 2, Some("0.0001"));
    assert!(!m.fits(&more));
    let less = tx(TransactionType::Withdrawal, 1, 3, Some("0.0001"));
    assert!(m.fits(&less));
}

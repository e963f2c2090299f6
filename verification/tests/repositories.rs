use payment_engine::adapters::in_memory_account_repo::InMemoryAccountRepo;
use payment_engine::adapters::in_memory_dispute_repo::InMemoryDisputeRepo;
use payment_engine::adapters::in_memory_transaction_repo::InMemoryTransactionRepo;
use payment_engine::domain::account::Account;
use payment_engine::domain::amount::Amount;
use payment_engine::domain::transaction::{Transaction, TransactionType};
use payment_engine::ports::{AccountRepository, DisputeRepository, TransactionRepository};

fn amount(s: &str) -> Amount {
    s.parse().unwrap()
}

#[test]
fn all_returns_all_saved_accounts() {
    let mut repo = InMemoryAccountRepo::new();
    repo.save(Account {
        client: 1,
        available: amount("10.0"),
        held: Amount::zero(),
        locked: false,
    });
    repo.save(Account {
        client: 2,
        available: amount("20.0"),
        held: Amount::zero(),
        locked: false,
    });

    let mut accounts = repo.all();
    accounts.sort_by_key(|a| a.client);

    assert_eq!(accounts.len(), 2);
    assert_eq!(accounts[0].client, 1);
    assert_eq!(accounts[1].client, 2);
}

#[test]
fn saving_again_replaces_the_account() {
    let mut repo = InMemoryAccountRepo::new();
    repo.save(Account::new(3));
    repo.save(Account {
        client: 3,
        available: amount("1.0"),
        held: amount("2.0"),
        locked: true,
    });
    assert_eq!(repo.all().len(), 1);
    let found = repo.find_by_client_id(3).unwrap();
    assert_eq!(found.available, amount("1.0"));
    assert_eq!(found.held, amount("2.0"));
    assert!(found.locked);
    assert!(repo.find_by_client_id(4).is_none());
    assert!(repo.get(4).is_none());
}

#[test]
fn transaction_repository_saves_and_finds() {
    let mut repo = InMemoryTransactionRepo::new();
    repo.save(Transaction {
        tx_type: TransactionType::Deposit,
        client: 1,
        tx: 42,
        amount: Some("10.0".parse().unwrap()),
    });

    let tx = repo.find_by_tx_id(42).unwrap();
    assert_eq!(tx.client, 1);
    assert_eq!(tx.tx, 42);
    assert!(repo.find_by_tx_id(43).is_none());
}

#[test]
fn dispute_repository_marks_and_removes() {
    let mut repo = InMemoryDisputeRepo::new();
    assert!(!repo.is_disputed(5));
    repo.mark_disputed(5);
    assert!(repo.is_disputed(5));
    repo.remove_dispute(5);
    assert!(!repo.is_disputed(5));
}

#[test]
fn new_account_is_empty_and_open() {
    let account = Account::new(9);
    assert_eq!(account.client, 9);
    assert_eq!(account.available, Amount::zero());
    assert_eq!(account.held, Amount::zero());
    assert_eq!(account.total(), Amount::zero());
    assert!(!account.locked);
}

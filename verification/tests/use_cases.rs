use payment_engine::adapters::in_memory_account_repo::InMemoryAccountRepo;
use payment_engine::adapters::in_memory_dispute_repo::InMemoryDisputeRepo;
use payment_engine::adapters::in_memory_transaction_repo::InMemoryTransactionRepo;
use payment_engine::application::rejection::Rejection;
use payment_engine::application::use_cases::chargeback::ChargebackUseCase;
use payment_engine::application::use_cases::deposit::DepositUseCase;
use payment_engine::application::use_cases::dispute::DisputeUseCase;
use payment_engine::application::use_cases::resolve::ResolveUseCase;
use payment_engine::application::use_cases::withdrawal::{WithdrawalError, WithdrawalUseCase};
use payment_engine::domain::account::Account;
use payment_engine::domain::amount::Amount;
use payment_engine::domain::transaction::{Transaction, TransactionType};
use payment_engine::ports::{AccountRepository, DisputeRepository, TransactionRepository};

fn amount(s: &str) -> Amount {
    s.parse().unwrap()
}

fn deposit_record(client: u16, tx: u32, value: &str) -> Transaction {
    Transaction {
        tx_type: TransactionType::Deposit,
        client,
        tx,
        amount: Some(amount(value)),
    }
}

// --- Deposit ---

#[test]
fn increases_available_and_total() {
    let mut repo = InMemoryAccountRepo::new();
    repo.save(Account {
        client: 1,
        available: amount("30.0"),
        held: amount("10.0"),
        locked: false,
    });
    let mut use_case = DepositUseCase::new(repo, InMemoryTransactionRepo::new());

    use_case.execute(1, 1, amount("20.0"));

    let account = use_case.repo().get(1).unwrap();
    assert_eq!(account.available, amount("50.0"));
    assert_eq!(account.total(), amount("60.0"));
}

#[test]
fn creates_account_on_first_deposit() {
    let repo = InMemoryAccountRepo::new();
    let mut use_case = DepositUseCase::new(repo, InMemoryTransactionRepo::new());

    use_case.execute(1, 1, amount("10.0"));

    let account = use_case.repo().get(1).expect("account should exist");
    assert_eq!(account.available, amount("10.0"));
    assert_eq!(account.held, Amount::zero());
    assert!(!account.locked);
}

#[test]
fn adds_to_existing_available_balance() {
    let mut repo = InMemoryAccountRepo::new();
    repo.save(Account {
        client: 1,
        available: amount("50.0"),
        held: Amount::zero(),
        locked: false,
    });
    let mut use_case = DepositUseCase::new(repo, InMemoryTransactionRepo::new());

    use_case.execute(1, 1, amount("25.5"));

    let account = use_case.repo().get(1).unwrap();
    assert_eq!(account.available, amount("75.5"));
}

#[test]
fn deposits_to_separate_clients_independently() {
    let repo = InMemoryAccountRepo::new();
    let mut use_case = DepositUseCase::new(repo, InMemoryTransactionRepo::new());

    use_case.execute(1, 1, amount("100.0"));
    use_case.execute(2, 2, amount("200.0"));

    assert_eq!(use_case.repo().get(1).unwrap().available, amount("100.0"));
    assert_eq!(use_case.repo().get(2).unwrap().available, amount("200.0"));
}

#[test]
fn deposit_saves_transaction_record() {
    let account_repo = InMemoryAccountRepo::new();
    let tx_repo = InMemoryTransactionRepo::new();
    let mut use_case = DepositUseCase::new(account_repo, tx_repo);

    use_case.execute(1, 42, amount("10.0"));

    let tx = use_case
        .tx_repo()
        .find_by_tx_id(42)
        .expect("transaction should be saved");
    assert_eq!(tx.tx_type, TransactionType::Deposit);
    assert_eq!(tx.client, 1);
    assert_eq!(tx.tx, 42);
    assert_eq!(tx.amount, Some(amount("10.0")));
}

// --- Withdrawal ---

#[test]
fn decreases_available_and_total() {
    let mut account_repo = InMemoryAccountRepo::new();
    account_repo.save(Account {
        client: 2,
        available: amount("100.0"),
        held: amount("10.0"),
        locked: false,
    });
    let mut use_case = WithdrawalUseCase::new(account_repo, InMemoryTransactionRepo::new());
    let result = use_case.execute(2, 1, amount("1.0"));

    assert!(result.is_ok());
    let account = use_case.account_repo().get(2).unwrap();
    assert!(account.available == "99.0".parse().unwrap() && account.total() == "109.0".parse().unwrap());
}

#[test]
fn fails_with_insufficient_available_funds() {
    let mut account_repo = InMemoryAccountRepo::new();
    account_repo.save(Account {
        client: 2,
        available: amount("5.0"),
        held: amount("10.0"),
        locked: false,
    });
    let mut use_case = WithdrawalUseCase::new(account_repo, InMemoryTransactionRepo::new());
    let result = use_case.execute(2, 1, amount("10.0"));

    assert!(result.is_err());
    let account = use_case.account_repo().get(2).unwrap();
    assert_eq!(account.available, amount("5.0"));
    assert_eq!(account.held, amount("10.0"));
    assert!(use_case.tx_repo().find_by_tx_id(1).is_none());
}

#[test]
fn fails_on_non_existent_account() {
    let account_repo = InMemoryAccountRepo::new();
    let mut use_case = WithdrawalUseCase::new(account_repo, InMemoryTransactionRepo::new());
    let result = use_case.execute(99, 1, amount("1.0"));

    assert!(result.is_err());
    assert!(use_case.account_repo().get(99).is_none());
}

#[test]
fn withdrawals_to_separate_clients_independently() {
    let mut account_repo = InMemoryAccountRepo::new();
    for id in [1u16, 2u16] {
        account_repo.save(Account {
            client: id,
            available: if id == 1 {
                amount("100.0")
            } else {
                amount("200.0")
            },
            held: Amount::zero(),
            locked: false,
        });
    }
    let mut use_case = WithdrawalUseCase::new(account_repo, InMemoryTransactionRepo::new());
    use_case.execute(1, 1, amount("10.0")).unwrap();
    use_case.execute(2, 2, amount("50.0")).unwrap();

    assert_eq!(use_case.account_repo().get(1).unwrap().available, "90.0".parse().unwrap());
    assert_eq!(use_case.account_repo().get(2).unwrap().available, "150.0".parse().unwrap());
}

#[test]
fn withdrawal_saves_transaction_record() {
    let mut account_repo = InMemoryAccountRepo::new();
    account_repo.save(Account {
        client: 2,
        available: amount("100.0"),
        held: Amount::zero(),
        locked: false,
    });
    let mut use_case = WithdrawalUseCase::new(account_repo, InMemoryTransactionRepo::new());
    use_case.execute(2, 42, amount("10.0")).unwrap();

    let tx = use_case.tx_repo().find_by_tx_id(42).unwrap();
    assert!(
        tx.tx_type == TransactionType::Withdrawal
            && tx.client == 2
            && tx.tx == 42
            && tx.amount == Some("10.0".parse().unwrap())
    );
}

#[test]
fn withdrawal_error_kind_and_message() {
    let account_repo = InMemoryAccountRepo::new();
    let mut use_case = WithdrawalUseCase::new(account_repo, InMemoryTransactionRepo::new());
    let result = use_case.execute(7, 1, amount("0.0001"));
    assert_eq!(result, Err(WithdrawalError::InsufficientFunds));
    assert_eq!(
        WithdrawalError::InsufficientFunds.message(),
        "insufficient available funds"
    );
}

#[test]
fn withdrawal_of_zero_opens_an_account() {
    let account_repo = InMemoryAccountRepo::new();
    let mut use_case = WithdrawalUseCase::new(account_repo, InMemoryTransactionRepo::new());
    assert!(use_case.execute(5, 1, Amount::zero()).is_ok());
    assert_eq!(use_case.account_repo().get(5).unwrap().available, Amount::zero());
}

// --- Dispute ---

#[test]
fn moves_funds_from_available_to_held() {
    let mut account_repo = InMemoryAccountRepo::new();
    account_repo.save(Account {
        client: 1,
        available: amount("100.0"),
        held: Amount::zero(),
        locked: false,
    });

    let mut tx_repo = InMemoryTransactionRepo::new();
    tx_repo.save(deposit_record(1, 42, "30.0"));

    let mut use_case = DisputeUseCase::new(account_repo, tx_repo, InMemoryDisputeRepo::new());
    use_case.execute(1, 42);

    let account = use_case.account_repo().get(1).unwrap();
    assert_eq!(account.available, amount("70.0"));
    assert_eq!(account.held, amount("30.0"));
    assert_eq!(account.total(), amount("100.0"));
}

#[test]
fn dispute_ignores_non_existent_transaction() {
    let mut account_repo = InMemoryAccountRepo::new();
    account_repo.save(Account {
        client: 1,
        available: amount("100.0"),
        held: Amount::zero(),
        locked: false,
    });
    let tx_repo = InMemoryTransactionRepo::new();

    let mut use_case = DisputeUseCase::new(account_repo, tx_repo, InMemoryDisputeRepo::new());
    use_case.execute(1, 999);

    let account = use_case.account_repo().get(1).unwrap();
    assert_eq!(account.available, amount("100.0"));
    assert_eq!(account.held, Amount::zero());
}

#[test]
fn ignores_non_existent_account() {
    let account_repo = InMemoryAccountRepo::new();
    let mut tx_repo = InMemoryTransactionRepo::new();
    tx_repo.save(deposit_record(1, 42, "30.0"));

    let mut use_case = DisputeUseCase::new(account_repo, tx_repo, InMemoryDisputeRepo::new());
    use_case.execute(1, 42);
    // no panic = pass
    assert!(use_case.account_repo().get(1).is_none());
}

#[test]
fn total_funds_unchanged_with_existing_held() {
    let mut account_repo = InMemoryAccountRepo::new();
    account_repo.save(Account {
        client: 1,
        available: amount("200.0"),
        held: amount("50.0"),
        locked: false,
    });
    let mut tx_repo = InMemoryTransactionRepo::new();
    tx_repo.save(deposit_record(1, 7, "25.0"));

    let mut use_case = DisputeUseCase::new(account_repo, tx_repo, InMemoryDisputeRepo::new());
    use_case.execute(1, 7);

    let account = use_case.account_repo().get(1).unwrap();
    assert_eq!(account.available, amount("175.0"));
    assert_eq!(account.held, amount("75.0"));
    assert_eq!(account.total(), amount("250.0"));
}

// --- Resolve ---

#[test]
fn releases_held_funds_to_available() {
    let mut account_repo = InMemoryAccountRepo::new();
    account_repo.save(Account {
        client: 1,
        available: amount("70.0"),
        held: amount("30.0"),
        locked: false,
    });

    let mut tx_repo = InMemoryTransactionRepo::new();
    tx_repo.save(deposit_record(1, 42, "30.0"));

    let mut dispute_repo = InMemoryDisputeRepo::new();
    dispute_repo.mark_disputed(42);

    let mut use_case = ResolveUseCase::new(account_repo, tx_repo, dispute_repo);
    use_case.execute(1, 42);

    let account = use_case.account_repo().get(1).unwrap();
    assert_eq!(account.available, amount("100.0"));
    assert_eq!(account.held, Amount::zero());
    assert_eq!(account.total(), amount("100.0"));
    assert!(!use_case.dispute_repo().is_disputed(42));
}

#[test]
fn resolve_ignores_undisputed_transaction() {
    let mut account_repo = InMemoryAccountRepo::new();
    account_repo.save(Account {
        client: 1,
        available: amount("70.0"),
        held: amount("30.0"),
        locked: false,
    });
    let mut tx_repo = InMemoryTransactionRepo::new();
    tx_repo.save(deposit_record(1, 42, "30.0"));

    let mut use_case = ResolveUseCase::new(account_repo, tx_repo, InMemoryDisputeRepo::new());
    use_case.execute(1, 42);

    let account = use_case.account_repo().get(1).unwrap();
    assert_eq!(account.available, amount("70.0"));
    assert_eq!(account.held, amount("30.0"));
}

// --- Chargeback ---

fn chargeback_fixture(
    available: &str,
    held: &str,
    tx: u32,
    value: &str,
    disputed: bool,
) -> ChargebackUseCase<InMemoryAccountRepo, InMemoryTransactionRepo, InMemoryDisputeRepo> {
    let mut account_repo = InMemoryAccountRepo::new();
    account_repo.save(Account {
        client: 1,
        available: amount(available),
        held: amount(held),
        locked: false,
    });
    let mut tx_repo = InMemoryTransactionRepo::new();
    tx_repo.save(deposit_record(1, tx, value));
    let mut dispute_repo = InMemoryDisputeRepo::new();
    if disputed {
        dispute_repo.mark_disputed(tx);
    }
    ChargebackUseCase::new(account_repo, tx_repo, dispute_repo)
}

#[test]
fn withdraws_held_funds_and_freezes_account() {
    let mut use_case = chargeback_fixture("70.0", "30.0", 42, "30.0", true);
    use_case.execute(1, 42);

    let account = use_case.account_repo().get(1).unwrap();
    assert_eq!(account.available, amount("70.0"));
    assert_eq!(account.held, Amount::zero());
    assert_eq!(account.total(), amount("70.0"));
    assert!(account.locked);
}

#[test]
fn ignores_non_disputed_transaction() {
    let mut use_case = chargeback_fixture("70.0", "30.0", 42, "30.0", false);
    use_case.execute(1, 42);

    let account = use_case.account_repo().get(1).unwrap();
    assert_eq!(account.available, amount("70.0"));
    assert_eq!(account.held, amount("30.0"));
    assert!(!account.locked);
}

#[test]
fn chargeback_ignores_non_existent_transaction() {
    let mut account_repo = InMemoryAccountRepo::new();
    account_repo.save(Account {
        client: 1,
        available: amount("70.0"),
        held: amount("30.0"),
        locked: false,
    });
    let tx_repo = InMemoryTransactionRepo::new();
    let dispute_repo = InMemoryDisputeRepo::new();

    let mut use_case = ChargebackUseCase::new(account_repo, tx_repo, dispute_repo);
    use_case.execute(1, 999);

    let account = use_case.account_repo().get(1).unwrap();
    assert_eq!(account.available, amount("70.0"));
    assert_eq!(account.held, amount("30.0"));
    assert!(!account.locked);
}

#[test]
fn total_funds_decrease_by_disputed_amount() {
    let mut use_case = chargeback_fixture("50.0", "80.0", 10, "25.0", true);
    use_case.execute(1, 10);

    let account = use_case.account_repo().get(1).unwrap();
    assert_eq!(account.available, amount("50.0"));
    assert_eq!(account.held, amount("55.0"));
    assert_eq!(account.total(), amount("105.0"));
    assert!(account.locked);
}

#[test]
fn removes_dispute_after_chargeback() {
    let mut use_case = chargeback_fixture("70.0", "30.0", 42, "30.0", true);
    use_case.execute(1, 42);

    assert!(!use_case.dispute_repo().is_disputed(42));
}

#[test]
fn chargeback_returns_saved_account() {
    let mut use_case = chargeback_fixture("70.0", "30.0", 42, "30.0", true);
    let account = use_case.execute(1, 42).unwrap();
    assert_eq!(account.client, 1);
    assert_eq!(account.held, Amount::zero());
    assert!(account.locked);
    assert_eq!(use_case.execute(1, 42), Err(Rejection::AccountFrozen));
}

// --- Frozen accounts and reused ids ---

fn locked_account(client: u16, available: &str) -> Account {
    Account {
        client,
        available: amount(available),
        held: Amount::zero(),
        locked: true,
    }
}

#[test]
fn deposit_rejects_frozen_account() {
    let mut repo = InMemoryAccountRepo::new();
    repo.save(locked_account(1, "5.0"));
    let mut use_case = DepositUseCase::new(repo, InMemoryTransactionRepo::new());

    assert_eq!(use_case.execute(1, 1, amount("20.0")), Err(Rejection::AccountFrozen));
    assert_eq!(use_case.repo().get(1).unwrap().available, amount("5.0"));
    assert!(use_case.tx_repo().find_by_tx_id(1).is_none());
}

#[test]
fn deposit_rejects_reused_id() {
    let mut use_case = DepositUseCase::new(InMemoryAccountRepo::new(), InMemoryTransactionRepo::new());
    assert!(use_case.execute(1, 1, amount("100.0")).is_ok());
    assert_eq!(
        use_case.execute(1, 1, amount("50.0")),
        Err(Rejection::DuplicateTransaction)
    );
    assert_eq!(use_case.repo().get(1).unwrap().available, amount("100.0"));
    assert_eq!(use_case.tx_repo().find_by_tx_id(1).unwrap().amount, Some(amount("100.0")));
}

#[test]
fn withdrawal_rejects_frozen_account_and_reused_id() {
    let mut repo = InMemoryAccountRepo::new();
    repo.save(locked_account(1, "50.0"));
    repo.save(Account::new(2));
    let mut tx_repo = InMemoryTransactionRepo::new();
    tx_repo.save(deposit_record(2, 9, "1.0"));
    let mut use_case = WithdrawalUseCase::new(repo, tx_repo);

    assert_eq!(use_case.execute(1, 1, amount("10.0")), Err(Rejection::AccountFrozen));
    assert_eq!(use_case.account_repo().get(1).unwrap().available, amount("50.0"));
    assert_eq!(use_case.execute(2, 9, Amount::zero()), Err(Rejection::DuplicateTransaction));
}

#[test]
fn dispute_records_the_dispute() {
    let mut account_repo = InMemoryAccountRepo::new();
    account_repo.save(Account {
        client: 1,
        available: amount("100.0"),
        held: Amount::zero(),
        locked: false,
    });
    let mut tx_repo = InMemoryTransactionRepo::new();
    tx_repo.save(deposit_record(1, 42, "30.0"));

    let mut use_case = DisputeUseCase::new(account_repo, tx_repo, InMemoryDisputeRepo::new());
    let account = use_case.execute(1, 42).unwrap();
    assert_eq!(account.held, amount("30.0"));
    assert!(use_case.dispute_repo().is_disputed(42));
    assert_eq!(use_case.execute(1, 99), Err(Rejection::TransactionNotFound));
    assert!(!use_case.dispute_repo().is_disputed(99));
}

#[test]
fn settling_rejects_frozen_account() {
    let mut account_repo = InMemoryAccountRepo::new();
    account_repo.save(Account {
        client: 1,
        available: amount("70.0"),
        held: amount("30.0"),
        locked: true,
    });
    let mut tx_repo = InMemoryTransactionRepo::new();
    tx_repo.save(deposit_record(1, 42, "30.0"));
    let mut dispute_repo = InMemoryDisputeRepo::new();
    dispute_repo.mark_disputed(42);

    let mut resolve = ResolveUseCase::new(account_repo, tx_repo, dispute_repo);
    assert_eq!(resolve.execute(1, 42), Err(Rejection::AccountFrozen));
    assert_eq!(resolve.account_repo().get(1).unwrap().held, amount("30.0"));
    assert!(resolve.dispute_repo().is_disputed(42));

    let mut account_repo = InMemoryAccountRepo::new();
    account_repo.save(locked_account(1, "70.0"));
    let mut tx_repo = InMemoryTransactionRepo::new();
    tx_repo.save(deposit_record(1, 42, "30.0"));
    let mut dispute_repo = InMemoryDisputeRepo::new();
    dispute_repo.mark_disputed(42);
    let mut chargeback = ChargebackUseCase::new(account_repo, tx_repo, dispute_repo);
    assert_eq!(chargeback.execute(1, 42), Err(Rejection::AccountFrozen));

    let mut account_repo = InMemoryAccountRepo::new();
    account_repo.save(locked_account(1, "70.0"));
    let mut tx_repo = InMemoryTransactionRepo::new();
    tx_repo.save(deposit_record(1, 42, "30.0"));
    let mut dispute = DisputeUseCase::new(account_repo, tx_repo, InMemoryDisputeRepo::new());
    assert_eq!(dispute.execute(1, 42), Err(Rejection::AccountFrozen));
    assert!(!dispute.dispute_repo().is_disputed(42));
}

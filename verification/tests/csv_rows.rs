use payment_engine::adapters::csv_reader::{parse_row, CsvRow};
use payment_engine::domain::amount::Amount;
use payment_engine::domain::transaction::TransactionType;

fn row(kind: &str, client: u16, tx: u32, amount: Option<&str>) -> CsvRow {
    CsvRow {
        tx_type: kind.to_string(),
        client,
        tx,
        amount: amount.map(|s| s.to_string()),
    }
}

#[test]
fn reads_deposit_row() {
    let tx = parse_row(row("deposit", 1, 1, Some("1.0"))).unwrap();
    assert_eq!(tx.tx_type, TransactionType::Deposit);
    assert_eq!(tx.client, 1);
    assert_eq!(tx.tx, 1);
    assert_eq!(tx.amount, Some(Amount(10_000)));
}

#[test]
fn reads_dispute_row_without_amount() {
    let tx = parse_row(row("dispute", 1, 42, None)).unwrap();
    assert_eq!(tx.tx_type, TransactionType::Dispute);
    assert_eq!(tx.tx, 42);
    assert_eq!(tx.amount, None);
}

#[test]
fn ignores_amount_of_settling_rows() {
    let tx = parse_row(row(" chargeback ", 3, 7, Some("5"))).unwrap();
    assert_eq!(tx.tx_type, TransactionType::Chargeback);
    assert_eq!(tx.amount, None);
    assert_eq!(parse_row(row("resolve", 3, 7, None)).unwrap().tx_type, TransactionType::Resolve);
}

#[test]
fn tolerates_whitespace() {
    let tx = parse_row(row(" withdrawal ", 2, 5, Some(" 2.5 "))).unwrap();
    assert_eq!(tx.tx_type, TransactionType::Withdrawal);
    assert_eq!(tx.amount, Some(Amount(25_000)));
}

#[test]
fn skips_malformed_rows() {
    assert!(parse_row(row("deposit", 1, 1, None)).is_none());
    assert!(parse_row(row("deposit", 1, 1, Some("abc"))).is_none());
    assert!(parse_row(row("withdrawal", 1, 1, Some("1.23456"))).is_none());
    assert!(parse_row(row("transfer", 1, 1, Some("1.0"))).is_none());
    assert!(parse_row(row("Deposit", 1, 1, Some("1.0"))).is_none());
}

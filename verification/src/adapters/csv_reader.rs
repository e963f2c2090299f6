use vstd::prelude::*;
use crate::domain::amount::{amount_text_value, Amount};
use crate::domain::transaction::{Transaction, TransactionType};
use crate::text::{chars_equal, chars_of, string_of, trim, trim_chars};

verus! {

/// One row of the transaction file, as read: its `type` column, client, tx
/// and optional amount.
#[derive(Debug)]
pub struct CsvRow {
    pub tx_type: String,
    pub client: u16,
    pub tx: u32,
    pub amount: Option<String>,
}

/// The transaction kind that a `type` column names, after trimming.
pub open spec fn row_kind(kind: Seq<char>) -> Option<TransactionType> {
    let k = trim(kind);
    if k == "deposit"@ {
        Some(TransactionType::Deposit)
    } else if k == "withdrawal"@ {
        Some(TransactionType::Withdrawal)
    } else if k == "dispute"@ {
        Some(TransactionType::Dispute)
    } else if k == "resolve"@ {
        Some(TransactionType::Resolve)
    } else if k == "chargeback"@ {
        Some(TransactionType::Chargeback)
    } else {
        None
    }
}

/// The transaction that a row stands for: a deposit or withdrawal needs an
/// amount that reads; a dispute, resolve or chargeback ignores the amount
/// column; an unknown type gives none.
pub open spec fn row_transaction(row: CsvRow) -> Option<Transaction> {
    match row_kind(row.tx_type@) {
        None => None,
        Some(kind) => {
            if kind == TransactionType::Deposit || kind == TransactionType::Withdrawal {
                match row.amount {
                    None => None,
                    Some(text) => match amount_text_value(trim(text@)) {
                        None => None,
                        Some(v) => Some(
                            Transaction {
                                tx_type: kind,
                                client: row.client,
                                tx: row.tx,
                                amount: Some(Amount(v as i64)),
                            },
                        ),
                    },
                }
            } else {
                Some(Transaction { tx_type: kind, client: row.client, tx: row.tx, amount: None })
            }
        },
    }
}

/// Whether `v` spells the word `w`.
fn is_word(v: &Vec<char>, w: &str) -> (r: bool)
    ensures
        r == (v@ == w@),
{
    let wv = chars_of(w);
    chars_equal(v, &wv)
}

/// The transaction that a row stands for, if any; malformed rows give none.
pub fn parse_row(row: CsvRow) -> (r: Option<Transaction>)
    ensures
        r == row_transaction(row),
{
    let kind_chars = chars_of(row.tx_type.as_str());
    let k = trim_chars(&kind_chars);
    let tx_type = if is_word(&k, "deposit") {
        TransactionType::Deposit
    } else if is_word(&k, "withdrawal") {
        TransactionType::Withdrawal
    } else if is_word(&k, "dispute") {
        TransactionType::Dispute
    } else if is_word(&k, "resolve") {
        TransactionType::Resolve
    } else if is_word(&k, "chargeback") {
        TransactionType::Chargeback
    } else {
        return None;
    };
    let amount = if tx_type == TransactionType::Deposit || tx_type == TransactionType::Withdrawal {
        let text = match &row.amount {
            Some(t) => t,
            None => return None,
        };
        let text_chars = chars_of(text.as_str());
        let trimmed = string_of(&trim_chars(&text_chars));
        match Amount::parse(trimmed.as_str()) {
            Ok(a) => Some(a),
            Err(_) => return None,
        }
    } else {
        None
    };
    Some(Transaction { tx_type, client: row.client, tx: row.tx, amount })
}

} // verus!

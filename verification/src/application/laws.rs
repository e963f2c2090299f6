use vstd::prelude::*;
use crate::application::rejection::Rejection;
use crate::application::transaction_manager::{
    process_accounts,
    process_disputes,
    process_fits,
    process_outcome,
    process_transactions,
};
use crate::application::use_cases::chargeback::{
    chargeback_accounts,
    chargeback_fits,
    chargeback_outcome,
};
use crate::application::use_cases::deposit::{
    current_account,
    deposit_accounts,
    deposit_fits,
    deposit_outcome,
    deposit_transactions,
};
use crate::application::use_cases::dispute::{
    amount_of,
    dispute_accounts,
    dispute_disputes,
    dispute_fits,
    dispute_outcome,
};
use crate::application::use_cases::resolve::{
    resolve_accounts,
    resolve_fits,
    resolve_outcome,
    settle_disputes,
};
use crate::application::use_cases::withdrawal::{
    withdraw_accounts,
    withdraw_fits,
    withdraw_outcome,
    withdraw_transactions,
};
use crate::domain::account::{total_of, Account};
use crate::adapters::csv_reader::{row_kind, row_transaction, CsvRow};
use crate::domain::amount::{amount_text_value, fits_i64, Amount};
use crate::text::trim;
use crate::domain::transaction::{Transaction, TransactionType};

verus! {

/// Every account is saved under its own client id.
pub open spec fn keyed_by_client(accounts: Map<u16, Account>) -> bool {
    forall|c: u16| #[trigger] accounts.contains_key(c) ==> accounts[c].client == c
}

/// The manager changes the repositories as the use case of the
/// transaction's kind does, and gives what that use case gives.
pub proof fn manager_follows_use_cases(
    accounts: Map<u16, Account>,
    txs: Map<u32, Transaction>,
    disputes: Set<u32>,
    tx: Transaction,
)
    ensures
        (tx.tx_type == TransactionType::Deposit && tx.amount is Some) ==> {
            let x = tx.amount->0;
            &&& process_fits(accounts, txs, disputes, tx) == deposit_fits(accounts, txs, tx.client, tx.tx, x)
            &&& process_outcome(accounts, txs, disputes, tx) == deposit_outcome(accounts, txs, tx.client, tx.tx, x)
            &&& process_accounts(accounts, txs, disputes, tx) == deposit_accounts(accounts, txs, tx.client, tx.tx, x)
            &&& process_transactions(accounts, txs, disputes, tx) == deposit_transactions(accounts, txs, tx.client, tx.tx, x)
            &&& process_disputes(accounts, txs, disputes, tx) == disputes
        },
        (tx.tx_type == TransactionType::Withdrawal && tx.amount is Some) ==> {
            let x = tx.amount->0;
            &&& process_fits(accounts, txs, disputes, tx) == withdraw_fits(accounts, txs, tx.client, tx.tx, x)
            &&& process_outcome(accounts, txs, disputes, tx) == withdraw_outcome(accounts, txs, tx.client, tx.tx, x)
            &&& process_accounts(accounts, txs, disputes, tx) == withdraw_accounts(accounts, txs, tx.client, tx.tx, x)
            &&& process_transactions(accounts, txs, disputes, tx) == withdraw_transactions(accounts, txs, tx.client, tx.tx, x)
            &&& process_disputes(accounts, txs, disputes, tx) == disputes
        },
        tx.tx_type == TransactionType::Dispute ==> {
            &&& process_fits(accounts, txs, disputes, tx) == dispute_fits(accounts, txs, tx.client, tx.tx)
            &&& process_outcome(accounts, txs, disputes, tx) == dispute_outcome(accounts, txs, tx.client, tx.tx)
            &&& process_accounts(accounts, txs, disputes, tx) == dispute_accounts(accounts, txs, tx.client, tx.tx)
            &&& process_transactions(accounts, txs, disputes, tx) == txs
            &&& process_disputes(accounts, txs, disputes, tx) == dispute_disputes(accounts, txs, disputes, tx.client, tx.tx)
        },
        tx.tx_type == TransactionType::Resolve ==> {
            &&& process_fits(accounts, txs, disputes, tx) == resolve_fits(accounts, txs, disputes, tx.client, tx.tx)
            &&& process_outcome(accounts, txs, disputes, tx) == resolve_outcome(accounts, txs, disputes, tx.client, tx.tx)
            &&& process_accounts(accounts, txs, disputes, tx) == resolve_accounts(accounts, txs, disputes, tx.client, tx.tx)
            &&& process_transactions(accounts, txs, disputes, tx) == txs
            &&& process_disputes(accounts, txs, disputes, tx) == settle_disputes(accounts, txs, disputes, tx.client, tx.tx)
        },
        tx.tx_type == TransactionType::Chargeback ==> {
            &&& process_fits(accounts, txs, disputes, tx) == chargeback_fits(accounts, txs, disputes, tx.client, tx.tx)
            &&& process_outcome(accounts, txs, disputes, tx) == chargeback_outcome(accounts, txs, disputes, tx.client, tx.tx)
            &&& process_accounts(accounts, txs, disputes, tx) == chargeback_accounts(accounts, txs, disputes, tx.client, tx.tx)
            &&& process_transactions(accounts, txs, disputes, tx) == txs
            &&& process_disputes(accounts, txs, disputes, tx) == settle_disputes(accounts, txs, disputes, tx.client, tx.tx)
        },
        ((tx.tx_type == TransactionType::Deposit || tx.tx_type == TransactionType::Withdrawal)
            && tx.amount is None) ==> {
            &&& process_outcome(accounts, txs, disputes, tx) == Err::<Account, Rejection>(Rejection::MissingAmount)
            &&& process_accounts(accounts, txs, disputes, tx) == accounts
            &&& process_transactions(accounts, txs, disputes, tx) == txs
            &&& process_disputes(accounts, txs, disputes, tx) == disputes
        },
{
}

/// A frozen account rejects every transaction: processing a transaction of a
/// client whose account is locked is rejected (as `AccountFrozen`, unless it
/// is a deposit or withdrawal without an amount) and changes no account,
/// record or dispute.
pub proof fn frozen_account_rejects_all(
    accounts: Map<u16, Account>,
    txs: Map<u32, Transaction>,
    disputes: Set<u32>,
    tx: Transaction,
)
    requires
        accounts.contains_key(tx.client) && accounts[tx.client].locked,
    ensures
        process_outcome(accounts, txs, disputes, tx) is Err,
        (tx.amount is Some || (tx.tx_type != TransactionType::Deposit && tx.tx_type
            != TransactionType::Withdrawal)) ==> process_outcome(accounts, txs, disputes, tx)
            == Err::<Account, Rejection>(Rejection::AccountFrozen),
        process_accounts(accounts, txs, disputes, tx) == accounts,
        process_transactions(accounts, txs, disputes, tx) == txs,
        process_disputes(accounts, txs, disputes, tx) == disputes,
{
}

/// A deposit or withdrawal that reuses the id of a recorded transaction is
/// rejected as a duplicate and changes nothing (a frozen account rejects it
/// first).
pub proof fn duplicate_id_is_rejected(
    accounts: Map<u16, Account>,
    txs: Map<u32, Transaction>,
    disputes: Set<u32>,
    tx: Transaction,
)
    requires
        tx.tx_type == TransactionType::Deposit || tx.tx_type == TransactionType::Withdrawal,
        tx.amount is Some,
        txs.contains_key(tx.tx),
        !(accounts.contains_key(tx.client) && accounts[tx.client].locked),
    ensures
        process_outcome(accounts, txs, disputes, tx) == Err::<Account, Rejection>(
            Rejection::DuplicateTransaction,
        ),
        process_accounts(accounts, txs, disputes, tx) == accounts,
        process_transactions(accounts, txs, disputes, tx) == txs,
        process_disputes(accounts, txs, disputes, tx) == disputes,
{
}

/// Processing a transaction keeps every account saved under its own client id.
pub proof fn processing_keeps_accounts_keyed(
    accounts: Map<u16, Account>,
    txs: Map<u32, Transaction>,
    disputes: Set<u32>,
    tx: Transaction,
)
    requires
        keyed_by_client(accounts),
    ensures
        keyed_by_client(process_accounts(accounts, txs, disputes, tx)),
{
    let after = process_accounts(accounts, txs, disputes, tx);
    assert forall|c: u16| #[trigger] after.contains_key(c) implies after[c].client == c by {
        if accounts.contains_key(c) {
        }
    }
}

/// Processing a transaction changes no account but that of the client it names.
pub proof fn processing_touches_only_its_client(
    accounts: Map<u16, Account>,
    txs: Map<u32, Transaction>,
    disputes: Set<u32>,
    tx: Transaction,
    other: u16,
)
    requires
        keyed_by_client(accounts),
        other != tx.client,
    ensures
        process_accounts(accounts, txs, disputes, tx).contains_key(other) == accounts.contains_key(
            other,
        ),
        accounts.contains_key(other) ==> process_accounts(accounts, txs, disputes, tx)[other]
            == accounts[other],
{
    if accounts.contains_key(tx.client) {
        assert(accounts[tx.client].client == tx.client);
    }
}

/// Once an account is frozen it never changes again, whatever transaction
/// comes next.
pub proof fn frozen_account_never_changes(
    accounts: Map<u16, Account>,
    txs: Map<u32, Transaction>,
    disputes: Set<u32>,
    tx: Transaction,
    client: u16,
)
    requires
        keyed_by_client(accounts),
        accounts.contains_key(client) && accounts[client].locked,
    ensures
        process_accounts(accounts, txs, disputes, tx).contains_key(client),
        process_accounts(accounts, txs, disputes, tx)[client] == accounts[client],
{
    if client != tx.client {
        processing_touches_only_its_client(accounts, txs, disputes, tx, client);
    }
}

/// A resolve undoes the dispute before it: disputing a transaction that is
/// not under dispute, then resolving it, gives back the accounts, records and
/// disputes as they were.
pub proof fn resolve_undoes_dispute(
    accounts: Map<u16, Account>,
    txs: Map<u32, Transaction>,
    disputes: Set<u32>,
    client: u16,
    tx: u32,
)
    requires
        keyed_by_client(accounts),
        !disputes.contains(tx),
        ({
            let dispute = Transaction {
                tx_type: TransactionType::Dispute,
                client,
                tx,
                amount: None,
            };
            &&& process_fits(accounts, txs, disputes, dispute)
            &&& process_outcome(accounts, txs, disputes, dispute) is Ok
        }),
    ensures
        ({
            let dispute = Transaction {
                tx_type: TransactionType::Dispute,
                client,
                tx,
                amount: None,
            };
            let resolve = Transaction {
                tx_type: TransactionType::Resolve,
                client,
                tx,
                amount: None,
            };
            let a1 = process_accounts(accounts, txs, disputes, dispute);
            let t1 = process_transactions(accounts, txs, disputes, dispute);
            let d1 = process_disputes(accounts, txs, disputes, dispute);
            &&& process_fits(a1, t1, d1, resolve)
            &&& process_outcome(a1, t1, d1, resolve) is Ok
            &&& process_accounts(a1, t1, d1, resolve) == accounts
            &&& process_transactions(a1, t1, d1, resolve) == txs
            &&& process_disputes(a1, t1, d1, resolve) == disputes
        }),
{
    let dispute = Transaction { tx_type: TransactionType::Dispute, client, tx, amount: None };
    let resolve = Transaction { tx_type: TransactionType::Resolve, client, tx, amount: None };
    let a1 = process_accounts(accounts, txs, disputes, dispute);
    let d1 = process_disputes(accounts, txs, disputes, dispute);
    assert(accounts[client].client == client);
    assert(a1.contains_key(client));
    assert(d1.remove(tx) =~= disputes);
    assert(process_accounts(a1, txs, d1, resolve) =~= accounts);
}

/// What a read gives back of a write: an account saved under its client id is
/// what a lookup of that id then finds.
pub proof fn saved_account_is_found(accounts: Map<u16, Account>, account: Account)
    ensures
        accounts.insert(account.client, account).get(account.client) == Some(account),
        keyed_by_client(accounts) ==> keyed_by_client(accounts.insert(account.client, account)),
{
}

/// What a read gives back of a write: a transaction saved under its id is what
/// a lookup of that id then finds.
pub proof fn saved_transaction_is_found(txs: Map<u32, Transaction>, tx: Transaction)
    ensures
        txs.insert(tx.tx, tx).get(tx.tx) == Some(tx),
{
}

/// A transaction marked as disputed is under dispute until the dispute is removed.
pub proof fn marked_dispute_is_seen(disputes: Set<u32>, tx: u32)
    ensures
        disputes.insert(tx).contains(tx),
        !disputes.insert(tx).remove(tx).contains(tx),
{
}

/// A deposit that goes through raises the available funds, and so the total,
/// of the client by the amount, and leaves the held funds and the lock as
/// they were.
pub proof fn deposit_raises_total(
    accounts: Map<u16, Account>,
    txs: Map<u32, Transaction>,
    client: u16,
    tx: u32,
    amount: Amount,
)
    requires
        keyed_by_client(accounts),
        deposit_fits(accounts, txs, client, tx, amount),
        deposit_outcome(accounts, txs, client, tx, amount) is Ok,
    ensures
        ({
            let before = current_account(accounts, client);
            let after = deposit_accounts(accounts, txs, client, tx, amount)[client];
            &&& after.available@ == before.available@ + amount@
            &&& total_of(after) == total_of(before) + amount@
            &&& after.held == before.held
            &&& !after.locked
        }),
{
}

/// A withdrawal that goes through lowers the available funds, and so the
/// total, of the client by the amount, and leaves them at zero or more.
pub proof fn withdrawal_lowers_total(
    accounts: Map<u16, Account>,
    txs: Map<u32, Transaction>,
    client: u16,
    tx: u32,
    amount: Amount,
)
    requires
        keyed_by_client(accounts),
        withdraw_fits(accounts, txs, client, tx, amount),
        withdraw_outcome(accounts, txs, client, tx, amount) is Ok,
    ensures
        ({
            let before = current_account(accounts, client);
            let after = withdraw_accounts(accounts, txs, client, tx, amount)[client];
            &&& after.available@ == before.available@ - amount@
            &&& after.available@ >= 0
            &&& total_of(after) == total_of(before) - amount@
            &&& after.held == before.held
        }),
{
}

/// A dispute that goes through moves the disputed amount from available to
/// held and leaves the total of the account as it was.
pub proof fn dispute_keeps_total(
    accounts: Map<u16, Account>,
    txs: Map<u32, Transaction>,
    client: u16,
    tx: u32,
)
    requires
        keyed_by_client(accounts),
        dispute_fits(accounts, txs, client, tx),
        dispute_outcome(accounts, txs, client, tx) is Ok,
    ensures
        ({
            let before = accounts[client];
            let after = dispute_accounts(accounts, txs, client, tx)[client];
            &&& after.available@ == before.available@ - amount_of(txs, tx)@
            &&& after.held@ == before.held@ + amount_of(txs, tx)@
            &&& total_of(after) == total_of(before)
        }),
{
}

/// A resolve that goes through moves the disputed amount from held back to
/// available and leaves the total of the account as it was.
pub proof fn resolve_keeps_total(
    accounts: Map<u16, Account>,
    txs: Map<u32, Transaction>,
    disputes: Set<u32>,
    client: u16,
    tx: u32,
)
    requires
        keyed_by_client(accounts),
        resolve_fits(accounts, txs, disputes, client, tx),
        resolve_outcome(accounts, txs, disputes, client, tx) is Ok,
    ensures
        ({
            let before = accounts[client];
            let after = resolve_accounts(accounts, txs, disputes, client, tx)[client];
            &&& after.available@ == before.available@ + amount_of(txs, tx)@
            &&& after.held@ == before.held@ - amount_of(txs, tx)@
            &&& total_of(after) == total_of(before)
        }),
{
}

/// A chargeback that goes through takes the disputed amount from the held
/// funds, so the total drops by that amount, and freezes the account.
pub proof fn chargeback_lowers_total_and_freezes(
    accounts: Map<u16, Account>,
    txs: Map<u32, Transaction>,
    disputes: Set<u32>,
    client: u16,
    tx: u32,
)
    requires
        keyed_by_client(accounts),
        chargeback_fits(accounts, txs, disputes, client, tx),
        chargeback_outcome(accounts, txs, disputes, client, tx) is Ok,
    ensures
        ({
            let before = accounts[client];
            let after = chargeback_accounts(accounts, txs, disputes, client, tx)[client];
            &&& after.available == before.available
            &&& after.held@ == before.held@ - amount_of(txs, tx)@
            &&& total_of(after) == total_of(before) - amount_of(txs, tx)@
            &&& after.locked
        }),
{
}

/// A deposit to a client whose account is not locked, under an id not yet
/// recorded, goes through: the client's account (an empty one if it had
/// none) gains the amount in available funds, keeps its held funds, is saved
/// under the client id and given back; the deposit is recorded under its id as
/// a deposit of that client carrying exactly the deposited amount, and no
/// other record changes.
pub proof fn deposit_goes_through(
    accounts: Map<u16, Account>,
    txs: Map<u32, Transaction>,
    client: u16,
    tx: u32,
    amount: Amount,
)
    requires
        keyed_by_client(accounts),
        !(accounts.contains_key(client) && accounts[client].locked),
        !txs.contains_key(tx),
        fits_i64(
            (if accounts.contains_key(client) {
                accounts[client].available@
            } else {
                0
            }) + amount@,
        ),
    ensures
        ({
            let had = accounts.contains_key(client);
            let a = Account {
                client,
                available: Amount(
                    ((if had {
                        accounts[client].available@
                    } else {
                        0
                    }) + amount@) as i64,
                ),
                held: if had {
                    accounts[client].held
                } else {
                    Amount(0)
                },
                locked: false,
            };
            &&& deposit_fits(accounts, txs, client, tx, amount)
            &&& deposit_outcome(accounts, txs, client, tx, amount) == Ok::<Account, Rejection>(a)
            &&& deposit_accounts(accounts, txs, client, tx, amount) == accounts.insert(client, a)
            &&& deposit_transactions(accounts, txs, client, tx, amount) == txs.insert(
                tx,
                Transaction { tx_type: TransactionType::Deposit, client, tx, amount: Some(amount) },
            )
        }),
{
}

/// A withdrawal from a client whose account is not locked, under an id not
/// yet recorded, of at most the available funds (none for a client without
/// an account) goes through: the account loses the amount from its available
/// funds, keeps its held funds, is saved under the client id and given back;
/// the withdrawal is recorded under its id as a withdrawal of that client
/// carrying exactly the amount.
pub proof fn withdrawal_within_funds_goes_through(
    accounts: Map<u16, Account>,
    txs: Map<u32, Transaction>,
    client: u16,
    tx: u32,
    amount: Amount,
)
    requires
        keyed_by_client(accounts),
        !(accounts.contains_key(client) && accounts[client].locked),
        !txs.contains_key(tx),
        amount@ <= (if accounts.contains_key(client) {
            accounts[client].available@
        } else {
            0
        }),
        fits_i64(
            (if accounts.contains_key(client) {
                accounts[client].available@
            } else {
                0
            }) - amount@,
        ),
    ensures
        ({
            let had = accounts.contains_key(client);
            let a = Account {
                client,
                available: Amount(
                    ((if had {
                        accounts[client].available@
                    } else {
                        0
                    }) - amount@) as i64,
                ),
                held: if had {
                    accounts[client].held
                } else {
                    Amount(0)
                },
                locked: false,
            };
            &&& withdraw_fits(accounts, txs, client, tx, amount)
            &&& withdraw_outcome(accounts, txs, client, tx, amount) == Ok::<Account, Rejection>(a)
            &&& withdraw_accounts(accounts, txs, client, tx, amount) == accounts.insert(client, a)
            &&& withdraw_transactions(accounts, txs, client, tx, amount) == txs.insert(
                tx,
                Transaction { tx_type: TransactionType::Withdrawal, client, tx, amount: Some(amount) },
            )
        }),
{
}

/// A withdrawal of more than the available funds (none for a client without
/// an account), from an account that is not locked and under an id not yet
/// recorded, is refused for insufficient funds and changes nothing.
pub proof fn withdrawal_beyond_funds_is_refused(
    accounts: Map<u16, Account>,
    txs: Map<u32, Transaction>,
    client: u16,
    tx: u32,
    amount: Amount,
)
    requires
        !(accounts.contains_key(client) && accounts[client].locked),
        !txs.contains_key(tx),
        amount@ > (if accounts.contains_key(client) {
            accounts[client].available@
        } else {
            0
        }),
    ensures
        withdraw_outcome(accounts, txs, client, tx, amount) == Err::<Account, Rejection>(
            Rejection::InsufficientFunds,
        ),
        withdraw_accounts(accounts, txs, client, tx, amount) == accounts,
        withdraw_transactions(accounts, txs, client, tx, amount) == txs,
{
}

/// A dispute by a client with an account that is not locked, of a recorded
/// transaction that carries an amount, goes through whatever the available
/// funds: the amount moves from available to held (available may fall below
/// zero), the account is saved under the client id and given back, and the
/// transaction is put under dispute.
pub proof fn dispute_goes_through(
    accounts: Map<u16, Account>,
    txs: Map<u32, Transaction>,
    disputes: Set<u32>,
    client: u16,
    tx: u32,
)
    requires
        keyed_by_client(accounts),
        accounts.contains_key(client),
        !accounts[client].locked,
        txs.contains_key(tx),
        txs[tx].amount is Some,
        fits_i64(accounts[client].available@ - txs[tx].amount->0@),
        fits_i64(accounts[client].held@ + txs[tx].amount->0@),
    ensures
        ({
            let x = txs[tx].amount->0@;
            let a = Account {
                client,
                available: Amount((accounts[client].available@ - x) as i64),
                held: Amount((accounts[client].held@ + x) as i64),
                locked: false,
            };
            &&& dispute_fits(accounts, txs, client, tx)
            &&& dispute_outcome(accounts, txs, client, tx) == Ok::<Account, Rejection>(a)
            &&& dispute_accounts(accounts, txs, client, tx) == accounts.insert(client, a)
            &&& dispute_disputes(accounts, txs, disputes, client, tx) == disputes.insert(tx)
        }),
{
}

/// A resolve by a client with an account that is not locked, of a recorded
/// transaction under dispute that carries an amount, goes through: the amount
/// moves from held back to available, the account is saved under the client
/// id and given back, and the dispute ends.
pub proof fn resolve_goes_through(
    accounts: Map<u16, Account>,
    txs: Map<u32, Transaction>,
    disputes: Set<u32>,
    client: u16,
    tx: u32,
)
    requires
        keyed_by_client(accounts),
        accounts.contains_key(client),
        !accounts[client].locked,
        disputes.contains(tx),
        txs.contains_key(tx),
        txs[tx].amount is Some,
        fits_i64(accounts[client].available@ + txs[tx].amount->0@),
        fits_i64(accounts[client].held@ - txs[tx].amount->0@),
    ensures
        ({
            let x = txs[tx].amount->0@;
            let a = Account {
                client,
                available: Amount((accounts[client].available@ + x) as i64),
                held: Amount((accounts[client].held@ - x) as i64),
                locked: false,
            };
            &&& resolve_fits(accounts, txs, disputes, client, tx)
            &&& resolve_outcome(accounts, txs, disputes, client, tx) == Ok::<Account, Rejection>(a)
            &&& resolve_accounts(accounts, txs, disputes, client, tx) == accounts.insert(client, a)
            &&& settle_disputes(accounts, txs, disputes, client, tx) == disputes.remove(tx)
        }),
{
}

/// A chargeback by a client with an account that is not locked, of a
/// recorded transaction under dispute that carries an amount, goes through
/// whatever the available funds: the amount leaves the held funds, the
/// available funds stay, the account is locked, saved under the client id and
/// given back, and the dispute ends.
pub proof fn chargeback_goes_through(
    accounts: Map<u16, Account>,
    txs: Map<u32, Transaction>,
    disputes: Set<u32>,
    client: u16,
    tx: u32,
)
    requires
        keyed_by_client(accounts),
        accounts.contains_key(client),
        !accounts[client].locked,
        disputes.contains(tx),
        txs.contains_key(tx),
        txs[tx].amount is Some,
        fits_i64(accounts[client].held@ - txs[tx].amount->0@),
    ensures
        ({
            let x = txs[tx].amount->0@;
            let a = Account {
                client,
                available: accounts[client].available,
                held: Amount((accounts[client].held@ - x) as i64),
                locked: true,
            };
            &&& chargeback_fits(accounts, txs, disputes, client, tx)
            &&& chargeback_outcome(accounts, txs, disputes, client, tx) == Ok::<Account, Rejection>(a)
            &&& chargeback_accounts(accounts, txs, disputes, client, tx) == accounts.insert(client, a)
            &&& settle_disputes(accounts, txs, disputes, client, tx) == disputes.remove(tx)
        }),
{
}

/// A resolve or chargeback of a transaction that is not under dispute, on an
/// account that is not locked, is refused as not disputed and changes
/// nothing.
pub proof fn settling_undisputed_is_refused(
    accounts: Map<u16, Account>,
    txs: Map<u32, Transaction>,
    disputes: Set<u32>,
    client: u16,
    tx: u32,
)
    requires
        !(accounts.contains_key(client) && accounts[client].locked),
        !disputes.contains(tx),
    ensures
        resolve_outcome(accounts, txs, disputes, client, tx) == Err::<Account, Rejection>(
            Rejection::NotDisputed,
        ),
        chargeback_outcome(accounts, txs, disputes, client, tx) == Err::<Account, Rejection>(
            Rejection::NotDisputed,
        ),
        resolve_accounts(accounts, txs, disputes, client, tx) == accounts,
        chargeback_accounts(accounts, txs, disputes, client, tx) == accounts,
        settle_disputes(accounts, txs, disputes, client, tx) == disputes,
{
}

/// The `type` column is read by name, with surrounding white space ignored:
/// `deposit`, `withdrawal`, `dispute`, `resolve` and `chargeback` name the
/// kinds of the same names, and any other text names none.
pub proof fn row_kind_reads_the_names(s: Seq<char>)
    ensures
        row_kind(s) == Some(TransactionType::Deposit) <==> trim(s) == "deposit"@,
        row_kind(s) == Some(TransactionType::Withdrawal) <==> trim(s) == "withdrawal"@,
        row_kind(s) == Some(TransactionType::Dispute) <==> trim(s) == "dispute"@,
        row_kind(s) == Some(TransactionType::Resolve) <==> trim(s) == "resolve"@,
        row_kind(s) == Some(TransactionType::Chargeback) <==> trim(s) == "chargeback"@,
        row_kind(s) is None <==> (trim(s) != "deposit"@ && trim(s) != "withdrawal"@ && trim(s)
            != "dispute"@ && trim(s) != "resolve"@ && trim(s) != "chargeback"@),
{
    reveal_strlit("deposit");
    reveal_strlit("withdrawal");
    reveal_strlit("dispute");
    reveal_strlit("resolve");
    reveal_strlit("chargeback");
    let (d, w, di, r, c) = ("deposit"@, "withdrawal"@, "dispute"@, "resolve"@, "chargeback"@);
    assert(d.len() == 7 && di.len() == 7 && r.len() == 7 && w.len() == 10 && c.len() == 10);
    assert(d != di) by {
        assert(d[1] != di[1]);
    }
    assert(d != r) by {
        assert(d[0] != r[0]);
    }
    assert(di != r) by {
        assert(di[0] != r[0]);
    }
    assert(w != c) by {
        assert(w[0] != c[0]);
    }
}

/// The transaction a row stands for carries the row's client and id and the
/// kind its `type` column names; a deposit or withdrawal carries the amount
/// that the amount column reads as, the other kinds carry none. A row gives a
/// transaction exactly when its type names a kind and, for a deposit or
/// withdrawal, its amount column is there and reads as an amount.
pub proof fn row_keeps_client_id_and_amount(row: CsvRow)
    ensures
        match row_transaction(row) {
            Some(t) => {
                &&& t.client == row.client
                &&& t.tx == row.tx
                &&& row_kind(row.tx_type@) == Some(t.tx_type)
                &&& match t.amount {
                    Some(a) => {
                        &&& (t.tx_type == TransactionType::Deposit || t.tx_type
                            == TransactionType::Withdrawal)
                        &&& row.amount is Some
                        &&& amount_text_value(trim(row.amount->0@)) == Some(a@)
                    },
                    None => t.tx_type != TransactionType::Deposit && t.tx_type
                        != TransactionType::Withdrawal,
                }
            },
            None => true,
        },
        row_transaction(row) is Some <==> (row_kind(row.tx_type@) is Some && (row_kind(
            row.tx_type@,
        ) == Some(TransactionType::Deposit) || row_kind(row.tx_type@) == Some(
            TransactionType::Withdrawal,
        ) ==> row.amount is Some && amount_text_value(trim(row.amount->0@)) is Some)),
{
}

/// A dispute, resolve or chargeback (the last two of a transaction under
/// dispute) by a client whose account is not locked is refused, changing
/// nothing, as `TransactionNotFound` when the transaction is not recorded, else
/// as `AccountNotFound` when the client has no account, else as
/// `MissingAmount` when the transaction carries no amount.
pub proof fn dispute_refusals(
    accounts: Map<u16, Account>,
    txs: Map<u32, Transaction>,
    disputes: Set<u32>,
    client: u16,
    tx: u32,
)
    requires
        !(accounts.contains_key(client) && accounts[client].locked),
    ensures
        ({
            let expected = if !txs.contains_key(tx) {
                Some(Rejection::TransactionNotFound)
            } else if !accounts.contains_key(client) {
                Some(Rejection::AccountNotFound)
            } else if txs[tx].amount is None {
                Some(Rejection::MissingAmount)
            } else {
                None
            };
            expected matches Some(e) ==> {
                &&& dispute_outcome(accounts, txs, client, tx) == Err::<Account, Rejection>(e)
                &&& dispute_accounts(accounts, txs, client, tx) == accounts
                &&& dispute_disputes(accounts, txs, disputes, client, tx) == disputes
                &&& disputes.contains(tx) ==> {
                    &&& resolve_outcome(accounts, txs, disputes, client, tx) == Err::<
                        Account,
                        Rejection,
                    >(e)
                    &&& chargeback_outcome(accounts, txs, disputes, client, tx) == Err::<
                        Account,
                        Rejection,
                    >(e)
                    &&& resolve_accounts(accounts, txs, disputes, client, tx) == accounts
                    &&& chargeback_accounts(accounts, txs, disputes, client, tx) == accounts
                    &&& settle_disputes(accounts, txs, disputes, client, tx) == disputes
                }
            }
        }),
{
}

} // verus!

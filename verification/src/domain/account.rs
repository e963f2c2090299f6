use vstd::prelude::*;
use crate::domain::amount::{fits_i64, Amount};

verus! {

/// A client's balances: `available` can be withdrawn, `held` is under dispute.
#[derive(Debug, Clone, Copy, PartialEq, Eq, Structural)]
pub struct Account {
    pub client: u16,
    pub available: Amount,
    pub held: Amount,
    pub locked: bool,
}

/// A new, empty, unlocked account of `client`.
pub open spec fn new_account(client: u16) -> Account {
    Account { client, available: Amount(0), held: Amount(0), locked: false }
}

/// The funds of an account: what is available plus what is held.
pub open spec fn total_of(a: Account) -> int {
    a.available@ + a.held@
}

impl Account {
    pub fn new(client_id: u16) -> (a: Account)
        ensures
            a == new_account(client_id),
    {
        Account { client: client_id, available: Amount(0), held: Amount(0), locked: false }
    }

    /// The total funds, `available + held`.
    pub fn total(&self) -> (t: Amount)
        requires
            fits_i64(total_of(*self)),
        ensures
            t@ == total_of(*self),
    {
        self.available + self.held
    }
}

} // verus!

use vstd::prelude::*;
use std::collections::HashMap;
use vstd::std_specs::iter::IteratorSpec;
use crate::domain::account::Account;
use crate::ports::{lists_accounts, AccountRepository};

verus! {

broadcast use vstd::std_specs::hash::group_hash_axioms;

/// Accounts kept in memory, in a hash map keyed by client id.
pub struct InMemoryAccountRepo {
    accounts: HashMap<u16, Account>,
}

impl InMemoryAccountRepo {
    pub fn new() -> (r: Self)
        ensures
            r.accounts() == Map::<u16, Account>::empty(),
    {
        InMemoryAccountRepo { accounts: HashMap::new() }
    }

    /// The account saved under `client_id`, if any.
    pub fn get(&self, client_id: u16) -> (found: Option<&Account>)
        ensures
            match found {
                Some(a) => self.accounts().get(client_id) == Some(*a),
                None => !self.accounts().contains_key(client_id),
            },
    {
        self.accounts.get(&client_id)
    }
}

impl AccountRepository for InMemoryAccountRepo {
    closed spec fn accounts(&self) -> Map<u16, Account> {
        self.accounts@
    }

    fn find_by_client_id(&self, client_id: u16) -> (found: Option<Account>) {
        match self.accounts.get(&client_id) {
            Some(a) => Some(*a),
            None => None,
        }
    }

    fn save(&mut self, account: Account) {
        self.accounts.insert(account.client, account);
    }

    fn all(&self) -> (all: Vec<Account>) {
        let mut all: Vec<Account> = Vec::new();
        let ghost m = self.accounts@;
        let ghost pairs = vstd::std_specs::hash::spec_hash_map_iter(&self.accounts).remaining();
        for pair in it: self.accounts.iter()
            invariant
                it.seq() == pairs,
                all@ == it.seq().take(it.index() as int).map_values(
                    |p: (&u16, &Account)| *p.1,
                ),
        {
            let (_, a) = pair;
            all.push(*a);
        }
        proof {
            let ids = pairs.map_values(|p: (&u16, &Account)| *p.0);
            assert(pairs.take(pairs.len() as int) =~= pairs);
            assert(all@ =~= ids.map_values(|id: u16| m[id]));
            assert(pairs.no_duplicates());
            assert forall|i: int, j: int|
                0 <= i < ids.len() && 0 <= j < ids.len() && i != j implies ids[i] != ids[j] by {
                if ids[i] == ids[j] {
                    assert(m.contains_key(*pairs[i].0));
                    assert(m.contains_key(*pairs[j].0));
                    assert(pairs[i] == pairs[j]);
                }
            }
            assert forall|k: u16| ids.to_set().contains(k) <==> m.dom().contains(k) by {
                if m.contains_key(k) {
                    assert(pairs.contains((&k, &m[k])));
                    let i = choose|i: int| 0 <= i < pairs.len() && pairs[i] == (&k, &m[k]);
                    assert(ids[i] == k);
                }
                if ids.to_set().contains(k) {
                    let i = choose|i: int| 0 <= i < ids.len() && ids[i] == k;
                    assert(m.contains_key(*pairs[i].0));
                }
            }
            assert(ids.to_set() =~= m.dom());
        }
        all
    }
}

} // verus!

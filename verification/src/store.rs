//! The keyed store of quota records.

use crate::types::{AccountId, Rate};
use std::collections::HashMap;
use vstd::prelude::*;

verus! {

broadcast use vstd::std_specs::hash::group_hash_axioms;

/// The record that `accounts` holds for `who`: the fresh record where it
/// holds none.
pub open spec fn record_of(accounts: Map<AccountId, Rate>, who: AccountId) -> Rate {
    if accounts.contains_key(who) {
        accounts[who]
    } else {
        Rate::fresh()
    }
}

/// The entry of `who` in `accounts`, if there is one.
pub open spec fn entry_of(accounts: Map<AccountId, Rate>, who: AccountId) -> Option<Rate> {
    if accounts.contains_key(who) {
        Some(accounts[who])
    } else {
        None
    }
}

/// `accounts` with the entry of `who` set to `entry`, or taken out where
/// `entry` is `None`.
pub open spec fn with_entry(
    accounts: Map<AccountId, Rate>,
    who: AccountId,
    entry: Option<Rate>,
) -> Map<AccountId, Rate> {
    match entry {
        Some(rate) => accounts.insert(who, rate),
        None => accounts.remove(who),
    }
}

/// Quota records by account.
pub struct AccountStore {
    accounts: HashMap<AccountId, Rate>,
}

impl View for AccountStore {
    type V = Map<AccountId, Rate>;

    closed spec fn view(&self) -> Map<AccountId, Rate> {
        self.accounts@
    }
}

impl AccountStore {
    /// A store without records.
    pub fn new() -> (store: Self)
        ensures
            store@ == Map::<AccountId, Rate>::empty(),
    {
        AccountStore { accounts: HashMap::new() }
    }

    /// Whether the store holds a record for `k`.
    pub fn contains_key(&self, k: AccountId) -> (found: bool)
        ensures
            found == self@.contains_key(k),
    {
        self.accounts.contains_key(&k)
    }

    /// The record of `k`, or the fresh record where the store holds none.
    pub fn get(&self, k: AccountId) -> (rate: Rate)
        ensures
            rate == record_of(self@, k),
    {
        match self.accounts.get(&k) {
            Some(rate) => *rate,
            None => Rate::default(),
        }
    }

    /// Sets the record of `k`, creating it where the store held none.
    pub fn insert(&mut self, k: AccountId, rate: Rate)
        ensures
            final(self)@ == old(self)@.insert(k, rate),
    {
        self.accounts.insert(k, rate);
    }

    /// Takes the record of `k` out of the store.
    pub fn remove(&mut self, k: AccountId)
        ensures
            final(self)@ == old(self)@.remove(k),
    {
        self.accounts.remove(&k);
    }

    /// Hands the entry of `k` to `f` and stores what `f` makes of it.
    ///
    /// Where `f` succeeds, the entry that it returns replaces the one of `k`
    /// (`None` takes the record out). Where `f` fails the store is unchanged.
    pub fn try_mutate_exists<R, E, F: FnOnce(Option<Rate>) -> Result<(Option<Rate>, R), E>>(
        &mut self,
        k: AccountId,
        f: F,
    ) -> (res: Result<R, E>)
        requires
            f.requires((entry_of(old(self)@, k),)),
        ensures
            match res {
                Ok(r) => exists|entry: Option<Rate>|
                    {
                        &&& f.ensures(
                            (entry_of(old(self)@, k),),
                            Ok::<(Option<Rate>, R), E>((entry, r)),
                        )
                        &&& final(self)@ == #[trigger] with_entry(old(self)@, k, entry)
                    },
                Err(e) => {
                    &&& f.ensures(
                        (entry_of(old(self)@, k),),
                        Err::<(Option<Rate>, R), E>(e),
                    )
                    &&& final(self)@ == old(self)@
                },
            },
    {
        let current: Option<Rate> = match self.accounts.get(&k) {
            Some(rate) => Some(*rate),
            None => None,
        };
        match f(current) {
            Ok((entry, r)) => {
                match entry {
                    Some(rate) => {
                        self.accounts.insert(k, rate);
                    },
                    None => {
                        self.accounts.remove(&k);
                    },
                }
                assert(self@ == with_entry(old(self)@, k, entry));
                Ok(r)
            },
            Err(e) => Err(e),
        }
    }
}

} // verus!

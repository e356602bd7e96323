//! The administrative surface: lifting and restoring the limits of one
//! account.

use crate::origin::{ensure_root, RawOrigin};
use crate::store::AccountStore;
use crate::types::{AccountId, Error, Rate, Status};
use vstd::prelude::*;

verus! {

/// What the host is to announce after a call that succeeded.
#[derive(Clone, Copy, Debug, PartialEq, Eq, Structural)]
pub enum Event {
    /// The status of `who` has been set to `status`.
    StatusChanged { who: AccountId, status: Status },
}

/// `accounts` with the status of `who` set to `status`, its counters and its
/// window kept.
pub open spec fn status_set(
    accounts: Map<AccountId, Rate>,
    who: AccountId,
    status: Status,
) -> Map<AccountId, Rate> {
    accounts.insert(who, accounts[who].with_status(status))
}

/// The administrative calls.
pub struct Pallet;

impl Pallet {
    /// Sets the status of a specific account.
    ///
    /// Only the root origin may do so, and only for an account that has a
    /// record. On success the status is set and the event to announce is
    /// handed back. On failure the store is left as it was.
    pub fn set_status(
        store: &mut AccountStore,
        origin: RawOrigin,
        who: AccountId,
        status: Status,
    ) -> (res: Result<Event, Error>)
        ensures
            origin != RawOrigin::Root ==> res == Err::<Event, Error>(Error::BadOrigin),
            origin == RawOrigin::Root && !old(store)@.contains_key(who) ==> res == Err::<
                Event,
                Error,
            >(Error::StatusNotChanged),
            origin == RawOrigin::Root && old(store)@.contains_key(who) ==> res == Ok::<
                Event,
                Error,
            >((Event::StatusChanged { who, status })),
            res is Ok ==> final(store)@ == status_set(old(store)@, who, status),
            res is Err ==> final(store)@ == old(store)@,
    {
        match ensure_root(origin) {
            Ok(()) => {},
            Err(e) => {
                return Err(e);
            },
        }
        let set = |account: Option<Rate>| -> (r: Result<(Option<Rate>, ()), Error>)
            ensures
                r == match account {
                    Some(rate) => Ok::<(Option<Rate>, ()), Error>(
                        (Some(rate.with_status(status)), ()),
                    ),
                    None => Err::<(Option<Rate>, ()), Error>(Error::StatusNotChanged),
                },
            {
                match account {
                    Some(rate) => {
                        let mut rate: Rate = rate;
                        rate.status = status;
                        Ok((Some(rate), ()))
                    },
                    None => Err(Error::StatusNotChanged),
                }
            };
        match store.try_mutate_exists(who, set) {
            Ok(()) => Ok(Event::StatusChanged { who, status }),
            Err(e) => Err(e),
        }
    }
}

} // verus!

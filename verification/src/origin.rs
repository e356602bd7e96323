//! Who stands behind a call, as the host has resolved it.

use crate::types::{AccountId, Error};
use vstd::prelude::*;

verus! {

/// The resolved origin of a call.
#[derive(Clone, Copy, Debug, PartialEq, Eq, Structural)]
pub enum RawOrigin {
    /// The system itself: the highest privilege.
    Root,
    /// An identified account.
    Signed(AccountId),
    /// Nobody: the call carries no signature.
    Unsigned,
}

impl RawOrigin {
    /// The account that is metered for a call of this origin, if any.
    pub open spec fn signer(self) -> Option<AccountId> {
        match self {
            RawOrigin::Signed(who) => Some(who),
            _ => None,
        }
    }
}

impl From<Option<AccountId>> for RawOrigin {
    /// The signed origin of `who`, or the unsigned origin where there is none.
    fn from(who: Option<AccountId>) -> (origin: RawOrigin) {
        match who {
            Some(who) => RawOrigin::Signed(who),
            None => RawOrigin::Unsigned,
        }
    }
}

impl vstd::std_specs::convert::FromSpecImpl<Option<AccountId>> for RawOrigin {
    open spec fn obeys_from_spec() -> bool {
        true
    }

    open spec fn from_spec(who: Option<AccountId>) -> RawOrigin {
        match who {
            Some(who) => RawOrigin::Signed(who),
            None => RawOrigin::Unsigned,
        }
    }
}

/// The account behind a signed origin; `BadOrigin` for every other origin.
pub fn ensure_signed(origin: RawOrigin) -> (res: Result<AccountId, Error>)
    ensures
        res == match origin.signer() {
            Some(who) => Ok::<AccountId, Error>(who),
            None => Err::<AccountId, Error>(Error::BadOrigin),
        },
{
    match origin {
        RawOrigin::Signed(who) => Ok(who),
        _ => Err(Error::BadOrigin),
    }
}

/// Passes the root origin; `BadOrigin` for every other origin.
pub fn ensure_root(origin: RawOrigin) -> (res: Result<(), Error>)
    ensures
        res == if origin == RawOrigin::Root {
            Ok::<(), Error>(())
        } else {
            Err::<(), Error>(Error::BadOrigin)
        },
{
    match origin {
        RawOrigin::Root => Ok(()),
        _ => Err(Error::BadOrigin),
    }
}

} // verus!

//! The admission controller: check, reserve and commit around a transaction.

use crate::convert::{capped, saturated_into_u32};
use crate::limiter::RateLimiter;
use crate::origin::{ensure_signed, RawOrigin};
use crate::store::{record_of, AccountStore};
use crate::types::{AccountId, BlockNumber, Config, Error, Rate};
use vstd::prelude::*;

verus! {

/// The size that a transaction of `len` bytes is metered with: `len`, held at
/// `u32::MAX`.
pub open spec fn metered_size(len: usize) -> u32 {
    capped(len as int) as u32
}

/// The size that a transaction of `len` bytes is metered with. A length that
/// no `u32` holds counts as `u32::MAX`, so that it is never taken for a small
/// one.
pub fn metered(len: usize) -> (size: u32)
    ensures
        size == metered_size(len),
{
    saturated_into_u32(len as u64)
}

/// `accounts` after the transaction of `who` was committed: the record of
/// `who` has taken the transaction in, and nothing changes where the
/// transaction has no account behind it.
pub open spec fn committed(
    accounts: Map<AccountId, Rate>,
    who: Option<AccountId>,
    now: BlockNumber,
    len: usize,
    config: Config,
) -> Map<AccountId, Rate> {
    match who {
        Some(who) => accounts.insert(
            who,
            record_of(accounts, who).after_admission(now, metered_size(len), config),
        ),
        None => accounts,
    }
}

/// Proof that a transaction passed the check. It carries the account that the
/// transaction is metered on, if it has one.
#[derive(Debug)]
pub struct Val {
    who: Option<AccountId>,
}

impl View for Val {
    type V = Option<AccountId>;

    closed spec fn view(&self) -> Option<AccountId> {
        self.who
    }
}

impl Val {
    /// The account that the transaction is metered on, if it has one.
    pub fn who(&self) -> (who: Option<AccountId>)
        ensures
            who == self@,
    {
        self.who
    }
}

/// Proof that a checked transaction is about to run: what is owed a commit.
/// It carries the account of the token that it was made from.
#[derive(Debug)]
pub struct Pre {
    who: Option<AccountId>,
}

impl View for Pre {
    type V = Option<AccountId>;

    closed spec fn view(&self) -> Option<AccountId> {
        self.who
    }
}

impl Pre {
    /// The account that the transaction is metered on, if it has one.
    pub fn who(&self) -> (who: Option<AccountId>)
        ensures
            who == self@,
    {
        self.who
    }
}

/// The admission controller. It owns no record: it reads and writes those of
/// the store that it is handed.
#[derive(Clone, Copy, Debug, PartialEq, Eq, Structural)]
pub struct CheckRate {
    config: Config,
}

impl View for CheckRate {
    type V = Config;

    closed spec fn view(&self) -> Config {
        self.config
    }
}

impl CheckRate {
    /// A controller that enforces `config`.
    pub fn new(config: Config) -> (checker: Self)
        ensures
            checker@ == config,
    {
        CheckRate { config }
    }

    /// The limits that this controller enforces.
    pub fn config(&self) -> (config: Config)
        ensures
            config == self@,
    {
        self.config
    }

    /// Whether a transaction of `len` bytes from `origin` passes the check at
    /// `now`: one without an account behind it always does, another where the
    /// record of its account admits it.
    pub open spec fn admits(
        &self,
        accounts: Map<AccountId, Rate>,
        origin: RawOrigin,
        now: BlockNumber,
        len: usize,
    ) -> bool {
        match origin.signer() {
            Some(who) => record_of(accounts, who).admits(now, metered_size(len), self@),
            None => true,
        }
    }

    /// Validates a transaction based on rate limits.
    ///
    /// The store is only read. A transaction that does not pass is rejected
    /// with `ExhaustsResources`.
    pub fn validate(
        &self,
        store: &AccountStore,
        origin: RawOrigin,
        now: BlockNumber,
        len: usize,
    ) -> (res: Result<Val, Error>)
        ensures
            self.admits(store@, origin, now, len) ==> {
                &&& res matches Ok(val)
                &&& val@ == origin.signer()
            },
            !self.admits(store@, origin, now, len) ==> res == Err::<Val, Error>(
                Error::ExhaustsResources,
            ),
    {
        let who: AccountId = match ensure_signed(origin) {
            Ok(who) => who,
            Err(_) => {
                return Ok(Val { who: None });
            },
        };
        let account_data: Rate = store.get(who);
        if account_data.is_allowed(now, metered(len), &self.config) {
            Ok(Val { who: Some(who) })
        } else {
            Err(Error::ExhaustsResources)
        }
    }

    /// Prepares data for post-dispatch processing: the account that the token
    /// carries goes on as it is. This step never fails and touches no record.
    pub fn prepare(&self, val: Val) -> (res: Result<Pre, Error>)
        ensures
            res matches Ok(pre) && pre@ == val@,
    {
        Ok(Pre { who: val.who })
    }

    /// Updates rate limits after transaction execution.
    ///
    /// The record of the account that `pre` carries takes the transaction in,
    /// whatever the transaction itself came to: its result is not looked at.
    /// Without an account nothing changes.
    pub fn post_dispatch_details<R, E>(
        &self,
        pre: Pre,
        store: &mut AccountStore,
        now: BlockNumber,
        len: usize,
        _result: &Result<R, E>,
    ) -> (res: Result<(), Error>)
        ensures
            res == Ok::<(), Error>(()),
            final(store)@ == committed(old(store)@, pre@, now, len, self@),
    {
        if let Some(who) = pre.who {
            let mut account_data: Rate = store.get(who);
            account_data.update_rate(now, metered(len), &self.config);
            store.insert(who, account_data);
        }
        Ok(())
    }

    /// Runs the three phases around `work`, the transaction itself.
    ///
    /// A transaction that does not pass the check is rejected before `work`
    /// runs, and the store is left as it was. One that passes is committed
    /// once `work` has run, whether `work` succeeded or not, and the outcome
    /// of `work` is handed back.
    pub fn run<R, E, F: FnOnce() -> Result<R, E>>(
        &self,
        store: &mut AccountStore,
        origin: RawOrigin,
        now: BlockNumber,
        len: usize,
        work: F,
    ) -> (res: Result<Result<R, E>, Error>)
        requires
            work.requires(()),
        ensures
            self.admits(old(store)@, origin, now, len) ==> {
                &&& res matches Ok(outcome)
                &&& work.ensures((), outcome)
                &&& final(store)@ == committed(old(store)@, origin.signer(), now, len, self@)
            },
            !self.admits(old(store)@, origin, now, len) ==> {
                &&& res == Err::<Result<R, E>, Error>(Error::ExhaustsResources)
                &&& final(store)@ == old(store)@
            },
    {
        let val: Val = match self.validate(store, origin, now, len) {
            Ok(val) => val,
            Err(e) => {
                return Err(e);
            },
        };
        let pre: Pre = match self.prepare(val) {
            Ok(pre) => pre,
            Err(e) => {
                return Err(e);
            },
        };
        let outcome: Result<R, E> = work();
        match self.post_dispatch_details(pre, store, now, len, &outcome) {
            Ok(()) => Ok(outcome),
            Err(e) => Err(e),
        }
    }
}

} // verus!

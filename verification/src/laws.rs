//! What holds of the engine on every input: of the window policy over every
//! record, block and size, of the commit over every store, and of the
//! administrative call over every account that has a record.

use crate::convert::capped;
use crate::extensions::{committed, CheckRate};
use crate::limiter::RateLimiter;
use crate::origin::RawOrigin;
use crate::pallet::status_set;
use crate::store::record_of;
use crate::types::{AccountId, BlockNumber, Config, Rate, Status};
use vstd::prelude::*;

verus! {

/// One admission: the block at which it is made and the size that it takes.
pub type Admission = (BlockNumber, u32);

/// The sizes of `admissions`, summed.
pub open spec fn total_size(admissions: Seq<Admission>) -> int
    decreases admissions.len(),
{
    if admissions.len() == 0 {
        0
    } else {
        total_size(admissions.drop_last()) + admissions.last().1
    }
}

/// The record after each of `admissions` has been taken in, in order.
pub open spec fn after_admissions(rate: Rate, admissions: Seq<Admission>, config: Config) -> Rate
    decreases admissions.len(),
{
    if admissions.len() == 0 {
        rate
    } else {
        after_admissions(rate, admissions.drop_last(), config).after_admission(
            admissions.last().0,
            admissions.last().1,
            config,
        )
    }
}

/// The admission that follows an elapsed window opens a new one at `now`,
/// which holds that admission alone. The status is kept.
pub proof fn lemma_elapsed_window_restarts(
    rate: Rate,
    now: BlockNumber,
    size: u32,
    config: Config,
)
    requires
        now >= rate.last_block + config.period,
    ensures
        rate.after_admission(now, size, config) == (Rate {
            last_block: now,
            tx_since_last: 1,
            size_since_last: size,
            status: rate.status,
        }),
{
}

/// Two admissions in a row, the first once the window has elapsed and the
/// second a full period or more after the first: the second opens a window of
/// its own, so the count stands at one after it.
pub proof fn lemma_window_restarts_again(
    rate: Rate,
    now1: BlockNumber,
    size1: u32,
    now2: BlockNumber,
    size2: u32,
    config: Config,
)
    requires
        now1 >= rate.last_block + config.period,
        now2 > now1,
        now2 - now1 >= config.period,
    ensures
        rate.after_admission(now1, size1, config).after_admission(
            now2,
            size2,
            config,
        ).tx_since_last == 1,
        rate.after_admission(now1, size1, config).after_admission(now2, size2, config).last_block
            == now2,
{
}

/// Two admissions in a row, the first once the window has elapsed and the
/// second less than a period after the first: the second falls into the
/// window that the first has opened, so the count stands at two after it.
pub proof fn lemma_window_keeps_counting(
    rate: Rate,
    now1: BlockNumber,
    size1: u32,
    now2: BlockNumber,
    size2: u32,
    config: Config,
)
    requires
        now1 >= rate.last_block + config.period,
        now2 > now1,
        now2 - now1 < config.period,
    ensures
        rate.after_admission(now1, size1, config).after_admission(
            now2,
            size2,
            config,
        ).tx_since_last == 2,
        rate.after_admission(now1, size1, config).after_admission(now2, size2, config).last_block
            == now1,
{
}

/// Inside a window an admission moves neither counter down and leaves the
/// start of the window where it was. Each counter grows by what was admitted,
/// held at `u32::MAX`.
pub proof fn lemma_counters_never_decrease(
    rate: Rate,
    now: BlockNumber,
    size: u32,
    config: Config,
)
    requires
        rate.in_window(now, config),
    ensures
        rate.after_admission(now, size, config).last_block == rate.last_block,
        rate.after_admission(now, size, config).tx_since_last >= rate.tx_since_last,
        rate.after_admission(now, size, config).size_since_last >= rate.size_since_last,
        rate.after_admission(now, size, config).tx_since_last == capped(rate.tx_since_last + 1),
        rate.after_admission(now, size, config).size_since_last == capped(
            rate.size_since_last + size,
        ),
{
}

/// However many admissions fall into one window and however large they are,
/// the size counter never wraps: after them it stands at what it held before
/// plus their sizes, held at `u32::MAX`, and so never below what it held
/// before. The same goes for the transaction counter.
pub proof fn lemma_size_saturates(rate: Rate, admissions: Seq<Admission>, config: Config)
    requires
        forall|i: int|
            0 <= i < admissions.len() ==> rate.in_window(#[trigger] admissions[i].0, config),
    ensures
        after_admissions(rate, admissions, config).last_block == rate.last_block,
        after_admissions(rate, admissions, config).status == rate.status,
        after_admissions(rate, admissions, config).size_since_last == capped(
            rate.size_since_last + total_size(admissions),
        ),
        after_admissions(rate, admissions, config).tx_since_last == capped(
            rate.tx_since_last + admissions.len(),
        ),
        after_admissions(rate, admissions, config).size_since_last >= rate.size_since_last,
        after_admissions(rate, admissions, config).tx_since_last >= rate.tx_since_last,
        total_size(admissions) >= 0,
    decreases admissions.len(),
{
    if admissions.len() > 0 {
        let earlier = admissions.drop_last();
        assert forall|i: int| 0 <= i < earlier.len() implies rate.in_window(
            #[trigger] earlier[i].0,
            config,
        ) by {
            assert(earlier[i] == admissions[i]);
        }
        lemma_size_saturates(rate, earlier, config);
        let before = after_admissions(rate, earlier, config);
        assert(before.in_window(admissions.last().0, config)) by {
            assert(rate.in_window(admissions[admissions.len() - 1].0, config));
        }
    }
}

/// While time does not run backwards, an admission never moves the start of
/// the window back.
pub proof fn lemma_window_start_never_decreases(
    rate: Rate,
    now: BlockNumber,
    size: u32,
    config: Config,
)
    requires
        now >= rate.last_block,
    ensures
        rate.after_admission(now, size, config).last_block >= rate.last_block,
        rate.after_admission(now, size, config).last_block <= now,
{
}

/// An account without limits is admitted whatever it asks for and whatever
/// it has used.
pub proof fn lemma_unlimited_is_admitted(rate: Rate, now: BlockNumber, size: u32, config: Config)
    requires
        rate.status == Status::Unlimited,
    ensures
        rate.admits(now, size, config),
{
}

/// Where a window admits one transaction at most, a limited account that has
/// just been admitted is turned down for the rest of the block, whatever the
/// size of its next transaction.
pub proof fn lemma_single_admission_exhausts(
    rate: Rate,
    now: BlockNumber,
    size: u32,
    next_size: u32,
    config: Config,
)
    requires
        rate.status == Status::Limited,
        config.max_tx_by_period <= 1,
        config.period > 0,
    ensures
        !rate.after_admission(now, size, config).admits(now, next_size, config),
{
}

/// An admission leaves the status of the record as it was: only the
/// administrative call changes it.
pub proof fn lemma_admission_keeps_status(
    rate: Rate,
    now: BlockNumber,
    size: u32,
    config: Config,
)
    ensures
        rate.after_admission(now, size, config).status == rate.status,
{
}

/// Committing a transaction touches the record of no other account, and
/// one without an account behind it touches none at all.
pub proof fn lemma_commit_is_local(
    accounts: Map<AccountId, Rate>,
    who: Option<AccountId>,
    now: BlockNumber,
    len: usize,
    config: Config,
    other: AccountId,
)
    requires
        who != Some(other),
    ensures
        committed(accounts, who, now, len, config).contains_key(other) == accounts.contains_key(
            other,
        ),
        record_of(committed(accounts, who, now, len, config), other) == record_of(accounts, other),
        who is None ==> committed(accounts, who, now, len, config) == accounts,
{
}

/// Where a window admits one transaction at most, the commit of a limited
/// account's transaction uses the window up: at the same block a second check
/// for that account fails, whatever came of the first transaction.
pub proof fn lemma_commit_exhausts_single_slot(
    checker: CheckRate,
    accounts: Map<AccountId, Rate>,
    who: AccountId,
    now: BlockNumber,
    len: usize,
    next_len: usize,
)
    requires
        checker@.max_tx_by_period <= 1,
        checker@.period > 0,
        record_of(accounts, who).status == Status::Limited,
    ensures
        !checker.admits(
            committed(accounts, Some(who), now, len, checker@),
            RawOrigin::Signed(who),
            now,
            next_len,
        ),
{
}

/// Lifting the limits of an account and restoring them afterwards leaves its
/// record as a single call that restores them would: window and counters are
/// untouched and the limits apply again. For an account that was limited
/// before, the store is back to what it was.
pub proof fn lemma_status_round_trip(
    accounts: Map<AccountId, Rate>,
    who: AccountId,
    now: BlockNumber,
    size: u32,
    config: Config,
)
    requires
        accounts.contains_key(who),
    ensures
        status_set(status_set(accounts, who, Status::Unlimited), who, Status::Limited)
            == status_set(accounts, who, Status::Limited),
        accounts[who].status == Status::Limited ==> status_set(
            status_set(accounts, who, Status::Unlimited),
            who,
            Status::Limited,
        ) == accounts,
        record_of(
            status_set(status_set(accounts, who, Status::Unlimited), who, Status::Limited),
            who,
        ).admits(now, size, config) == accounts[who].with_status(Status::Limited).admits(
            now,
            size,
            config,
        ),
        record_of(status_set(accounts, who, Status::Unlimited), who).admits(now, size, config),
{
    let lifted = status_set(accounts, who, Status::Unlimited);
    let restored = status_set(lifted, who, Status::Limited);
    assert(restored =~= status_set(accounts, who, Status::Limited));
    if accounts[who].status == Status::Limited {
        assert(restored =~= accounts);
    }
}

/// Setting a status touches the record of no other account.
pub proof fn lemma_status_set_is_local(
    accounts: Map<AccountId, Rate>,
    who: AccountId,
    status: Status,
    other: AccountId,
)
    requires
        other != who,
    ensures
        status_set(accounts, who, status).contains_key(other) == accounts.contains_key(other),
        record_of(status_set(accounts, who, status), other) == record_of(accounts, other),
{
}

} // verus!

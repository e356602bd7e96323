use feeless::extensions::metered;
use feeless::{
    AccountStore, CheckRate, Config, Error, Event, Pallet, Rate, RawOrigin, Status,
};

const MAX_TX_BY_PERIOD: u32 = 5;
const MAX_SIZE_BY_PERIOD: u32 = 40;
const PERIOD: u32 = 10;

fn check_rate() -> CheckRate {
    CheckRate::new(Config {
        max_tx_by_period: MAX_TX_BY_PERIOD,
        max_size_by_period: MAX_SIZE_BY_PERIOD,
        period: PERIOD,
    })
}

fn test_run(
    store: &mut AccountStore,
    origin: RawOrigin,
    block_number: u64,
    len: usize,
) -> Result<Result<(), ()>, Error> {
    check_rate().run(store, origin, block_number, len, || Ok(()))
}

#[test]
fn transaction_work() {
    let mut store = AccountStore::new();
    let len = 0_usize;
    assert_eq!(test_run(&mut store, Some(1).into(), 0, len), Ok(Ok(())));
}

#[test]
fn transaction_fail_after_quota() {
    let mut store = AccountStore::new();
    let len = 0_usize;
    for _ in 0..MAX_TX_BY_PERIOD {
        assert_eq!(test_run(&mut store, Some(1).into(), 0, len), Ok(Ok(())));
    }
    assert_eq!(
        test_run(&mut store, Some(1).into(), 0, len),
        Err(Error::ExhaustsResources)
    );
}

#[test]
fn transaction_success_after_period() {
    let mut store = AccountStore::new();
    let len = 0_usize;
    for _ in 0..MAX_TX_BY_PERIOD {
        assert_eq!(test_run(&mut store, Some(1).into(), 0, len), Ok(Ok(())));
    }
    assert_eq!(
        test_run(&mut store, Some(1).into(), 0, len),
        Err(Error::ExhaustsResources)
    );
    let block_number = u64::from(PERIOD);
    assert_eq!(
        test_run(&mut store, Some(1).into(), block_number, len),
        Ok(Ok(()))
    );
}

#[test]
fn too_big_fail() {
    let mut store = AccountStore::new();
    let block_number = u64::from(PERIOD);
    let len = MAX_SIZE_BY_PERIOD as usize;
    assert_eq!(
        test_run(&mut store, Some(1).into(), block_number, len),
        Err(Error::ExhaustsResources)
    );
}

#[test]
fn small_success_until_limit() {
    let mut store = AccountStore::new();
    let len = (MAX_SIZE_BY_PERIOD / 4) as usize;
    for _ in 0..3 {
        assert_eq!(test_run(&mut store, Some(1).into(), 0, len), Ok(Ok(())));
    }
    assert_eq!(
        test_run(&mut store, Some(1).into(), 0, len),
        Err(Error::ExhaustsResources)
    );
    let block_number = u64::from(PERIOD);
    assert_eq!(
        test_run(&mut store, Some(1).into(), block_number, len),
        Ok(Ok(()))
    );
}

#[test]
fn too_big_but_unsigned() {
    let mut store = AccountStore::new();
    let block_number = u64::from(PERIOD);
    let len = MAX_SIZE_BY_PERIOD as usize;
    assert_eq!(
        test_run(&mut store, RawOrigin::Root, block_number, len),
        Ok(Ok(()))
    );
}

#[test]
fn transaction_fail_after_quota_but_unsigned() {
    let mut store = AccountStore::new();
    let len = 0_usize;
    for _ in 0..MAX_TX_BY_PERIOD {
        assert_eq!(test_run(&mut store, RawOrigin::Root, 0, len), Ok(Ok(())));
    }
    assert_eq!(test_run(&mut store, RawOrigin::Root, 0, len), Ok(Ok(())));
}

#[test]
fn set_to_unlimited() {
    let mut store = AccountStore::new();
    let mut block_number = 1;
    store.insert(1, Rate::default());
    let before = store.get(1);
    assert_eq!(
        Pallet::set_status(&mut store, RawOrigin::Signed(1), 1, Status::Unlimited),
        Err(Error::BadOrigin)
    );
    assert_eq!(store.get(1), before);
    assert_eq!(
        Pallet::set_status(&mut store, RawOrigin::Root, 10_000, Status::Unlimited),
        Err(Error::StatusNotChanged)
    );
    assert_eq!(store.get(1).status, Status::Limited);
    assert_eq!(
        Pallet::set_status(&mut store, RawOrigin::Root, 1, Status::Unlimited),
        Ok(Event::StatusChanged { who: 1, status: Status::Unlimited })
    );
    assert_eq!(store.get(1).status, Status::Unlimited);

    let len = MAX_SIZE_BY_PERIOD as usize;
    assert_eq!(
        test_run(&mut store, RawOrigin::Signed(1), block_number, len),
        Ok(Ok(()))
    );

    block_number = u64::from(PERIOD);
    assert_eq!(
        Pallet::set_status(&mut store, RawOrigin::Root, 1, Status::default()),
        Ok(Event::StatusChanged { who: 1, status: Status::Limited })
    );
    assert_eq!(store.get(1).status, Status::Limited);
    assert_eq!(
        test_run(&mut store, RawOrigin::Signed(1), block_number, len),
        Err(Error::ExhaustsResources)
    );
}

#[test]
fn anonymous_transaction_leaves_no_record() {
    let mut store = AccountStore::new();
    assert_eq!(test_run(&mut store, RawOrigin::Unsigned, 3, 1_000), Ok(Ok(())));
    assert_eq!(test_run(&mut store, RawOrigin::Root, 3, 1_000), Ok(Ok(())));
    assert!(!store.contains_key(0));
    assert!(!store.contains_key(1));
}

#[test]
fn first_commit_creates_the_record() {
    let mut store = AccountStore::new();
    assert!(!store.contains_key(7));
    assert_eq!(test_run(&mut store, RawOrigin::Signed(7), 4, 12), Ok(Ok(())));
    assert!(store.contains_key(7));
    assert_eq!(
        store.get(7),
        Rate { last_block: 0, tx_since_last: 1, size_since_last: 12, status: Status::Limited }
    );
    assert!(!store.contains_key(8));
}

#[test]
fn validate_only_reads() {
    let mut store = AccountStore::new();
    store.insert(
        1,
        Rate { last_block: 2, tx_since_last: 3, size_since_last: 9, status: Status::Limited },
    );
    let ext = check_rate();
    let val = ext.validate(&store, RawOrigin::Signed(1), 5, 10).unwrap();
    assert_eq!(val.who(), Some(1));
    assert_eq!(
        store.get(1),
        Rate { last_block: 2, tx_since_last: 3, size_since_last: 9, status: Status::Limited }
    );
    let val = ext.validate(&store, RawOrigin::Root, 5, 10).unwrap();
    assert_eq!(val.who(), None);
    let val = ext.validate(&store, RawOrigin::Unsigned, 5, 10).unwrap();
    assert_eq!(val.who(), None);
}

#[test]
fn prepare_hands_the_token_on() {
    let store = AccountStore::new();
    let ext = check_rate();
    let val = ext.validate(&store, RawOrigin::Signed(42), 0, 1).unwrap();
    let pre = ext.prepare(val).unwrap();
    assert_eq!(pre.who(), Some(42));
    let val = ext.validate(&store, RawOrigin::Unsigned, 0, 1).unwrap();
    let pre = ext.prepare(val).unwrap();
    assert_eq!(pre.who(), None);
}

#[test]
fn rejected_transaction_changes_nothing_and_does_not_run() {
    let mut store = AccountStore::new();
    let full =
        Rate { last_block: 0, tx_since_last: 5, size_since_last: 0, status: Status::Limited };
    store.insert(1, full);
    let mut ran = false;
    let res: Result<Result<(), ()>, Error> =
        check_rate().run(&mut store, RawOrigin::Signed(1), 9, 0, || {
            ran = true;
            Ok(())
        });
    assert_eq!(res, Err(Error::ExhaustsResources));
    assert!(!ran);
    assert_eq!(store.get(1), full);
}

#[test]
fn commit_runs_when_the_transaction_fails() {
    let mut store = AccountStore::new();
    let ext = CheckRate::new(Config { max_tx_by_period: 1, max_size_by_period: 100, period: 10 });
    let res: Result<Result<(), &str>, Error> =
        ext.run(&mut store, RawOrigin::Signed(1), 3, 20, || Err("dispatch failed"));
    assert_eq!(res, Ok(Err("dispatch failed")));
    assert_eq!(
        store.get(1),
        Rate { last_block: 0, tx_since_last: 1, size_since_last: 20, status: Status::Limited }
    );
    let again: Result<Result<(), &str>, Error> =
        ext.run(&mut store, RawOrigin::Signed(1), 3, 20, || Ok(()));
    assert_eq!(again, Err(Error::ExhaustsResources));
}

#[test]
fn unconditional_commit_with_a_single_slot() {
    let mut store = AccountStore::new();
    let ext = CheckRate::new(Config { max_tx_by_period: 1, max_size_by_period: 40, period: 10 });
    let now = 4;
    let val = ext.validate(&store, RawOrigin::Signed(1), now, 0).unwrap();
    let pre = ext.prepare(val).unwrap();
    let outcome: Result<(), ()> = Ok(());
    assert_eq!(ext.post_dispatch_details(pre, &mut store, now, 0, &outcome), Ok(()));
    assert_eq!(
        ext.validate(&store, RawOrigin::Signed(1), now, 0).map(|val| val.who()),
        Err(Error::ExhaustsResources)
    );
}

#[test]
fn post_dispatch_without_account_is_a_no_op() {
    let mut store = AccountStore::new();
    store.insert(1, Rate::default());
    let ext = check_rate();
    let val = ext.validate(&store, RawOrigin::Root, 0, 5).unwrap();
    let pre = ext.prepare(val).unwrap();
    let outcome: Result<(), ()> = Err(());
    assert_eq!(ext.post_dispatch_details(pre, &mut store, 0, 5, &outcome), Ok(()));
    assert_eq!(store.get(1), Rate::default());
    assert!(!store.contains_key(0));
}

#[test]
fn fresh_window_oversize_boundary() {
    let store = AccountStore::new();
    let ext = CheckRate::new(Config { max_tx_by_period: 5, max_size_by_period: 40, period: 10 });
    assert_eq!(
        ext.validate(&store, RawOrigin::Signed(1), 10, 40).map(|val| val.who()),
        Err(Error::ExhaustsResources)
    );
    assert_eq!(
        ext.validate(&store, RawOrigin::Signed(1), 10, 39).map(|val| val.who()),
        Ok(Some(1))
    );
}

#[test]
fn window_boundary_transition() {
    let mut store = AccountStore::new();
    let ext = CheckRate::new(Config { max_tx_by_period: 5, max_size_by_period: 40, period: 10 });
    for n in 1..=5u32 {
        let res: Result<Result<(), ()>, Error> =
            ext.run(&mut store, RawOrigin::Signed(1), 0, 2, || Ok(()));
        assert_eq!(res, Ok(Ok(())));
        assert_eq!(store.get(1).tx_since_last, n);
        assert_eq!(store.get(1).size_since_last, 2 * n);
    }
    let sixth: Result<Result<(), ()>, Error> =
        ext.run(&mut store, RawOrigin::Signed(1), 0, 2, || Ok(()));
    assert_eq!(sixth, Err(Error::ExhaustsResources));
    let ninth_block: Result<Result<(), ()>, Error> =
        ext.run(&mut store, RawOrigin::Signed(1), 9, 2, || Ok(()));
    assert_eq!(ninth_block, Err(Error::ExhaustsResources));
    let next: Result<Result<(), ()>, Error> =
        ext.run(&mut store, RawOrigin::Signed(1), 10, 3, || Ok(()));
    assert_eq!(next, Ok(Ok(())));
    assert_eq!(
        store.get(1),
        Rate { last_block: 10, tx_since_last: 1, size_since_last: 3, status: Status::Limited }
    );
}

#[test]
fn oversized_length_is_not_wrapped() {
    let mut store = AccountStore::new();
    let ext = check_rate();
    let len = usize::MAX;
    assert_eq!(
        ext.validate(&store, RawOrigin::Signed(1), 0, len).map(|val| val.who()),
        Err(Error::ExhaustsResources)
    );
    store.insert(
        1,
        Rate { last_block: 0, tx_since_last: 0, size_since_last: 0, status: Status::Unlimited },
    );
    let res: Result<Result<(), ()>, Error> =
        ext.run(&mut store, RawOrigin::Signed(1), 0, len, || Ok(()));
    assert_eq!(res, Ok(Ok(())));
    let expected = u32::try_from(len).unwrap_or(u32::MAX);
    assert_eq!(store.get(1).size_since_last, expected);
}

#[test]
fn accounts_are_metered_apart() {
    let mut store = AccountStore::new();
    for _ in 0..MAX_TX_BY_PERIOD {
        assert_eq!(test_run(&mut store, RawOrigin::Signed(1), 0, 0), Ok(Ok(())));
    }
    assert_eq!(
        test_run(&mut store, RawOrigin::Signed(1), 0, 0),
        Err(Error::ExhaustsResources)
    );
    assert_eq!(test_run(&mut store, RawOrigin::Signed(2), 0, 0), Ok(Ok(())));
    assert_eq!(store.get(2).tx_since_last, 1);
    assert_eq!(store.get(1).tx_since_last, 5);
}

#[test]
fn origins_convert_from_options() {
    assert_eq!(RawOrigin::from(Some(1)), RawOrigin::Signed(1));
    assert_eq!(RawOrigin::from(None), RawOrigin::Unsigned);
    let mut store = AccountStore::new();
    assert_eq!(test_run(&mut store, None.into(), 0, 1_000), Ok(Ok(())));
    assert!(!store.contains_key(0));
}

#[test]
fn metered_size_is_held_at_the_widest() {
    assert_eq!(metered(0), 0);
    assert_eq!(metered(40), 40);
    assert_eq!(metered(u32::MAX as usize), u32::MAX);
    assert_eq!(metered(usize::MAX), u32::try_from(usize::MAX).unwrap_or(u32::MAX));
    if let Ok(len) = usize::try_from((1u64 << 32) + 5) {
        assert_eq!(metered(len), u32::MAX);
        let store = AccountStore::new();
        assert_eq!(
            check_rate().validate(&store, RawOrigin::Signed(1), 0, len).map(|val| val.who()),
            Err(Error::ExhaustsResources)
        );
    }
}

#[test]
fn controller_keeps_its_config() {
    let config = Config { max_tx_by_period: 2, max_size_by_period: 128, period: 5 };
    assert_eq!(CheckRate::new(config).config(), config);
}

use rusty_forecast::cache::CacheSlot;
use rusty_forecast::error::{FetchError, StoreError};
use rusty_forecast::orchestrator::{plan, tick_order, Action, Bootstrap, Command, Pending, Refresher};
use rusty_forecast::staleness::SourceKind;
use rusty_forecast::timestamp::Timestamp;

const T0: i64 = 1_700_000_000;

fn at(offset: i64) -> Timestamp {
    Timestamp::from_secs(T0 + offset)
}

/// A refresher of the hourly source that holds `records`, fetched at `T0`.
fn filled(records: Vec<u32>) -> Refresher<u32> {
    let mut refresher = Refresher::new(SourceKind::Hourly);
    assert_eq!(refresher.on_tick(at(-1)), Command::Fetch);
    assert_eq!(refresher.on_fetched(Ok(records.clone()), at(0)), Command::Persist(records));
    refresher
}

#[test]
fn a_pass_visits_instant_then_hourly_then_daily() {
    assert_eq!(tick_order(), [SourceKind::Instant, SourceKind::Hourly, SourceKind::Daily]);
}

#[test]
fn stale_data_is_fetched_whether_or_not_the_slot_is_empty() {
    let mut slot: CacheSlot<u32> = CacheSlot::new();
    assert_eq!(plan(&slot, SourceKind::Daily, at(0)), Action::FetchAndPersist);
    slot.write(vec![1], Some(at(0)));
    assert_eq!(plan(&slot, SourceKind::Daily, at(86_401)), Action::FetchAndPersist);
}

#[test]
fn fresh_data_in_an_empty_slot_is_read_from_storage() {
    let mut slot: CacheSlot<u32> = CacheSlot::new();
    slot.seed(at(0));
    assert_eq!(plan(&slot, SourceKind::Daily, at(10)), Action::BootstrapFromStorage);
    assert_eq!(plan(&slot, SourceKind::Daily, at(86_400)), Action::BootstrapFromStorage);
    assert_eq!(plan(&slot, SourceKind::Daily, at(86_401)), Action::FetchAndPersist);
}

#[test]
fn fresh_data_in_a_filled_slot_is_left_alone() {
    let mut slot: CacheSlot<u32> = CacheSlot::new();
    slot.write(vec![1], Some(at(0)));
    assert_eq!(plan(&slot, SourceKind::Instant, at(0)), Action::Noop);
    assert_eq!(plan(&slot, SourceKind::Instant, at(1_800)), Action::Noop);
    assert_eq!(plan(&slot, SourceKind::Instant, Timestamp { secs: T0 + 1_800, nanos: 1 }), Action::FetchAndPersist);
    assert_eq!(plan(&slot, SourceKind::Hourly, at(1_801)), Action::Noop);
}

#[test]
fn a_new_refresher_is_idle_empty_and_stale() {
    let refresher: Refresher<u32> = Refresher::new(SourceKind::Daily);
    assert_eq!(refresher.kind(), SourceKind::Daily);
    assert_eq!(refresher.pending(), Pending::Idle);
    assert_eq!(refresher.last_refreshed_at(), Timestamp::min());
    assert!(refresher.read().is_empty());
    assert!(refresher.slot().is_empty());
    assert_eq!(refresher.plan(at(0)), Action::FetchAndPersist);
}

#[test]
fn a_successful_fetch_installs_the_records_and_the_time() {
    let mut refresher: Refresher<u32> = Refresher::new(SourceKind::Hourly);
    assert_eq!(refresher.on_tick(at(0)), Command::Fetch);
    assert_eq!(refresher.pending(), Pending::Fetching);
    let command = refresher.on_fetched(Ok(vec![10, 20, 30]), at(4));
    assert_eq!(command, Command::Persist(vec![10, 20, 30]));
    assert_eq!(refresher.read(), vec![10, 20, 30]);
    assert_eq!(refresher.last_refreshed_at(), at(4));
    assert_eq!(refresher.pending(), Pending::Idle);
}

#[test]
fn a_failed_fetch_changes_nothing_but_ends_the_call() {
    for error in [FetchError::Transport, FetchError::Status, FetchError::Decode] {
        let mut refresher = filled(vec![1, 2]);
        assert_eq!(refresher.on_tick(at(28_801)), Command::Fetch);
        assert_eq!(refresher.on_fetched(Err(error), at(28_805)), Command::Nothing);
        assert_eq!(refresher.read(), vec![1, 2]);
        assert_eq!(refresher.last_refreshed_at(), at(0));
        assert_eq!(refresher.pending(), Pending::Idle);
        // the next pass tries again
        assert_eq!(refresher.on_tick(at(28_801 + 900)), Command::Fetch);
    }
}

#[test]
fn a_failed_first_fetch_leaves_the_slot_empty_and_stale() {
    let mut refresher: Refresher<u32> = Refresher::new(SourceKind::Instant);
    assert_eq!(refresher.on_tick(at(0)), Command::Fetch);
    assert_eq!(refresher.on_fetched(Err(FetchError::Transport), at(1)), Command::Nothing);
    assert!(refresher.read().is_empty());
    assert_eq!(refresher.last_refreshed_at(), Timestamp::min());
    assert_eq!(refresher.on_tick(at(900)), Command::Fetch);
}

#[test]
fn a_fetch_that_returns_no_records_still_counts_as_a_refresh() {
    let mut refresher: Refresher<u32> = Refresher::new(SourceKind::Hourly);
    assert_eq!(refresher.on_tick(at(0)), Command::Fetch);
    assert_eq!(refresher.on_fetched(Ok(vec![]), at(1)), Command::Persist(vec![]));
    assert!(refresher.read().is_empty());
    assert_eq!(refresher.last_refreshed_at(), at(1));
    // fresh and empty: the next pass turns to storage
    assert_eq!(refresher.on_tick(at(900)), Command::LoadRecent(25));
}

#[test]
fn no_second_call_is_started_while_one_is_pending() {
    let mut refresher: Refresher<u32> = Refresher::new(SourceKind::Hourly);
    assert_eq!(refresher.on_tick(at(0)), Command::Fetch);
    assert_eq!(refresher.on_tick(at(900)), Command::Nothing);
    assert_eq!(refresher.on_tick(at(1_800)), Command::Nothing);
    assert_eq!(refresher.pending(), Pending::Fetching);
    assert_eq!(refresher.on_fetched(Ok(vec![1]), at(1_801)), Command::Persist(vec![1]));

    let mut refresher: Refresher<u32> = Refresher::new(SourceKind::Hourly);
    refresher.on_probed(Ok(at(0)));
    assert_eq!(refresher.on_tick(at(1)), Command::LoadRecent(25));
    assert_eq!(refresher.on_tick(at(30_000)), Command::Nothing);
    assert_eq!(refresher.pending(), Pending::Loading);
}

#[test]
fn an_answer_that_was_not_asked_for_is_ignored() {
    let mut refresher = filled(vec![1, 2]);
    assert_eq!(refresher.on_fetched(Ok(vec![9]), at(5)), Command::Nothing);
    assert_eq!(refresher.on_loaded(Ok(vec![8])), Bootstrap::Unasked);
    assert_eq!(refresher.read(), vec![1, 2]);
    assert_eq!(refresher.last_refreshed_at(), at(0));
    assert_eq!(refresher.pending(), Pending::Idle);

    // a load answer while a fetch is pending, and the other way round
    assert_eq!(refresher.on_tick(at(28_801)), Command::Fetch);
    assert_eq!(refresher.on_loaded(Ok(vec![8])), Bootstrap::Unasked);
    assert_eq!(refresher.pending(), Pending::Fetching);
    assert_eq!(refresher.read(), vec![1, 2]);

    let mut loading: Refresher<u32> = Refresher::new(SourceKind::Daily);
    loading.on_probed(Ok(at(0)));
    assert_eq!(loading.on_tick(at(1)), Command::LoadRecent(8));
    assert_eq!(loading.on_fetched(Ok(vec![9]), at(2)), Command::Nothing);
    assert_eq!(loading.pending(), Pending::Loading);
    assert!(loading.read().is_empty());
    assert_eq!(loading.last_refreshed_at(), at(0));
}

#[test]
fn a_bootstrap_fills_the_slot_and_keeps_the_refresh_time() {
    let mut refresher: Refresher<u32> = Refresher::new(SourceKind::Daily);
    refresher.on_probed(Ok(at(0)));
    assert_eq!(refresher.on_tick(at(3_600)), Command::LoadRecent(8));
    assert_eq!(refresher.on_loaded(Ok(vec![5, 6, 7])), Bootstrap::Filled);
    assert_eq!(refresher.read(), vec![5, 6, 7]);
    assert_eq!(refresher.last_refreshed_at(), at(0));
    assert_eq!(refresher.pending(), Pending::Idle);
    assert_eq!(refresher.on_tick(at(4_500)), Command::Nothing);
    // still due for a fetch a day after the seeded time
    assert_eq!(refresher.on_tick(at(86_401)), Command::Fetch);
}

#[test]
fn an_empty_or_failed_bootstrap_is_tried_again() {
    let cases = [
        (Ok(vec![]), Bootstrap::BootstrapEmpty),
        (Err(StoreError::Connection), Bootstrap::Failed(StoreError::Connection)),
        (Err(StoreError::Query), Bootstrap::Failed(StoreError::Query)),
        (Err(StoreError::RowDecode), Bootstrap::Failed(StoreError::RowDecode)),
    ];
    for (outcome, expected) in cases {
        let mut refresher: Refresher<u32> = Refresher::new(SourceKind::Hourly);
        refresher.on_probed(Ok(at(0)));
        assert_eq!(refresher.on_tick(at(10)), Command::LoadRecent(25));
        assert_eq!(refresher.on_loaded(outcome), expected);
        assert!(refresher.read().is_empty());
        assert_eq!(refresher.last_refreshed_at(), at(0));
        assert_eq!(refresher.pending(), Pending::Idle);
        assert_eq!(refresher.on_tick(at(910)), Command::LoadRecent(25));
    }
}

#[test]
fn the_probe_seeds_a_slot_that_was_never_refreshed() {
    let mut refresher: Refresher<u32> = Refresher::new(SourceKind::Hourly);
    refresher.on_probed(Ok(at(-7_200)));
    assert_eq!(refresher.last_refreshed_at(), at(-7_200));
    assert!(refresher.read().is_empty());
    assert_eq!(refresher.plan(at(0)), Action::BootstrapFromStorage);
    // a second answer is not taken
    refresher.on_probed(Ok(at(-100)));
    assert_eq!(refresher.last_refreshed_at(), at(-7_200));
}

#[test]
fn a_failed_probe_leaves_the_source_stale() {
    for error in [StoreError::Connection, StoreError::Query, StoreError::RowDecode] {
        let mut refresher: Refresher<u32> = Refresher::new(SourceKind::Daily);
        refresher.on_probed(Err(error));
        assert_eq!(refresher.last_refreshed_at(), Timestamp::min());
        assert_eq!(refresher.on_tick(at(0)), Command::Fetch);
    }
}

#[test]
fn observations_take_no_probe() {
    let mut refresher: Refresher<u32> = Refresher::new(SourceKind::Instant);
    refresher.on_probed(Ok(at(0)));
    assert_eq!(refresher.last_refreshed_at(), Timestamp::min());
    assert_eq!(refresher.on_tick(at(1)), Command::Fetch);
}

#[test]
fn the_probe_is_not_taken_after_a_fetch_or_during_a_call() {
    let mut refresher = filled(vec![1]);
    refresher.on_probed(Ok(at(-50_000)));
    assert_eq!(refresher.last_refreshed_at(), at(0));

    let mut fetching: Refresher<u32> = Refresher::new(SourceKind::Hourly);
    assert_eq!(fetching.on_tick(at(0)), Command::Fetch);
    fetching.on_probed(Ok(at(5)));
    assert_eq!(fetching.last_refreshed_at(), Timestamp::min());
    assert_eq!(fetching.pending(), Pending::Fetching);
}

#[test]
fn a_stale_probe_time_leads_to_a_fetch_at_the_first_pass() {
    let mut refresher: Refresher<u32> = Refresher::new(SourceKind::Hourly);
    refresher.on_probed(Ok(at(-28_801)));
    assert_eq!(refresher.on_tick(at(0)), Command::Fetch);
}

#[test]
fn the_refresh_time_does_not_go_back_over_a_run() {
    let mut refresher: Refresher<u32> = Refresher::new(SourceKind::Instant);
    let mut clock = 0;
    let mut last = refresher.last_refreshed_at();
    for round in 0..40u32 {
        clock += 900;
        let command = refresher.on_tick(at(clock));
        match command {
            Command::Fetch => {
                clock += 3;
                let outcome = if round % 3 == 0 { Err(FetchError::Status) } else { Ok(vec![round]) };
                refresher.on_fetched(outcome, at(clock));
            }
            Command::LoadRecent(_) => {
                refresher.on_loaded(Ok(vec![round]));
            }
            _ => {}
        }
        assert!(last.not_after(&refresher.last_refreshed_at()));
        last = refresher.last_refreshed_at();
    }
    assert!(Timestamp::min().not_after(&last));
    assert!(!last.not_after(&Timestamp::min()));
}

#[test]
fn only_a_status_of_success_is_no_failure() {
    assert_eq!(FetchError::from_status(200), None);
    assert_eq!(FetchError::from_status(204), None);
    assert_eq!(FetchError::from_status(299), None);
    assert_eq!(FetchError::from_status(199), Some(FetchError::Status));
    assert_eq!(FetchError::from_status(300), Some(FetchError::Status));
    assert_eq!(FetchError::from_status(301), Some(FetchError::Status));
    assert_eq!(FetchError::from_status(404), Some(FetchError::Status));
    assert_eq!(FetchError::from_status(500), Some(FetchError::Status));
    assert_eq!(FetchError::from_status(0), Some(FetchError::Status));
    assert_eq!(FetchError::from_status(u16::MAX), Some(FetchError::Status));
}

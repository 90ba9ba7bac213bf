//! What holds of a source over any sequence of events.

use crate::cache::SlotView;
use crate::error::{FetchError, StoreError};
use crate::orchestrator::{spec_plan, Action, Bootstrap, CommandView, Pending, RefresherView};
use crate::staleness::spec_is_stale;
use crate::timestamp::Timestamp;
use vstd::prelude::*;

verus! {

/// What can happen to a source.
pub enum Happening<T> {
    /// Storage answered the startup probe.
    Probed(Result<Timestamp, StoreError>),
    /// A pass of the loop reached the source.
    Tick,
    /// The upstream source answered.
    Fetched(Result<Seq<T>, FetchError>),
    /// Storage answered a request for the most recent records.
    Loaded(Result<Seq<T>, StoreError>),
}

/// Something that happened, and the reading of the clock when it did.
pub struct Event<T> {
    pub at: Timestamp,
    pub what: Happening<T>,
}

impl<T> Event<T> {
    /// The records that the event hands over to be cached, if any.
    pub open spec fn payload(self) -> Option<Seq<T>> {
        match self.what {
            Happening::Fetched(Ok(records)) => Some(records),
            Happening::Loaded(Ok(records)) => Some(records),
            _ => None,
        }
    }
}

/// The state after an event.
pub open spec fn step<T>(state: RefresherView<T>, event: Event<T>) -> RefresherView<T> {
    match event.what {
        Happening::Probed(probe) => state.on_probed(probe),
        Happening::Tick => state.on_tick(event.at).0,
        Happening::Fetched(outcome) => state.on_fetched(outcome, event.at).0,
        Happening::Loaded(outcome) => state.on_loaded(outcome),
    }
}

/// The command that an event is answered with.
pub open spec fn command<T>(state: RefresherView<T>, event: Event<T>) -> CommandView<T> {
    match event.what {
        Happening::Probed(_) => CommandView::Nothing,
        Happening::Tick => state.on_tick(event.at).1,
        Happening::Fetched(outcome) => state.on_fetched(outcome, event.at).1,
        Happening::Loaded(_) => CommandView::Nothing,
    }
}

/// The state after a sequence of events.
pub open spec fn run<T>(state: RefresherView<T>, events: Seq<Event<T>>) -> RefresherView<T>
    decreases events.len(),
{
    if events.len() == 0 {
        state
    } else {
        step(run(state, events.drop_last()), events.last())
    }
}

/// The clock never runs backwards from one event to the next.
pub open spec fn times_ascend<T>(events: Seq<Event<T>>) -> bool {
    forall|i: int, j: int|
        0 <= i <= j < events.len() ==> (#[trigger] events[i]).at.as_nanos() <= (
        #[trigger] events[j]).at.as_nanos()
}

/// Fetches begun and not yet answered after a sequence of events: each
/// `Fetch` command counts one up, each answer that is taken one down.
pub open spec fn fetches_in_flight<T>(state: RefresherView<T>, events: Seq<Event<T>>) -> int
    decreases events.len(),
{
    if events.len() == 0 {
        if state.pending == Pending::Fetching {
            1
        } else {
            0
        }
    } else {
        let before = run(state, events.drop_last());
        let earlier = fetches_in_flight(state, events.drop_last());
        if command(before, events.last()) is Fetch {
            earlier + 1
        } else if events.last().what is Fetched && before.pending == Pending::Fetching {
            earlier - 1
        } else {
            earlier
        }
    }
}

/// A slot without records is never left alone: whenever its data counts as
/// fresh it is filled from storage first.
pub proof fn law_empty_slot_is_never_left_alone<T>(slot: SlotView<T>, now: Timestamp, threshold_secs: u64)
    requires
        slot.records.len() == 0,
    ensures
        spec_plan(slot, now, threshold_secs) != Action::Noop,
        !spec_is_stale(now, slot.last_refreshed_at, threshold_secs) ==> spec_plan(
            slot,
            now,
            threshold_secs,
        ) == Action::BootstrapFromStorage,
{
}

/// A pass that finds stale data asks for a fetch, and the records that come
/// back are then the slot's records, refreshed at the moment they came; the
/// same records go on to be persisted.
pub proof fn law_fetch_installs_what_was_fetched<T>(
    state: RefresherView<T>,
    tick_at: Timestamp,
    records: Seq<T>,
    fetched_at: Timestamp,
)
    requires
        state.pending == Pending::Idle,
        state.plan(tick_at) == Action::FetchAndPersist,
    ensures
        state.on_tick(tick_at).1 == CommandView::<T>::Fetch,
        ({
            let after = state.on_tick(tick_at).0.on_fetched(Ok(records), fetched_at);
            &&& after.0.slot.records == records
            &&& after.0.slot.last_refreshed_at == fetched_at
            &&& after.0.pending == Pending::Idle
            &&& after.1 == CommandView::Persist(records)
        }),
{
}

/// A failed fetch leaves the records and the refresh time as they were, in
/// whatever state it arrives.
pub proof fn law_failed_fetch_changes_no_data<T>(
    state: RefresherView<T>,
    error: FetchError,
    at: Timestamp,
)
    ensures
        state.on_fetched(Err(error), at).0.slot == state.slot,
        state.on_fetched(Err(error), at).1 == CommandView::<T>::Nothing,
{
}

/// After a failed fetch the next pass asks again, as long as the data is
/// still stale.
pub proof fn law_failed_fetch_is_retried<T>(
    state: RefresherView<T>,
    error: FetchError,
    failed_at: Timestamp,
    next_tick: Timestamp,
)
    requires
        state.pending == Pending::Fetching,
        state.plan(next_tick) == Action::FetchAndPersist,
    ensures
        state.on_fetched(Err(error), failed_at).0.on_tick(next_tick).1 == CommandView::<T>::Fetch,
{
}

/// An empty slot whose data counts as fresh is filled from storage, and
/// filling it does not move the refresh time.
pub proof fn law_bootstrap_fills_without_refreshing<T>(
    state: RefresherView<T>,
    tick_at: Timestamp,
    records: Seq<T>,
)
    requires
        state.pending == Pending::Idle,
        state.plan(tick_at) == Action::BootstrapFromStorage,
        records.len() > 0,
    ensures
        state.on_tick(tick_at).1 == CommandView::<T>::LoadRecent(state.kind.spec_recent_limit()),
        ({
            let after = state.on_tick(tick_at).0.on_loaded(Ok(records));
            &&& after.slot.records == records
            &&& after.slot.last_refreshed_at == state.slot.last_refreshed_at
            &&& after.pending == Pending::Idle
        }),
{
}

/// Where storage has nothing, or cannot be reached, the slot stays as it
/// was and the next pass may ask again.
pub proof fn law_empty_bootstrap_changes_no_data<T>(
    state: RefresherView<T>,
    outcome: Result<Seq<T>, StoreError>,
)
    requires
        outcome matches Ok(records) ==> records.len() == 0,
    ensures
        state.on_loaded(outcome).slot == state.slot,
        state.pending == Pending::Loading ==> state.on_loaded(outcome).pending == Pending::Idle,
{
}

/// The slot changes on an answer of storage exactly when the answer is
/// taken as filling it.
pub proof fn law_bootstrap_fills_or_changes_no_data<T>(
    state: RefresherView<T>,
    outcome: Result<Seq<T>, StoreError>,
)
    ensures
        state.bootstrap(outcome) == Bootstrap::Filled ==> state.on_loaded(outcome).slot
            == state.slot.written(outcome->Ok_0, None),
        state.bootstrap(outcome) != Bootstrap::Filled ==> state.on_loaded(outcome).slot == state.slot,
{
}

/// A pass that finds fresh data in a filled slot does nothing.
pub proof fn law_fresh_data_is_left_alone<T>(state: RefresherView<T>, now: Timestamp)
    requires
        state.slot.records.len() > 0,
        !spec_is_stale(now, state.slot.last_refreshed_at, state.kind.spec_threshold_secs()),
    ensures
        state.on_tick(now) == (state, CommandView::<T>::Nothing),
{
}

/// While a fetch is pending, its refresh time lies before the clock.
spec fn fetch_is_due<T>(state: RefresherView<T>, clock: int) -> bool {
    state.pending == Pending::Fetching ==> state.slot.last_refreshed_at.as_nanos() < clock
}

proof fn lemma_step_keeps_order<T>(state: RefresherView<T>, event: Event<T>, clock: int)
    requires
        fetch_is_due(state, clock),
        clock <= event.at.as_nanos(),
    ensures
        fetch_is_due(step(state, event), event.at.as_nanos()),
        state.slot.last_refreshed_at.as_nanos() <= step(state, event).slot.last_refreshed_at.as_nanos(),
{
}

proof fn lemma_run_keeps_order<T>(state: RefresherView<T>, events: Seq<Event<T>>)
    requires
        state.pending != Pending::Fetching,
        times_ascend(events),
    ensures
        state.slot.last_refreshed_at.as_nanos() <= run(state, events).slot.last_refreshed_at.as_nanos(),
        events.len() > 0 ==> fetch_is_due(run(state, events), events.last().at.as_nanos()),
        events.len() == 0 ==> run(state, events).pending != Pending::Fetching,
    decreases events.len(),
{
    if events.len() > 0 {
        let earlier = events.drop_last();
        assert forall|i: int, j: int| 0 <= i <= j < earlier.len() implies (#[trigger] earlier[i]).at.as_nanos()
            <= (#[trigger] earlier[j]).at.as_nanos() by {
            assert(earlier[i] == events[i]);
            assert(earlier[j] == events[j]);
        }
        lemma_run_keeps_order(state, earlier);
        let before = run(state, earlier);
        if earlier.len() > 0 {
            assert(earlier.last() == events[events.len() - 2]);
            assert(events.last() == events[events.len() - 1]);
            lemma_step_keeps_order(before, events.last(), earlier.last().at.as_nanos());
        } else {
            lemma_step_keeps_order(before, events.last(), events.last().at.as_nanos());
        }
    }
}

/// As long as the clock does not run backwards, the refresh time of a
/// source never does either, whatever happens to it.
pub proof fn law_refresh_time_never_goes_back<T>(state: RefresherView<T>, events: Seq<Event<T>>)
    requires
        state.pending != Pending::Fetching,
        times_ascend(events),
    ensures
        state.slot.last_refreshed_at.as_nanos() <= run(state, events).slot.last_refreshed_at.as_nanos(),
{
    lemma_run_keeps_order(state, events);
}

/// The refresh time moves only when a fetch succeeds or the startup probe
/// is taken; nothing else that happens touches it.
pub proof fn law_refresh_time_moves_only_on_success<T>(state: RefresherView<T>, event: Event<T>)
    requires
        step(state, event).slot.last_refreshed_at != state.slot.last_refreshed_at,
    ensures
        (event.what matches Happening::Fetched(Ok(_)) && state.pending == Pending::Fetching) || (
        event.what matches Happening::Probed(probe) && state.takes_probe(probe)),
{
}

/// The records of a source are at every moment those it started with or all
/// of what one event handed over: no state in between is ever reached.
pub proof fn law_records_are_whole_writes<T>(state: RefresherView<T>, events: Seq<Event<T>>)
    ensures
        run(state, events).slot.records == state.slot.records || exists|i: int|
            0 <= i < events.len() && (#[trigger] events[i]).payload() == Some(
                run(state, events).slot.records,
            ),
    decreases events.len(),
{
    if events.len() > 0 {
        let earlier = events.drop_last();
        law_records_are_whole_writes(state, earlier);
        let before = run(state, earlier);
        let after = run(state, events);
        if after.slot.records == before.slot.records {
            if before.slot.records != state.slot.records {
                let i = choose|i: int|
                    0 <= i < earlier.len() && (#[trigger] earlier[i]).payload() == Some(
                        before.slot.records,
                    );
                assert(events[i] == earlier[i]);
            }
        } else {
            assert(events[events.len() - 1].payload() == Some(after.slot.records));
        }
    }
}

/// At most one fetch is in flight for a source, and one is exactly while
/// the source waits for an answer.
pub proof fn law_one_fetch_in_flight<T>(state: RefresherView<T>, events: Seq<Event<T>>)
    ensures
        fetches_in_flight(state, events) == if run(state, events).pending == Pending::Fetching {
            1int
        } else {
            0int
        },
    decreases events.len(),
{
    if events.len() > 0 {
        law_one_fetch_in_flight(state, events.drop_last());
    }
}

/// The kind of a source never changes.
pub proof fn law_kind_is_fixed<T>(state: RefresherView<T>, events: Seq<Event<T>>)
    ensures
        run(state, events).kind == state.kind,
    decreases events.len(),
{
    if events.len() > 0 {
        law_kind_is_fixed(state, events.drop_last());
    }
}

} // verus!

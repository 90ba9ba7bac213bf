use crate::cache::{CacheSlot, SlotView};
use crate::error::{FetchError, StoreError};
use crate::staleness::{is_stale, spec_is_stale, SourceKind};
use crate::timestamp::Timestamp;
use vstd::prelude::*;

verus! {

/// What a pass of the refresh loop does for one source.
#[derive(Clone, Copy, Debug, PartialEq, Eq, Structural)]
pub enum Action {
    /// The data is stale: fetch it from the upstream source and persist it.
    FetchAndPersist,
    /// The data is fresh but the slot is empty: read it back from storage.
    BootstrapFromStorage,
    /// The data is fresh and there: nothing to do.
    Noop,
}

/// The call that a source is waiting for, if any.
#[derive(Clone, Copy, Debug, PartialEq, Eq, Structural)]
pub enum Pending {
    Idle,
    Fetching,
    Loading,
}

/// How an answer of storage to `LoadRecent` was taken.
#[derive(Clone, Copy, Debug, PartialEq, Eq, Structural)]
pub enum Bootstrap {
    /// The records fill the slot.
    Filled,
    /// Storage holds nothing for the source. This is no failure: the slot
    /// stays cold until a fetch succeeds.
    BootstrapEmpty,
    /// Storage could not be read.
    Failed(StoreError),
    /// No load was pending, and the answer was dropped.
    Unasked,
}

/// What the caller is to do next for a source.
#[derive(Clone, Debug, PartialEq, Eq)]
pub enum Command<T> {
    /// The source is fresh, or waits for an answer.
    Nothing,
    /// Call the upstream source and report with `on_fetched`.
    Fetch,
    /// Read this many of the most recent records from storage and report
    /// with `on_loaded`.
    LoadRecent(usize),
    /// Write these records through to storage. The outcome is not reported
    /// back: the slot keeps them either way.
    Persist(Vec<T>),
}

/// A command as a value.
pub enum CommandView<T> {
    Nothing,
    Fetch,
    LoadRecent(usize),
    Persist(Seq<T>),
}

impl<T> View for Command<T> {
    type V = CommandView<T>;

    open spec fn view(&self) -> CommandView<T> {
        match self {
            Command::Nothing => CommandView::Nothing,
            Command::Fetch => CommandView::Fetch,
            Command::LoadRecent(limit) => CommandView::LoadRecent(*limit),
            Command::Persist(records) => CommandView::Persist(records@),
        }
    }
}

/// The outcome of a call that gives records, with the records as a value.
pub open spec fn outcome_view<T, E>(outcome: Result<Vec<T>, E>) -> Result<Seq<T>, E> {
    match outcome {
        Ok(records) => Ok(records@),
        Err(e) => Err(e),
    }
}

/// The action for a slot at `now`: stale data is fetched, an empty slot with
/// fresh data is filled from storage, and anything else is left alone.
pub open spec fn spec_plan<T>(slot: SlotView<T>, now: Timestamp, threshold_secs: u64) -> Action {
    if spec_is_stale(now, slot.last_refreshed_at, threshold_secs) {
        Action::FetchAndPersist
    } else if slot.records.len() == 0 {
        Action::BootstrapFromStorage
    } else {
        Action::Noop
    }
}

/// Decides what a pass at `now` does for the slot of a source.
pub fn plan<T>(slot: &CacheSlot<T>, kind: SourceKind, now: Timestamp) -> (action: Action)
    ensures
        action == spec_plan(slot@, now, kind.spec_threshold_secs()),
{
    if is_stale(now, slot.last_refreshed_at(), kind.threshold_secs()) {
        Action::FetchAndPersist
    } else if slot.is_empty() {
        Action::BootstrapFromStorage
    } else {
        Action::Noop
    }
}

/// The sources in the order in which a pass visits them.
pub open spec fn spec_tick_order() -> Seq<SourceKind> {
    seq![SourceKind::Instant, SourceKind::Hourly, SourceKind::Daily]
}

pub fn tick_order() -> (order: [SourceKind; 3])
    ensures
        order@ == spec_tick_order(),
{
    [SourceKind::Instant, SourceKind::Hourly, SourceKind::Daily]
}

/// A pass visits every source, and each of them once.
pub proof fn lemma_tick_order_visits_each_once(kind: SourceKind)
    ensures
        exists|i: int|
            0 <= i < spec_tick_order().len() && spec_tick_order()[i] == kind && forall|j: int|
                0 <= j < spec_tick_order().len() && spec_tick_order()[j] == kind ==> j == i,
{
    let i: int = match kind {
        SourceKind::Instant => 0,
        SourceKind::Hourly => 1,
        SourceKind::Daily => 2,
    };
    assert(spec_tick_order()[i] == kind);
}

/// The refresh state of one source, as a value.
pub struct RefresherView<T> {
    pub kind: SourceKind,
    pub slot: SlotView<T>,
    pub pending: Pending,
}

impl<T> RefresherView<T> {
    /// The state of a source when the process starts.
    pub open spec fn start(kind: SourceKind) -> RefresherView<T> {
        RefresherView { kind, slot: SlotView::empty(), pending: Pending::Idle }
    }

    pub open spec fn plan(self, now: Timestamp) -> Action {
        spec_plan(self.slot, now, self.kind.spec_threshold_secs())
    }

    /// Whether an answer of storage to the startup probe is taken: the
    /// source has a probe, storage answered, no call is pending, and the
    /// slot was never refreshed.
    pub open spec fn takes_probe(self, probe: Result<Timestamp, StoreError>) -> bool {
        &&& self.kind.spec_has_startup_probe()
        &&& probe is Ok
        &&& self.pending == Pending::Idle
        &&& self.slot.last_refreshed_at == Timestamp::spec_min()
    }

    /// Storage has said when the source was last persisted.
    pub open spec fn on_probed(self, probe: Result<Timestamp, StoreError>) -> RefresherView<T> {
        if self.takes_probe(probe) {
            RefresherView {
                slot: SlotView { last_refreshed_at: probe->Ok_0, ..self.slot },
                ..self
            }
        } else {
            self
        }
    }

    /// A pass of the loop reaches the source at `now`.
    pub open spec fn on_tick(self, now: Timestamp) -> (RefresherView<T>, CommandView<T>) {
        if self.pending != Pending::Idle {
            (self, CommandView::Nothing)
        } else {
            match self.plan(now) {
                Action::FetchAndPersist => (
                    RefresherView { pending: Pending::Fetching, ..self },
                    CommandView::Fetch,
                ),
                Action::BootstrapFromStorage => (
                    RefresherView { pending: Pending::Loading, ..self },
                    CommandView::LoadRecent(self.kind.spec_recent_limit()),
                ),
                Action::Noop => (self, CommandView::Nothing),
            }
        }
    }

    /// The upstream source has answered at `now`.
    pub open spec fn on_fetched(self, outcome: Result<Seq<T>, FetchError>, now: Timestamp) -> (
        RefresherView<T>,
        CommandView<T>,
    ) {
        if self.pending != Pending::Fetching {
            (self, CommandView::Nothing)
        } else {
            match outcome {
                Ok(records) => (
                    RefresherView {
                        slot: self.slot.written(records, Some(now)),
                        pending: Pending::Idle,
                        ..self
                    },
                    CommandView::Persist(records),
                ),
                Err(_) => (RefresherView { pending: Pending::Idle, ..self }, CommandView::Nothing),
            }
        }
    }

    /// How an answer of storage is taken.
    pub open spec fn bootstrap(self, outcome: Result<Seq<T>, StoreError>) -> Bootstrap {
        if self.pending != Pending::Loading {
            Bootstrap::Unasked
        } else {
            match outcome {
                Ok(records) => if records.len() > 0 {
                    Bootstrap::Filled
                } else {
                    Bootstrap::BootstrapEmpty
                },
                Err(error) => Bootstrap::Failed(error),
            }
        }
    }

    /// Storage has answered the request for the most recent records.
    /// Records fill the slot and leave its refresh time alone.
    pub open spec fn on_loaded(self, outcome: Result<Seq<T>, StoreError>) -> RefresherView<T> {
        match self.bootstrap(outcome) {
            Bootstrap::Unasked => self,
            Bootstrap::Filled => RefresherView {
                slot: self.slot.written(outcome->Ok_0, None),
                pending: Pending::Idle,
                ..self
            },
            Bootstrap::BootstrapEmpty | Bootstrap::Failed(_) => RefresherView {
                pending: Pending::Idle,
                ..self
            },
        }
    }
}

/// The refresh state of one source: its slot, and the call it waits for. The
/// caller reports what happened and is told what to do; the calls themselves
/// are the caller's.
pub struct Refresher<T> {
    kind: SourceKind,
    slot: CacheSlot<T>,
    pending: Pending,
}

impl<T> View for Refresher<T> {
    type V = RefresherView<T>;

    closed spec fn view(&self) -> RefresherView<T> {
        RefresherView { kind: self.kind, slot: self.slot@, pending: self.pending }
    }
}

impl<T> Refresher<T> {
    pub fn new(kind: SourceKind) -> (refresher: Refresher<T>)
        ensures
            refresher@ == RefresherView::<T>::start(kind),
    {
        Refresher { kind, slot: CacheSlot::new(), pending: Pending::Idle }
    }

    pub fn kind(&self) -> (kind: SourceKind)
        ensures
            kind == self@.kind,
    {
        self.kind
    }

    pub fn pending(&self) -> (pending: Pending)
        ensures
            pending == self@.pending,
    {
        self.pending
    }

    pub fn slot(&self) -> (slot: &CacheSlot<T>)
        ensures
            slot@ == self@.slot,
    {
        &self.slot
    }

    pub fn last_refreshed_at(&self) -> (at: Timestamp)
        ensures
            at == self@.slot.last_refreshed_at,
    {
        self.slot.last_refreshed_at()
    }

    /// What a pass at `now` would do for this source if no call were
    /// pending.
    pub fn plan(&self, now: Timestamp) -> (action: Action)
        ensures
            action == self@.plan(now),
    {
        plan(&self.slot, self.kind, now)
    }

    /// Takes the answer to the startup probe. Only a slot that was never
    /// refreshed and waits for no call is seeded, and only for a source that
    /// has a probe; a failed probe leaves the source stale.
    pub fn on_probed(&mut self, probe: Result<Timestamp, StoreError>)
        ensures
            final(self)@ == old(self)@.on_probed(probe),
    {
        if self.kind.has_startup_probe() && self.pending == Pending::Idle
            && self.slot.last_refreshed_at() == Timestamp::min() {
            match probe {
                Ok(at) => {
                    self.slot.seed(at);
                },
                Err(_) => {},
            }
        }
    }

    /// A pass reaches this source. While a call is pending nothing new is
    /// started.
    pub fn on_tick(&mut self, now: Timestamp) -> (command: Command<T>)
        ensures
            (final(self)@, command@) == old(self)@.on_tick(now),
    {
        if self.pending != Pending::Idle {
            return Command::Nothing;
        }
        match plan(&self.slot, self.kind, now) {
            Action::FetchAndPersist => {
                self.pending = Pending::Fetching;
                Command::Fetch
            },
            Action::BootstrapFromStorage => {
                self.pending = Pending::Loading;
                Command::LoadRecent(self.kind.recent_limit())
            },
            Action::Noop => Command::Nothing,
        }
    }

    /// Takes the answer of storage to `LoadRecent`. Records fill the slot
    /// and leave the refresh time alone, so that the source stays due for a
    /// fetch as before. No records, or a failure, leave the slot empty.
    pub fn on_loaded(&mut self, outcome: Result<Vec<T>, StoreError>) -> (taken: Bootstrap)
        ensures
            final(self)@ == old(self)@.on_loaded(outcome_view(outcome)),
            taken == old(self)@.bootstrap(outcome_view(outcome)),
    {
        if self.pending != Pending::Loading {
            return Bootstrap::Unasked;
        }
        self.pending = Pending::Idle;
        match outcome {
            Ok(records) => {
                if records.len() > 0 {
                    self.slot.write(records, None);
                    Bootstrap::Filled
                } else {
                    Bootstrap::BootstrapEmpty
                }
            },
            Err(error) => Bootstrap::Failed(error),
        }
    }
}

impl<T: Copy> Refresher<T> {
    /// A copy of the cached records.
    pub fn read(&self) -> (snapshot: Vec<T>)
        ensures
            snapshot@ == self@.slot.records,
    {
        self.slot.read()
    }

    /// Takes the answer of the upstream source to `Fetch`, received at
    /// `now`. Records replace the slot's and set its refresh time to `now`,
    /// and come back to be persisted. A failure changes nothing but that the
    /// call is over.
    pub fn on_fetched(&mut self, outcome: Result<Vec<T>, FetchError>, now: Timestamp) -> (command:
        Command<T>)
        ensures
            (final(self)@, command@) == old(self)@.on_fetched(outcome_view(outcome), now),
    {
        if self.pending != Pending::Fetching {
            return Command::Nothing;
        }
        self.pending = Pending::Idle;
        match outcome {
            Ok(records) => {
                self.slot.write(records, Some(now));
                Command::Persist(self.slot.read())
            },
            Err(_) => Command::Nothing,
        }
    }
}

} // verus!

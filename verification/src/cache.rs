use crate::timestamp::Timestamp;
use vstd::prelude::*;

verus! {

/// What a cache slot holds, as a value: the records in the order in which
/// they were written, and the moment of the last successful refresh.
pub struct SlotView<T> {
    pub records: Seq<T>,
    pub last_refreshed_at: Timestamp,
}

impl<T> SlotView<T> {
    /// The slot as it is when the process starts: no records, never
    /// refreshed.
    pub open spec fn empty() -> SlotView<T> {
        SlotView { records: Seq::empty(), last_refreshed_at: Timestamp::spec_min() }
    }

    /// The slot after one write.
    pub open spec fn written(self, records: Seq<T>, refreshed_at: Option<Timestamp>) -> SlotView<T> {
        SlotView {
            records,
            last_refreshed_at: match refreshed_at {
                Some(at) => at,
                None => self.last_refreshed_at,
            },
        }
    }
}

/// The latest records of one source. It is changed through `write` and
/// `seed` alone, and each of them leaves a complete state behind.
pub struct CacheSlot<T> {
    records: Vec<T>,
    last_refreshed_at: Timestamp,
}

impl<T> View for CacheSlot<T> {
    type V = SlotView<T>;

    closed spec fn view(&self) -> SlotView<T> {
        SlotView { records: self.records@, last_refreshed_at: self.last_refreshed_at }
    }
}

impl<T> CacheSlot<T> {
    /// A slot without records that has never been refreshed.
    pub fn new() -> (slot: CacheSlot<T>)
        ensures
            slot@ == SlotView::<T>::empty(),
    {
        CacheSlot { records: Vec::new(), last_refreshed_at: Timestamp::min() }
    }

    /// Replaces the records as a whole. The refresh time moves to
    /// `refreshed_at` where one is given and stays otherwise.
    pub fn write(&mut self, records: Vec<T>, refreshed_at: Option<Timestamp>)
        ensures
            final(self)@ == old(self)@.written(records@, refreshed_at),
    {
        self.records = records;
        match refreshed_at {
            Some(at) => {
                self.last_refreshed_at = at;
            },
            None => {},
        }
    }

    /// Sets the refresh time and keeps the records.
    pub fn seed(&mut self, refreshed_at: Timestamp)
        ensures
            final(self)@ == (SlotView { records: old(self)@.records, last_refreshed_at: refreshed_at }),
    {
        self.last_refreshed_at = refreshed_at;
    }

    pub fn last_refreshed_at(&self) -> (at: Timestamp)
        ensures
            at == self@.last_refreshed_at,
    {
        self.last_refreshed_at
    }

    pub fn len(&self) -> (n: usize)
        ensures
            n == self@.records.len(),
    {
        self.records.len()
    }

    pub fn is_empty(&self) -> (empty: bool)
        ensures
            empty == (self@.records.len() == 0),
    {
        self.records.len() == 0
    }

    /// The records as they stand, without copying them.
    pub fn records(&self) -> (records: &Vec<T>)
        ensures
            records@ == self@.records,
    {
        &self.records
    }
}

impl<T: Copy> CacheSlot<T> {
    /// A copy of the records as they stand: all of the last write, in its
    /// order, or nothing if there was none.
    pub fn read(&self) -> (snapshot: Vec<T>)
        ensures
            snapshot@ == self@.records,
    {
        let mut snapshot: Vec<T> = Vec::new();
        let mut i: usize = 0;
        while i < self.records.len()
            invariant
                i <= self.records@.len(),
                snapshot@ == self.records@.subrange(0, i as int),
            decreases self.records@.len() - i,
        {
            snapshot.push(self.records[i]);
            assert(self.records@.subrange(0, i + 1) == self.records@.subrange(0, i as int).push(
                self.records@[i as int],
            ));
            i += 1;
        }
        assert(self.records@.subrange(0, self.records@.len() as int) == self.records@);
        snapshot
    }
}

/// A write is seen whole by the next read, and a second write leaves nothing
/// of the first.
pub proof fn lemma_last_write_wins<T>(
    slot: SlotView<T>,
    first: Seq<T>,
    first_at: Option<Timestamp>,
    second: Seq<T>,
    second_at: Option<Timestamp>,
)
    ensures
        slot.written(first, first_at).records == first,
        slot.written(first, first_at).written(second, second_at).records == second,
        second_at is Some ==> slot.written(first, first_at).written(second, second_at)
            == slot.written(second, second_at),
{
}

} // verus!

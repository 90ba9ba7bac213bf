use rusty_forecast::cache::CacheSlot;
use rusty_forecast::timestamp::Timestamp;

#[test]
fn a_new_slot_is_empty_and_never_refreshed() {
    let slot: CacheSlot<u32> = CacheSlot::new();
    assert!(slot.is_empty());
    assert_eq!(slot.len(), 0);
    assert_eq!(slot.read(), Vec::<u32>::new());
    assert_eq!(slot.last_refreshed_at(), Timestamp::min());
}

#[test]
fn a_write_is_read_back_whole_and_in_order() {
    let mut slot: CacheSlot<u32> = CacheSlot::new();
    let at = Timestamp::from_secs(1_700_000_000);
    slot.write(vec![3, 1, 2], Some(at));
    assert_eq!(slot.read(), vec![3, 1, 2]);
    assert_eq!(slot.records(), &vec![3, 1, 2]);
    assert_eq!(slot.len(), 3);
    assert!(!slot.is_empty());
    assert_eq!(slot.last_refreshed_at(), at);
}

#[test]
fn a_write_without_a_time_keeps_the_refresh_time() {
    let mut slot: CacheSlot<u32> = CacheSlot::new();
    slot.write(vec![1], None);
    assert_eq!(slot.read(), vec![1]);
    assert_eq!(slot.last_refreshed_at(), Timestamp::min());
    let at = Timestamp::from_secs(5);
    slot.write(vec![2], Some(at));
    slot.write(vec![3, 4], None);
    assert_eq!(slot.read(), vec![3, 4]);
    assert_eq!(slot.last_refreshed_at(), at);
}

#[test]
fn the_last_write_leaves_nothing_of_the_one_before() {
    let mut slot: CacheSlot<u32> = CacheSlot::new();
    slot.write(vec![1, 2, 3, 4, 5], Some(Timestamp::from_secs(1)));
    slot.write(vec![9], Some(Timestamp::from_secs(2)));
    assert_eq!(slot.read(), vec![9]);
    slot.write(vec![], Some(Timestamp::from_secs(3)));
    assert!(slot.is_empty());
    assert_eq!(slot.last_refreshed_at(), Timestamp::from_secs(3));
}

#[test]
fn a_snapshot_does_not_follow_later_writes() {
    let mut slot: CacheSlot<u32> = CacheSlot::new();
    slot.write(vec![1, 2], None);
    let snapshot = slot.read();
    slot.write(vec![7, 8, 9], None);
    assert_eq!(snapshot, vec![1, 2]);
    assert_eq!(slot.read(), vec![7, 8, 9]);
}

#[test]
fn seeding_sets_the_time_and_keeps_the_records() {
    let mut slot: CacheSlot<u32> = CacheSlot::new();
    slot.write(vec![4, 5], None);
    slot.seed(Timestamp { secs: 12, nanos: 34 });
    assert_eq!(slot.read(), vec![4, 5]);
    assert_eq!(slot.last_refreshed_at(), Timestamp { secs: 12, nanos: 34 });
}

use cache_actor::beacon::Beacon;
use cache_actor::collector::{BusyCollector, Collector};
use cache_actor::forwarder::{Forwarder, PING};
use cache_actor::pool::TaskPool;
use cache_actor::unique_id::{Message, UniqueIdService};

#[test]
fn should_increment_unique_id() {
    let mut service = UniqueIdService::new();
    let first = service.handle_message(Message::GetUniqueId);
    let second = service.handle_message(Message::GetUniqueId);
    let third = service.handle_message(Message::GetUniqueId);
    assert_eq!((first, second, third), (0, 1, 2));
    assert_eq!(service.peek_next_id(), 3);
}

#[test]
fn beacon_emits_then_advances() {
    let mut beacon = Beacon::default();
    for expected in 0..100u8 {
        let tick = beacon.next_message();
        assert_eq!(tick, expected);
        beacon.on_delivered();
    }
    assert_eq!(beacon.next_message(), 100);
}

#[test]
fn forwarder_pings_on_tick() {
    let forwarder = Forwarder::default();
    assert_eq!(forwarder.on_tick(), PING);
    assert_eq!(forwarder.on_tick(), 4);
}

#[test]
fn busy_collector_counts_every_result() {
    let mut collector = BusyCollector::default();
    collector.on_message();
    collector.on_message();
    collector.on_message();
    assert_eq!(collector.count(), 3);
    assert_eq!(Collector::default(), Collector);
}

#[test]
fn task_pool_tracks_ids_as_a_multiset() {
    let mut pool = TaskPool::new();
    assert!(pool.is_empty());
    pool.enroll(9);
    pool.enroll(2);
    pool.enroll(9);
    assert_eq!(pool.len(), 3);
    assert!(pool.contains(9));
    assert!(pool.contains(2));
    assert!(!pool.contains(7));
    pool.retire(9);
    assert!(pool.contains(9));
    pool.retire(9);
    assert!(!pool.contains(9));
    pool.retire(2);
    assert!(pool.is_empty());
}

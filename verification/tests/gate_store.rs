use party_finder::bus::Bus;
use party_finder::gate::{submit, submit_many};
use party_finder::listing::{Listing, RejectReason};
use party_finder::store::ListingStore;

fn listing(id: u32, world: u16, seconds_remaining: u16) -> Listing {
    Listing {
        id,
        last_server_restart: 7,
        created_world: world,
        home_world: world,
        current_world: world,
        seconds_remaining,
        category: 0,
        search_area: 0,
        name: b"Recruiter".to_vec(),
        description: b"come join".to_vec(),
    }
}

#[test]
fn validate_accepts_in_range() {
    assert!(listing(1, 999, 3600).validate().is_ok());
    assert!(listing(1, 0, 0).validate().is_ok());
}

#[test]
fn validate_rejects_long_remaining_first() {
    let mut l = listing(1, 5000, 3601);
    l.home_world = 5000;
    assert_eq!(l.validate(), Err(RejectReason::SecondsTooHigh));
}

#[test]
fn validate_rejects_world_at_ceiling() {
    assert_eq!(listing(1, 1000, 100).validate(), Err(RejectReason::WorldTooHigh));
    let mut l = listing(1, 1, 100);
    l.current_world = 1000;
    assert_eq!(l.validate(), Err(RejectReason::WorldTooHigh));
}

#[test]
fn submit_publishes_and_stores() {
    let mut store = ListingStore::new();
    let mut bus = Bus::new(16);
    let mut cursor = bus.subscribe();
    assert!(submit(&mut store, &mut bus, listing(1, 1, 100), 1000).is_ok());
    assert_eq!(store.len(), 1);
    assert_eq!(bus.len(), 1);
    match bus.recv(&mut cursor) {
        party_finder::bus::RecvOutcome::Message(m) => {
            assert_eq!(m.listings.len(), 1);
            assert_eq!(m.listings[0].id, 1);
        }
        _ => panic!("expected the published batch"),
    }
}

#[test]
fn rejected_submit_touches_nothing() {
    let mut store = ListingStore::new();
    let mut bus = Bus::new(16);
    let r = submit(&mut store, &mut bus, listing(2, 1, 3601), 1000);
    assert_eq!(r, Err(RejectReason::SecondsTooHigh));
    assert_eq!(store.len(), 0);
    assert_eq!(bus.len(), 0);
}

#[test]
fn submit_many_counts_and_publishes_valid_subset() {
    let mut store = ListingStore::new();
    let mut bus = Bus::new(16);
    let mut cursor = bus.subscribe();
    let batch = vec![
        listing(1, 1, 100),
        listing(2, 1, 9999),
        listing(3, 2000, 100),
        listing(4, 2, 50),
    ];
    let accepted = submit_many(&mut store, &mut bus, &batch, 500);
    assert_eq!(accepted, 2);
    assert_eq!(store.len(), 2);
    assert_eq!(bus.len(), 1);
    match bus.recv(&mut cursor) {
        party_finder::bus::RecvOutcome::Message(m) => {
            assert_eq!(m.listings.len(), 2);
            assert_eq!(m.listings[0].id, 1);
            assert_eq!(m.listings[1].id, 4);
        }
        _ => panic!("expected the published batch"),
    }
}

#[test]
fn submit_many_with_no_valid_item_publishes_nothing() {
    let mut store = ListingStore::new();
    let mut bus = Bus::new(16);
    let accepted = submit_many(&mut store, &mut bus, &vec![listing(1, 1, 9999)], 500);
    assert_eq!(accepted, 0);
    assert_eq!(bus.len(), 0);
    assert_eq!(store.len(), 0);
}

#[test]
fn submit_many_with_empty_batch_publishes_nothing() {
    let mut store = ListingStore::new();
    let mut bus = Bus::new(16);
    let accepted = submit_many(&mut store, &mut bus, &Vec::new(), 500);
    assert_eq!(accepted, 0);
    assert_eq!(bus.len(), 0);
}

#[test]
fn upsert_twice_keeps_created_at_and_advances_updated_at() {
    let mut store = ListingStore::new();
    store.upsert(listing(1, 1, 100), 1000);
    store.upsert(listing(1, 1, 50), 2000);
    assert_eq!(store.len(), 1);
    let rec = store.record_at(0);
    assert_eq!(rec.created_at, 1000);
    assert_eq!(rec.updated_at, 2000);
    assert_eq!(rec.listing.seconds_remaining, 50);
}

#[test]
fn upsert_distinct_keys_appends() {
    let mut store = ListingStore::new();
    store.upsert(listing(1, 1, 100), 1000);
    let mut other = listing(1, 1, 100);
    other.last_server_restart = 8;
    store.upsert(other, 1500);
    store.upsert(listing(1, 2, 100), 1600);
    assert_eq!(store.len(), 3);
    assert_eq!(store.record_at(0).created_at, 1000);
    assert_eq!(store.record_at(1).created_at, 1500);
    assert_eq!(store.record_at(2).created_at, 1600);
}

#[test]
fn query_window_derives_remaining_time() {
    let mut store = ListingStore::new();
    store.upsert(listing(1, 1, 100), 1000);
    let out = store.query_window(1040, 7200);
    assert_eq!(out.len(), 1);
    assert_eq!(out[0].time_left, 60);
    assert_eq!(out[0].created_at, 1000);
    assert_eq!(out[0].updated_at, 1000);
    assert_eq!(out[0].updated_minute, 900);
}

#[test]
fn query_window_drops_expired_records() {
    let mut store = ListingStore::new();
    store.upsert(listing(1, 1, 100), 1000);
    let out = store.query_window(1101, 7200);
    assert!(out.is_empty());
    let at_zero = store.query_window(1100, 7200);
    assert_eq!(at_zero.len(), 1);
    assert_eq!(at_zero[0].time_left, 0);
}

#[test]
fn query_window_drops_stale_records() {
    let mut store = ListingStore::new();
    store.upsert(listing(1, 1, 3600), 1000);
    assert_eq!(store.query_window(4000, 7200).len(), 1);
    assert!(store.query_window(9000, 7200).is_empty());
}

#[test]
fn query_window_excludes_private_listings() {
    let mut store = ListingStore::new();
    let mut private = listing(1, 1, 100);
    private.search_area = 2;
    store.upsert(private, 1000);
    store.upsert(listing(2, 1, 100), 1000);
    let out = store.query_window(1000, 7200);
    assert_eq!(out.len(), 1);
    assert_eq!(out[0].listing.id, 2);
}

#[test]
fn accepted_listing_is_queryable_at_once() {
    let mut store = ListingStore::new();
    let mut bus = Bus::new(16);
    assert!(submit(&mut store, &mut bus, listing(9, 3, 777), 5000).is_ok());
    let out = store.query_window(5000, 7200);
    assert_eq!(out.len(), 1);
    assert_eq!(out[0].listing.id, 9);
    assert!(out[0].time_left >= 0);
    assert_eq!(out[0].time_left, 777);
}

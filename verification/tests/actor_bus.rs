use party_finder::actor::{Actor, ActorPhase, StepEvent};
use party_finder::bus::{BroadcastMessage, Bus, RecvOutcome};
use party_finder::gate::submit;
use party_finder::listing::Listing;
use party_finder::protocol::{Channel, InboundMsg, OutboundMsg};
use party_finder::store::ListingStore;

fn listing(id: u32, world: u16, seconds_remaining: u16) -> Listing {
    Listing {
        id,
        last_server_restart: 7,
        created_world: world,
        home_world: world,
        current_world: world,
        seconds_remaining,
        category: 0,
        search_area: 0,
        name: b"Recruiter".to_vec(),
        description: b"come join".to_vec(),
    }
}

fn batch(ids: &[u32]) -> BroadcastMessage {
    BroadcastMessage { listings: ids.iter().map(|&id| listing(id, 1, 60)).collect() }
}

#[test]
fn bus_delivers_in_publication_order() {
    let mut bus = Bus::new(16);
    let mut cursor = bus.subscribe();
    bus.publish(batch(&[1]));
    bus.publish(batch(&[2]));
    for expected in [1u32, 2u32] {
        match bus.recv(&mut cursor) {
            RecvOutcome::Message(m) => assert_eq!(m.listings[0].id, expected),
            _ => panic!("expected a message"),
        }
    }
    assert!(matches!(bus.recv(&mut cursor), RecvOutcome::Empty));
}

#[test]
fn bus_cursor_sees_only_later_publications() {
    let mut bus = Bus::new(16);
    bus.publish(batch(&[1]));
    let mut cursor = bus.subscribe();
    assert!(matches!(bus.recv(&mut cursor), RecvOutcome::Empty));
    bus.publish(batch(&[2]));
    match bus.recv(&mut cursor) {
        RecvOutcome::Message(m) => assert_eq!(m.listings[0].id, 2),
        _ => panic!("expected the later message"),
    }
}

#[test]
fn bus_lag_skips_but_never_reorders() {
    let mut bus = Bus::new(2);
    let mut cursor = bus.subscribe();
    for id in 1..=5u32 {
        bus.publish(batch(&[id]));
    }
    assert!(matches!(bus.recv(&mut cursor), RecvOutcome::Lagged));
    match bus.recv(&mut cursor) {
        RecvOutcome::Message(m) => assert_eq!(m.listings[0].id, 4),
        _ => panic!("expected the oldest retained message"),
    }
    match bus.recv(&mut cursor) {
        RecvOutcome::Message(m) => assert_eq!(m.listings[0].id, 5),
        _ => panic!("expected the newest message"),
    }
}

#[test]
fn subscribe_spawns_one_live_forwarder_and_acknowledges() {
    let bus = Bus::new(16);
    let mut actor = Actor::new();
    let eff = actor.handle_msg(&bus, InboundMsg::Subscribe { channel: Channel::Listings });
    assert_eq!(eff.spawned, Some(0));
    assert_eq!(eff.cancelled, None);
    assert_eq!(actor.forwarders.len(), 1);
    assert!(actor.forwarders[0].live);
    assert_eq!(
        actor.pop_outbound(),
        Some(OutboundMsg::Subscribed { channel: Channel::Listings })
    );
    assert_eq!(actor.pop_outbound(), None);
}

#[test]
fn repeat_subscribe_replaces_leaving_one_live_forwarder() {
    let bus = Bus::new(16);
    let mut actor = Actor::new();
    actor.handle_msg(&bus, InboundMsg::Subscribe { channel: Channel::Listings });
    let eff = actor.handle_msg(&bus, InboundMsg::Subscribe { channel: Channel::Listings });
    assert_eq!(eff.spawned, Some(1));
    assert_eq!(eff.cancelled, Some(0));
    let live: Vec<_> = actor.forwarders.iter().filter(|f| f.live).collect();
    assert_eq!(live.len(), 1);
    assert_eq!(live[0].task, 1);
}

#[test]
fn unsubscribe_cancels_and_still_acknowledges_when_absent() {
    let bus = Bus::new(16);
    let mut actor = Actor::new();
    let eff = actor.handle_msg(&bus, InboundMsg::Unsubscribe { channel: Channel::Listings });
    assert_eq!(eff.cancelled, None);
    assert_eq!(
        actor.pop_outbound(),
        Some(OutboundMsg::Unsubscribed { channel: Channel::Listings })
    );
    actor.handle_msg(&bus, InboundMsg::Subscribe { channel: Channel::Listings });
    let eff = actor.handle_msg(&bus, InboundMsg::Unsubscribe { channel: Channel::Listings });
    assert_eq!(eff.cancelled, Some(0));
    assert!(actor.forwarders.iter().all(|f| !f.live));
}

#[test]
fn unsubscribe_then_publication_yields_no_listings_frame() {
    let mut bus = Bus::new(16);
    let mut actor = Actor::new();
    actor.handle_msg(&bus, InboundMsg::Subscribe { channel: Channel::Listings });
    actor.handle_msg(&bus, InboundMsg::Unsubscribe { channel: Channel::Listings });
    while actor.pop_outbound().is_some() {}
    bus.publish(batch(&[1]));
    // No forwarding task of the channel is live, so no step can run and
    // nothing reaches the outbound queue.
    assert!(actor.forwarders.iter().all(|f| !f.live));
    assert_eq!(actor.pop_outbound(), None);
}

#[test]
fn forwarder_step_delivers_then_idles() {
    let mut bus = Bus::new(16);
    let mut actor = Actor::new();
    actor.handle_msg(&bus, InboundMsg::Subscribe { channel: Channel::Listings });
    while actor.pop_outbound().is_some() {}
    bus.publish(batch(&[1]));
    assert!(matches!(actor.forwarder_step(0, &bus), StepEvent::Delivered));
    assert!(matches!(actor.forwarder_step(0, &bus), StepEvent::Idle));
    match actor.pop_outbound() {
        Some(OutboundMsg::Listings { listings }) => assert_eq!(listings[0].id, 1),
        other => panic!("expected a listings frame, got {:?}", other),
    }
}

#[test]
fn forwarder_lag_terminates_the_task() {
    let mut bus = Bus::new(2);
    let mut actor = Actor::new();
    actor.handle_msg(&bus, InboundMsg::Subscribe { channel: Channel::Listings });
    while actor.pop_outbound().is_some() {}
    for id in 1..=5u32 {
        bus.publish(batch(&[id]));
    }
    assert!(matches!(actor.forwarder_step(0, &bus), StepEvent::Lagged));
    assert!(!actor.forwarders[0].live);
    assert_eq!(actor.pop_outbound(), None);
}

#[test]
fn drain_delivers_every_pending_batch_in_order() {
    let mut bus = Bus::new(16);
    let mut actor = Actor::new();
    actor.handle_msg(&bus, InboundMsg::Subscribe { channel: Channel::Listings });
    while actor.pop_outbound().is_some() {}
    for id in 1..=3u32 {
        bus.publish(batch(&[id]));
    }
    actor.forwarder_drain(0, &bus);
    for expected in [1u32, 2, 3] {
        match actor.pop_outbound() {
            Some(OutboundMsg::Listings { listings }) => assert_eq!(listings[0].id, expected),
            other => panic!("expected a listings frame, got {:?}", other),
        }
    }
    assert_eq!(actor.pop_outbound(), None);
    assert!(actor.forwarders[0].live);
}

#[test]
fn teardown_cancels_every_forwarding_task() {
    let bus = Bus::new(16);
    let mut actor = Actor::new();
    actor.handle_msg(&bus, InboundMsg::Subscribe { channel: Channel::Listings });
    let cancelled = actor.on_transport_closed();
    assert_eq!(cancelled, vec![0]);
    assert_eq!(actor.phase, ActorPhase::Closed);
    assert!(actor.forwarders.iter().all(|f| !f.live));
    let again = actor.on_transport_closed();
    assert!(again.is_empty());
}

#[test]
fn lagged_viewer_recovers_by_resubscribing() {
    let mut bus = Bus::new(2);
    let mut actor = Actor::new();
    actor.handle_msg(&bus, InboundMsg::Subscribe { channel: Channel::Listings });
    for id in 1..=5u32 {
        bus.publish(batch(&[id]));
    }
    assert!(matches!(actor.forwarder_step(0, &bus), StepEvent::Lagged));
    let eff = actor.handle_msg(&bus, InboundMsg::Subscribe { channel: Channel::Listings });
    assert_eq!(eff.spawned, Some(1));
    while actor.pop_outbound().is_some() {}
    bus.publish(batch(&[6]));
    let fresh = actor.forwarders.iter().position(|f| f.live).unwrap();
    assert!(matches!(actor.forwarder_step(fresh, &bus), StepEvent::Delivered));
    match actor.pop_outbound() {
        Some(OutboundMsg::Listings { listings }) => assert_eq!(listings[0].id, 6),
        other => panic!("expected the post-resubscribe batch, got {:?}", other),
    }
}

#[test]
fn malformed_frame_reports_err_and_keeps_connection() {
    let bus = Bus::new(16);
    let mut actor = Actor::new();
    let eff = actor.handle_frame(&bus, &b"not json".to_vec());
    assert_eq!(eff.spawned, None);
    assert_eq!(eff.cancelled, None);
    match actor.pop_outbound() {
        Some(OutboundMsg::Error { message }) => {
            assert_eq!(message, b"invalid control frame".to_vec())
        }
        other => panic!("expected an error frame, got {:?}", other),
    }
    assert_eq!(actor.phase, ActorPhase::Active);
}

#[test]
fn end_to_end_submit_subscribe_resubmit() {
    let mut store = ListingStore::new();
    let mut bus = Bus::new(16);
    let mut actor = Actor::new();

    // The viewer subscribes; its forwarding task observes everything
    // published from here on.
    actor.handle_frame(&bus, &b"{\"type\":\"subscribe\",\"channel\":\"listings\"}".to_vec());
    assert_eq!(
        actor.pop_outbound(),
        Some(OutboundMsg::Subscribed { channel: Channel::Listings })
    );

    assert!(submit(&mut store, &mut bus, listing(1, 1, 100), 1000).is_ok());
    actor.forwarder_drain(0, &bus);
    match actor.pop_outbound() {
        Some(OutboundMsg::Listings { listings }) => {
            assert_eq!(listings.len(), 1);
            assert_eq!(listings[0].id, 1);
            assert_eq!(listings[0].seconds_remaining, 100);
        }
        other => panic!("expected the first listings frame, got {:?}", other),
    }

    assert!(submit(&mut store, &mut bus, listing(1, 1, 50), 2000).is_ok());
    actor.forwarder_drain(0, &bus);
    match actor.pop_outbound() {
        Some(OutboundMsg::Listings { listings }) => {
            assert_eq!(listings[0].seconds_remaining, 50);
        }
        other => panic!("expected the second listings frame, got {:?}", other),
    }

    let out = store.query_window(2000, 7200);
    assert_eq!(out.len(), 1);
    assert_eq!(out[0].created_at, 1000);
    assert_eq!(out[0].updated_at, 2000);
}

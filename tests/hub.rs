use schnose_gsi_client::{BroadcastHub, GameInfo};

fn state(n: u8) -> GameInfo {
    let mut s = GameInfo::default();
    s.player_name = format!("player {n}");
    s.map_tier = Some(n);
    s
}

fn drain(hub: &mut BroadcastHub, id: u64) -> Vec<String> {
    let mut out = Vec::new();
    while let Some(s) = hub.recv(id) {
        out.push(s.player_name);
    }
    out
}

#[test]
fn initial_state_reaches_early_subscribers() {
    let mut hub = BroadcastHub::new(4);
    let id = hub.subscribe().unwrap();
    let first = hub.recv(id).unwrap();
    assert_eq!(first.player_name, "unknown");
    assert_eq!(first.map_name, "unknown map");
    assert!(hub.recv(id).is_none());
}

#[test]
fn every_subscriber_gets_every_state_in_order() {
    let mut hub = BroadcastHub::new(8);
    let ids: Vec<u64> = (0..3).map(|_| hub.subscribe().unwrap()).collect();
    for id in &ids {
        hub.recv(*id).unwrap();
    }
    for n in 1..=5 {
        hub.publish(state(n));
    }
    for id in ids {
        assert_eq!(drain(&mut hub, id), vec!["player 1", "player 2", "player 3", "player 4", "player 5"]);
    }
}

#[test]
fn late_subscriber_misses_earlier_states() {
    let mut hub = BroadcastHub::new(8);
    hub.publish(state(1));
    hub.publish(state(2));
    let id = hub.subscribe().unwrap();
    hub.publish(state(3));
    assert_eq!(drain(&mut hub, id), vec!["player 2", "player 3"]);
}

#[test]
fn full_queue_drops_oldest() {
    let mut hub = BroadcastHub::new(3);
    let id = hub.subscribe().unwrap();
    for n in 1..=5 {
        hub.publish(state(n));
    }
    assert_eq!(drain(&mut hub, id), vec!["player 3", "player 4", "player 5"]);
}

#[test]
fn capacity_one_keeps_latest() {
    let mut hub = BroadcastHub::new(1);
    assert_eq!(hub.capacity(), 1);
    let id = hub.subscribe().unwrap();
    hub.publish(state(1));
    hub.publish(state(2));
    assert_eq!(drain(&mut hub, id), vec!["player 2"]);
}

#[test]
fn slow_subscriber_does_not_affect_fast_one() {
    let mut hub = BroadcastHub::new(2);
    let slow = hub.subscribe().unwrap();
    let fast = hub.subscribe().unwrap();
    hub.recv(fast).unwrap();
    let mut seen = Vec::new();
    for n in 1..=4 {
        hub.publish(state(n));
        seen.extend(drain(&mut hub, fast));
    }
    assert_eq!(seen, vec!["player 1", "player 2", "player 3", "player 4"]);
    assert_eq!(drain(&mut hub, slow), vec!["player 3", "player 4"]);
}

#[test]
fn disconnected_subscriber_is_removed_at_next_publish() {
    let mut hub = BroadcastHub::new(4);
    let a = hub.subscribe().unwrap();
    let b = hub.subscribe().unwrap();
    hub.disconnect(a);
    assert!(hub.is_subscribed(a));
    hub.publish(state(1));
    assert!(!hub.is_subscribed(a));
    assert!(hub.recv(a).is_none());
    assert!(hub.is_subscribed(b));
    assert_eq!(drain(&mut hub, b), vec!["unknown", "player 1"]);
}

#[test]
fn identifiers_are_fresh() {
    let mut hub = BroadcastHub::new(1);
    let a = hub.subscribe().unwrap();
    let b = hub.subscribe().unwrap();
    assert_ne!(a, b);
    assert!(hub.recv(b + 1).is_none());
    hub.disconnect(b + 1);
    assert!(hub.is_subscribed(a) && hub.is_subscribed(b));
}

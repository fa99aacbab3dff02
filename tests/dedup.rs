use schnose_gsi_client::{Deduplicator, PlayerInfo, RawEvent};

fn event(name: &str, clan: Option<&str>, map: Option<&str>) -> RawEvent {
    RawEvent {
        player: Some(PlayerInfo {
            name: name.to_string(),
            steam_id: 76561198282622073,
            clan: clan.map(str::to_string),
        }),
        map_name: map.map(str::to_string),
    }
}

#[test]
fn same_event_twice_is_suppressed() {
    let mut d = Deduplicator::new();
    let e = event("Alice", Some("[KZT]"), Some("kz_a"));
    assert_eq!((d.accept(&e), d.accept(&e)), (true, false));
}

#[test]
fn equal_copy_is_suppressed() {
    let mut d = Deduplicator::new();
    assert!(d.accept(&event("Alice", Some("[KZT]"), Some("kz_a"))));
    assert!(!d.accept(&event("Alice", Some("[KZT]"), Some("kz_a"))));
}

#[test]
fn any_field_change_passes() {
    let mut d = Deduplicator::new();
    assert!(d.accept(&event("Alice", Some("[KZT 1]"), Some("kz_a"))));
    assert!(d.accept(&event("Alice", Some("[KZT 2]"), Some("kz_a"))));
    assert!(d.accept(&event("Alice", Some("[KZT 2]"), Some("kz_b"))));
    assert!(d.accept(&event("Alice", None, Some("kz_b"))));
    assert!(d.accept(&event("Bob", None, Some("kz_b"))));
    assert!(d.accept(&RawEvent { player: None, map_name: None }));
    assert!(!d.accept(&RawEvent { player: None, map_name: None }));
}

#[test]
fn only_the_last_event_is_remembered() {
    let mut d = Deduplicator::new();
    let a = event("Alice", None, None);
    let b = event("Bob", None, None);
    assert!(d.accept(&a));
    assert!(d.accept(&b));
    assert!(d.accept(&a));
}

use schnose_gsi_client::normalize::{summarize, EnrichmentError, PlayerKey, RecordLookups};
use schnose_gsi_client::{normalize, GameInfo, MapMeta, Mode, PlayerInfo, RawEvent, Record, SteamId};

const ALICE: u64 = 76561198282622073;
const BOB: u64 = 76561197960265729;

fn raw(name: &str, steam_id: u64, clan: Option<&str>, map: Option<&str>) -> RawEvent {
    RawEvent {
        player: Some(PlayerInfo { name: name.to_string(), steam_id, clan: clan.map(str::to_string) }),
        map_name: map.map(str::to_string),
    }
}

fn record(seconds: f64, name: &str, id: u64) -> Record {
    Record { time_bits: seconds.to_bits(), player_name: name.to_string(), steam_id: SteamId { id64: id } }
}

fn lookups(
    tp_wr: Result<Record, EnrichmentError>,
    tp_pb: Result<Record, EnrichmentError>,
    pro_wr: Result<Record, EnrichmentError>,
    pro_pb: Result<Record, EnrichmentError>,
) -> RecordLookups {
    RecordLookups { tp_wr, tp_pb, pro_wr, pro_pb }
}

fn time_of(r: &Option<Record>) -> Option<f64> {
    r.as_ref().map(|r| f64::from_bits(r.time_bits))
}

#[test]
fn end_to_end_scenario() {
    let event = raw("Alice", ALICE, Some("[KZT]"), Some("bkz_example"));
    let summary = summarize(&event);
    assert_eq!(summary.map_query.as_deref(), Some("bkz_example"));
    assert_eq!(summary.mode, Some(Mode::KZTimer));
    let resolved = summary.resolve_map(Some(Ok(MapMeta { name: "bkz_example".to_string(), tier: 3 })));
    let query = resolved.record_query().expect("a known mode asks for records");
    assert_eq!(query.map_name, "bkz_example");
    assert_eq!(query.mode, Mode::KZTimer);
    assert!(matches!(query.player, PlayerKey::Steam(SteamId { id64: ALICE })));
    let info: GameInfo = resolved.finish(Some(lookups(
        Ok(record(42.5, "Bob", BOB)),
        Err(EnrichmentError::NotFound),
        Ok(record(50.25, "Carol", BOB)),
        Err(EnrichmentError::NotFound),
    )));
    assert_eq!(info.player_name, "Alice");
    assert_eq!(info.steam_id, Some(SteamId { id64: ALICE }));
    assert_eq!(info.map_name, "bkz_example");
    assert_eq!(info.map_tier, Some(3));
    assert_eq!(info.mode, Some(Mode::KZTimer));
    let wr = info.tp_wr.as_ref().unwrap();
    assert_eq!(f64::from_bits(wr.time_bits), 42.5);
    assert_eq!(wr.player_name, "Bob");
    assert_eq!(wr.steam_id, SteamId { id64: BOB });
    assert!(info.tp_pb.is_none());
    assert_eq!(time_of(&info.pro_wr), Some(50.25));
    assert!(info.pro_pb.is_none());
}

#[test]
fn failed_world_record_keeps_personal_best() {
    let event = raw("Alice", ALICE, Some("[SKZ Legend]"), Some("kz_a"));
    let info = normalize(
        &event,
        Some(Ok(MapMeta { name: "kz_a".to_string(), tier: 2 })),
        Some(lookups(
            Err(EnrichmentError::Request),
            Ok(record(61.0, "Alice", ALICE)),
            Err(EnrichmentError::Decode),
            Ok(record(70.0, "Alice", ALICE)),
        )),
    );
    assert!(info.tp_wr.is_none());
    assert_eq!(time_of(&info.tp_pb), Some(61.0));
    assert!(info.pro_wr.is_none());
    assert_eq!(time_of(&info.pro_pb), Some(70.0));
}

#[test]
fn unknown_mode_asks_for_no_records() {
    let event = raw("Alice", ALICE, Some("garbage"), Some("kz_a"));
    let resolved = summarize(&event).resolve_map(Some(Ok(MapMeta { name: "kz_a".to_string(), tier: 1 })));
    assert!(resolved.record_query().is_none());
    let info = resolved.finish(Some(lookups(
        Ok(record(1.0, "x", BOB)),
        Ok(record(1.0, "x", BOB)),
        Ok(record(1.0, "x", BOB)),
        Ok(record(1.0, "x", BOB)),
    )));
    assert_eq!(info.mode, None);
    assert!(info.tp_wr.is_none() && info.tp_pb.is_none() && info.pro_wr.is_none() && info.pro_pb.is_none());
}

#[test]
fn empty_event_gives_sentinels() {
    let info = normalize(&RawEvent { player: None, map_name: None }, None, None);
    assert_eq!(info.player_name, "unknown player");
    assert_eq!(info.steam_id, None);
    assert_eq!(info.map_name, "unknown map");
    assert_eq!(info.map_tier, None);
    assert_eq!(info.mode, None);
}

#[test]
fn unsupported_map_is_not_looked_up() {
    let summary = summarize(&raw("Alice", ALICE, None, Some("de_dust2")));
    assert!(summary.map_query.is_none());
    let info = summary
        .resolve_map(Some(Ok(MapMeta { name: "de_dust2".to_string(), tier: 7 })))
        .finish(None);
    assert_eq!(info.map_name, "unknown map");
    assert_eq!(info.map_tier, None);
}

#[test]
fn failed_map_lookup_keeps_stripped_name() {
    let event = raw("Alice", ALICE, None, Some("workshop/123/kz_grotto"));
    let info = normalize(&event, Some(Err(EnrichmentError::NotFound)), None);
    assert_eq!(info.map_name, "kz_grotto");
    assert_eq!(info.map_tier, None);
}

#[test]
fn canonical_map_name_is_adopted() {
    let event = raw("Alice", ALICE, None, Some("kz_GROTTO"));
    let info = normalize(&event, Some(Ok(MapMeta { name: "kz_grotto".to_string(), tier: 4 })), None);
    assert_eq!(info.map_name, "kz_grotto");
    assert_eq!(info.map_tier, Some(4));
}

#[test]
fn account_numbers_are_widened() {
    let summary = summarize(&raw("Alice", 322356345, None, None));
    assert_eq!(summary.steam_id, Some(SteamId { id64: ALICE }));
    let summary = summarize(&raw("Alice", 5, None, None));
    assert_eq!(summary.steam_id, Some(SteamId { id64: 76561197960265733 }));
}

#[test]
fn invalid_account_is_absent_not_an_error() {
    assert_eq!(summarize(&raw("Alice", 76561197960265728, None, None)).steam_id, None);
    assert_eq!(summarize(&raw("Alice", u64::MAX, None, None)).steam_id, None);
    assert_eq!(summarize(&raw("Alice", 76561202255233023, None, None)).steam_id, Some(SteamId { id64: 76561202255233023 }));
    assert_eq!(summarize(&raw("Alice", 76561202255233024, None, None)).steam_id, None);
}

#[test]
fn player_without_account_is_looked_up_by_name() {
    let resolved = summarize(&raw("Alice", u64::MAX, Some("[VNL]"), Some("kz_a"))).resolve_map(None);
    let query = resolved.record_query().unwrap();
    assert!(matches!(query.player, PlayerKey::Name(ref n) if n == "Alice"));
    assert_eq!(query.mode, Mode::Vanilla);
    assert_eq!(query.map_name, "kz_a");
}

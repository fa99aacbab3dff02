//! Turning a raw frame into a `GameInfo`, around the remote lookups that enrich it.
//!
//! The work runs in three steps, so that the caller can make the lookups in between:
//! `summarize` reads the frame and names the map to look up; `EventSummary::resolve_map`
//! takes the map lookup's outcome and names the record lookups; `ResolvedEvent::finish`
//! takes their outcomes and builds the state. A failed lookup leaves its field empty.
use vstd::prelude::*;
use crate::event::{RawEvent, RawEventView};
use crate::game_info::{GameInfo, GameInfoView, MapMeta, MapMetaView, Record, RecordView};
use crate::map::{has_supported_prefix, last_segment, strip_map_path, supported_map};
use crate::mode::{mode_of_tag, parse_clan_mode, Mode};
use crate::steam::{steam_id_from_raw, steam_id_of, SteamId};

verus! {

/// Why a remote lookup gave nothing; every kind is treated alike.
#[derive(Debug, Clone, Copy, PartialEq, Eq, Structural)]
pub enum EnrichmentError {
    /// The request did not complete.
    Request,
    /// The service has no such entry.
    NotFound,
    /// The answer could not be read.
    Decode,
}

/// Who a personal-best lookup is about.
#[derive(Debug)]
pub enum PlayerKey {
    Steam(SteamId),
    Name(String),
}

pub enum PlayerKeyView {
    Steam(SteamId),
    Name(Seq<char>),
}

impl View for PlayerKey {
    type V = PlayerKeyView;

    open spec fn view(&self) -> PlayerKeyView {
        match self {
            PlayerKey::Steam(id) => PlayerKeyView::Steam(*id),
            PlayerKey::Name(n) => PlayerKeyView::Name(n@),
        }
    }
}

/// The four record lookups that a known mode calls for.
#[derive(Debug)]
pub struct RecordQuery {
    pub map_name: String,
    pub mode: Mode,
    pub player: PlayerKey,
}

pub struct RecordQueryView {
    pub map_name: Seq<char>,
    pub mode: Mode,
    pub player: PlayerKeyView,
}

impl View for RecordQuery {
    type V = RecordQueryView;

    open spec fn view(&self) -> RecordQueryView {
        RecordQueryView { map_name: self.map_name@, mode: self.mode, player: self.player@ }
    }
}

/// The outcomes of the four record lookups.
#[derive(Debug)]
pub struct RecordLookups {
    pub tp_wr: Result<Record, EnrichmentError>,
    pub tp_pb: Result<Record, EnrichmentError>,
    pub pro_wr: Result<Record, EnrichmentError>,
    pub pro_pb: Result<Record, EnrichmentError>,
}

/// What each record lookup found.
pub struct RecordLookupsView {
    pub tp_wr: Option<RecordView>,
    pub tp_pb: Option<RecordView>,
    pub pro_wr: Option<RecordView>,
    pub pro_pb: Option<RecordView>,
}

pub open spec fn found(r: Result<Record, EnrichmentError>) -> Option<RecordView> {
    match r {
        Ok(x) => Some(x@),
        Err(_) => None,
    }
}

impl View for RecordLookups {
    type V = RecordLookupsView;

    open spec fn view(&self) -> RecordLookupsView {
        RecordLookupsView {
            tp_wr: found(self.tp_wr),
            tp_pb: found(self.tp_pb),
            pro_wr: found(self.pro_wr),
            pro_pb: found(self.pro_pb),
        }
    }
}

pub open spec fn lookups_view(l: Option<RecordLookups>) -> Option<RecordLookupsView> {
    match l {
        Some(x) => Some(x@),
        None => None,
    }
}

/// What a map lookup found, if one was made and it succeeded.
pub open spec fn map_found(l: Option<Result<MapMeta, EnrichmentError>>) -> Option<MapMetaView> {
    match l {
        Some(Ok(m)) => Some(m@),
        _ => None,
    }
}

/// What a frame says before any lookup.
#[derive(Debug)]
pub struct EventSummary {
    pub player_name: String,
    pub steam_id: Option<SteamId>,
    pub mode: Option<Mode>,
    /// The map to look up: the frame's map name without its path, when it is supported.
    pub map_query: Option<String>,
}

pub struct EventSummaryView {
    pub player_name: Seq<char>,
    pub steam_id: Option<SteamId>,
    pub mode: Option<Mode>,
    pub map_query: Option<Seq<char>>,
}

impl View for EventSummary {
    type V = EventSummaryView;

    open spec fn view(&self) -> EventSummaryView {
        EventSummaryView {
            player_name: self.player_name@,
            steam_id: self.steam_id,
            mode: self.mode,
            map_query: crate::event::text_view(self.map_query),
        }
    }
}

pub open spec fn summary_of(e: RawEventView) -> EventSummaryView {
    EventSummaryView {
        player_name: match e.player {
            Some(p) => p.name,
            None => "unknown player"@,
        },
        steam_id: match e.player {
            Some(p) => steam_id_of(p.steam_id),
            None => None,
        },
        mode: match e.player {
            Some(p) => match p.clan {
                Some(c) => mode_of_tag(c),
                None => None,
            },
            None => None,
        },
        map_query: match e.map_name {
            Some(m) => if supported_map(m) {
                Some(last_segment(m))
            } else {
                None
            },
            None => None,
        },
    }
}

/// A frame together with the outcome of its map lookup.
#[derive(Debug)]
pub struct ResolvedEvent {
    pub player_name: String,
    pub steam_id: Option<SteamId>,
    pub mode: Option<Mode>,
    pub map_name: String,
    pub map_tier: Option<u8>,
}

pub struct ResolvedEventView {
    pub player_name: Seq<char>,
    pub steam_id: Option<SteamId>,
    pub mode: Option<Mode>,
    pub map_name: Seq<char>,
    pub map_tier: Option<u8>,
}

impl View for ResolvedEvent {
    type V = ResolvedEventView;

    open spec fn view(&self) -> ResolvedEventView {
        ResolvedEventView {
            player_name: self.player_name@,
            steam_id: self.steam_id,
            mode: self.mode,
            map_name: self.map_name@,
            map_tier: self.map_tier,
        }
    }
}

/// Without a supported map: the sentinel name and no tier. With one: the canonical name
/// and tier when the lookup found the map, else the name as the frame gave it, no tier.
pub open spec fn resolved_of(s: EventSummaryView, map: Option<MapMetaView>) -> ResolvedEventView {
    ResolvedEventView {
        player_name: s.player_name,
        steam_id: s.steam_id,
        mode: s.mode,
        map_name: match s.map_query {
            None => "unknown map"@,
            Some(q) => match map {
                Some(m) => m.name,
                None => q,
            },
        },
        map_tier: match s.map_query {
            None => None,
            Some(q) => match map {
                Some(m) => Some(m.tier),
                None => None,
            },
        },
    }
}

/// Records are looked up only under a known mode; the player is named by account when
/// the account is known, else by name.
pub open spec fn record_query_of(r: ResolvedEventView) -> Option<RecordQueryView> {
    match r.mode {
        Some(m) => Some(
            RecordQueryView {
                map_name: r.map_name,
                mode: m,
                player: match r.steam_id {
                    Some(id) => PlayerKeyView::Steam(id),
                    None => PlayerKeyView::Name(r.player_name),
                },
            },
        ),
        None => None,
    }
}

/// The state: each record slot holds what its own lookup found, and all four stay empty
/// under an unknown mode.
pub open spec fn finished(r: ResolvedEventView, l: Option<RecordLookupsView>) -> GameInfoView {
    let known = r.mode is Some && l is Some;
    GameInfoView {
        player_name: r.player_name,
        steam_id: r.steam_id,
        map_name: r.map_name,
        map_tier: r.map_tier,
        mode: r.mode,
        tp_wr: if known { l->0.tp_wr } else { None },
        tp_pb: if known { l->0.tp_pb } else { None },
        pro_wr: if known { l->0.pro_wr } else { None },
        pro_pb: if known { l->0.pro_pb } else { None },
    }
}

/// The state built from a frame, what its map lookup found and what its record lookups
/// found.
pub open spec fn normalized(
    e: RawEventView,
    map: Option<MapMetaView>,
    l: Option<RecordLookupsView>,
) -> GameInfoView {
    finished(resolved_of(summary_of(e), map), l)
}

/// Reads a frame: player name (or the sentinel), account, mode from the clan tag, and the
/// map to look up.
pub fn summarize(raw: &RawEvent) -> (r: EventSummary)
    ensures
        r@ == summary_of(raw@),
{
    let (player_name, steam_id, mode) = match &raw.player {
        Some(p) => {
            let mode = match &p.clan {
                Some(c) => parse_clan_mode(c.as_str()),
                None => None,
            };
            (p.name.clone(), steam_id_from_raw(p.steam_id), mode)
        },
        None => ("unknown player".to_string(), None, None),
    };
    let map_query = match &raw.map_name {
        Some(m) => {
            let name = strip_map_path(m.as_str());
            if has_supported_prefix(name.as_str()) {
                Some(name)
            } else {
                None
            }
        },
        None => None,
    };
    EventSummary { player_name, steam_id, mode, map_query }
}

fn take_found(r: Result<Record, EnrichmentError>) -> (o: Option<Record>)
    ensures
        crate::game_info::record_view(o) == found(r),
{
    match r {
        Ok(x) => Some(x),
        Err(_) => None,
    }
}

impl EventSummary {
    /// Takes the outcome of the map lookup, `None` when none was made. The outcome is
    /// ignored when the summary names no map to look up.
    pub fn resolve_map(self, lookup: Option<Result<MapMeta, EnrichmentError>>) -> (r: ResolvedEvent)
        ensures
            r@ == resolved_of(self@, map_found(lookup)),
    {
        let (map_name, map_tier) = match self.map_query {
            None => ("unknown map".to_string(), None),
            Some(q) => match lookup {
                Some(Ok(m)) => (m.name, Some(m.tier)),
                _ => (q, None),
            },
        };
        ResolvedEvent {
            player_name: self.player_name,
            steam_id: self.steam_id,
            mode: self.mode,
            map_name,
            map_tier,
        }
    }
}

impl ResolvedEvent {
    /// The record lookups to make, `None` when the mode is unknown.
    pub fn record_query(&self) -> (r: Option<RecordQuery>)
        ensures
            match r {
                Some(q) => record_query_of(self@) == Some(q@),
                None => record_query_of(self@) is None,
            },
    {
        match self.mode {
            Some(m) => {
                let player = match self.steam_id {
                    Some(id) => PlayerKey::Steam(id),
                    None => PlayerKey::Name(self.player_name.clone()),
                };
                Some(RecordQuery { map_name: self.map_name.clone(), mode: m, player })
            },
            None => None,
        }
    }

    /// Builds the state from the outcomes of the record lookups, `None` when none were
    /// made.
    pub fn finish(self, lookups: Option<RecordLookups>) -> (r: GameInfo)
        ensures
            r@ == finished(self@, lookups_view(lookups)),
    {
        let (tp_wr, tp_pb, pro_wr, pro_pb) = match (self.mode, lookups) {
            (Some(_), Some(l)) => (take_found(l.tp_wr), take_found(l.tp_pb), take_found(l.pro_wr), take_found(l.pro_pb)),
            _ => (None, None, None, None),
        };
        GameInfo {
            player_name: self.player_name,
            steam_id: self.steam_id,
            map_name: self.map_name,
            map_tier: self.map_tier,
            mode: self.mode,
            tp_wr,
            tp_pb,
            pro_wr,
            pro_pb,
        }
    }
}

/// The whole normalisation of a frame, given the outcome of its map lookup and of its
/// record lookups (each `None` when not made).
pub fn normalize(
    raw: &RawEvent,
    map_lookup: Option<Result<MapMeta, EnrichmentError>>,
    record_lookups: Option<RecordLookups>,
) -> (r: GameInfo)
    ensures
        r@ == normalized(raw@, map_found(map_lookup), lookups_view(record_lookups)),
{
    summarize(raw).resolve_map(map_lookup).finish(record_lookups)
}

/// Each record slot of the state depends on its own lookup alone: under a known mode it
/// holds exactly what that lookup found, whatever the other three did.
pub proof fn lemma_lookup_isolation(
    e: RawEventView,
    map: Option<MapMetaView>,
    l: RecordLookupsView,
)
    requires
        summary_of(e).mode is Some,
    ensures
        normalized(e, map, Some(l)).tp_wr == l.tp_wr,
        normalized(e, map, Some(l)).tp_pb == l.tp_pb,
        normalized(e, map, Some(l)).pro_wr == l.pro_wr,
        normalized(e, map, Some(l)).pro_pb == l.pro_pb,
{
}

/// Under an unknown mode no record lookup is asked for and every record slot is empty.
pub proof fn lemma_unknown_mode_no_records(
    e: RawEventView,
    map: Option<MapMetaView>,
    l: Option<RecordLookupsView>,
)
    requires
        summary_of(e).mode is None,
    ensures
        record_query_of(resolved_of(summary_of(e), map)) is None,
        normalized(e, map, l).tp_wr is None,
        normalized(e, map, l).tp_pb is None,
        normalized(e, map, l).pro_wr is None,
        normalized(e, map, l).pro_pb is None,
{
}

} // verus!

//! The enriched game state that the pipeline publishes.
use vstd::prelude::*;
use crate::mode::Mode;
use crate::steam::SteamId;

verus! {

/// A leaderboard entry: a run time and who set it.
#[derive(Debug)]
pub struct Record {
    /// The run time in seconds, as the bit pattern of an IEEE 754 double.
    pub time_bits: u64,
    pub player_name: String,
    pub steam_id: SteamId,
}

pub struct RecordView {
    pub time_bits: u64,
    pub player_name: Seq<char>,
    pub steam_id: SteamId,
}

impl View for Record {
    type V = RecordView;

    open spec fn view(&self) -> RecordView {
        RecordView { time_bits: self.time_bits, player_name: self.player_name@, steam_id: self.steam_id }
    }
}

impl Clone for Record {
    fn clone(&self) -> (r: Self)
        ensures
            r@ == self@,
    {
        Record { time_bits: self.time_bits, player_name: self.player_name.clone(), steam_id: self.steam_id }
    }
}

pub open spec fn record_view(r: Option<Record>) -> Option<RecordView> {
    match r {
        Some(x) => Some(x@),
        None => None,
    }
}

fn clone_record(r: &Option<Record>) -> (c: Option<Record>)
    ensures
        record_view(c) == record_view(*r),
{
    match r {
        Some(x) => Some(x.clone()),
        None => None,
    }
}

/// A map as the statistics service describes it.
#[derive(Debug)]
pub struct MapMeta {
    /// The canonical map name.
    pub name: String,
    /// The difficulty rating, 1 (very easy) to 7 (death).
    pub tier: u8,
}

pub struct MapMetaView {
    pub name: Seq<char>,
    pub tier: u8,
}

impl View for MapMeta {
    type V = MapMetaView;

    open spec fn view(&self) -> MapMetaView {
        MapMetaView { name: self.name@, tier: self.tier }
    }
}

/// The canonical snapshot of the game that subscribers receive.
#[derive(Debug)]
pub struct GameInfo {
    pub player_name: String,
    pub steam_id: Option<SteamId>,
    pub map_name: String,
    pub map_tier: Option<u8>,
    pub mode: Option<Mode>,
    /// World record with teleports.
    pub tp_wr: Option<Record>,
    /// The player's personal best with teleports.
    pub tp_pb: Option<Record>,
    /// World record without teleports.
    pub pro_wr: Option<Record>,
    /// The player's personal best without teleports.
    pub pro_pb: Option<Record>,
}

pub struct GameInfoView {
    pub player_name: Seq<char>,
    pub steam_id: Option<SteamId>,
    pub map_name: Seq<char>,
    pub map_tier: Option<u8>,
    pub mode: Option<Mode>,
    pub tp_wr: Option<RecordView>,
    pub tp_pb: Option<RecordView>,
    pub pro_wr: Option<RecordView>,
    pub pro_pb: Option<RecordView>,
}

impl View for GameInfo {
    type V = GameInfoView;

    open spec fn view(&self) -> GameInfoView {
        GameInfoView {
            player_name: self.player_name@,
            steam_id: self.steam_id,
            map_name: self.map_name@,
            map_tier: self.map_tier,
            mode: self.mode,
            tp_wr: record_view(self.tp_wr),
            tp_pb: record_view(self.tp_pb),
            pro_wr: record_view(self.pro_wr),
            pro_pb: record_view(self.pro_pb),
        }
    }
}

impl Clone for GameInfo {
    fn clone(&self) -> (r: Self)
        ensures
            r@ == self@,
    {
        GameInfo {
            player_name: self.player_name.clone(),
            steam_id: self.steam_id,
            map_name: self.map_name.clone(),
            map_tier: self.map_tier,
            mode: self.mode,
            tp_wr: clone_record(&self.tp_wr),
            tp_pb: clone_record(&self.tp_pb),
            pro_wr: clone_record(&self.pro_wr),
            pro_pb: clone_record(&self.pro_pb),
        }
    }
}

/// The state published before any event has arrived.
pub open spec fn default_info() -> GameInfoView {
    GameInfoView {
        player_name: "unknown"@,
        steam_id: None,
        map_name: "unknown map"@,
        map_tier: None,
        mode: None,
        tp_wr: None,
        tp_pb: None,
        pro_wr: None,
        pro_pb: None,
    }
}

impl Default for GameInfo {
    fn default() -> (r: Self)
        ensures
            r@ == default_info(),
    {
        GameInfo {
            player_name: "unknown".to_string(),
            steam_id: None,
            map_name: "unknown map".to_string(),
            map_tier: None,
            mode: None,
            tp_wr: None,
            tp_pb: None,
            pro_wr: None,
            pro_pb: None,
        }
    }
}

} // verus!

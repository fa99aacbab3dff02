//! Raw telemetry frames as the game delivers them.
use vstd::prelude::*;

verus! {

/// The player block of a frame.
#[derive(Debug)]
pub struct PlayerInfo {
    pub name: String,
    /// The raw 64-bit identifier that the game reports.
    pub steam_id: u64,
    /// The clan tag, when the player shows one.
    pub clan: Option<String>,
}

pub struct PlayerInfoView {
    pub name: Seq<char>,
    pub steam_id: u64,
    pub clan: Option<Seq<char>>,
}

pub open spec fn text_view(s: Option<String>) -> Option<Seq<char>> {
    match s {
        Some(t) => Some(t@),
        None => None,
    }
}

impl View for PlayerInfo {
    type V = PlayerInfoView;

    open spec fn view(&self) -> PlayerInfoView {
        PlayerInfoView { name: self.name@, steam_id: self.steam_id, clan: text_view(self.clan) }
    }
}

/// One telemetry frame: every block may be missing.
#[derive(Debug)]
pub struct RawEvent {
    pub player: Option<PlayerInfo>,
    /// The map's file path or name.
    pub map_name: Option<String>,
}

pub struct RawEventView {
    pub player: Option<PlayerInfoView>,
    pub map_name: Option<Seq<char>>,
}

impl View for RawEvent {
    type V = RawEventView;

    open spec fn view(&self) -> RawEventView {
        RawEventView {
            player: match self.player {
                Some(p) => Some(p@),
                None => None,
            },
            map_name: text_view(self.map_name),
        }
    }
}

fn same_text(a: &Option<String>, b: &Option<String>) -> (r: bool)
    ensures
        r == (text_view(*a) == text_view(*b)),
{
    match (a, b) {
        (Some(x), Some(y)) => *x == *y,
        (None, None) => true,
        _ => false,
    }
}

fn clone_text(a: &Option<String>) -> (r: Option<String>)
    ensures
        text_view(r) == text_view(*a),
{
    match a {
        Some(x) => Some(x.clone()),
        None => None,
    }
}

impl PartialEq for PlayerInfo {
    fn eq(&self, other: &PlayerInfo) -> (r: bool)
        ensures
            r == (self@ == other@),
    {
        self.name == other.name && self.steam_id == other.steam_id && same_text(&self.clan, &other.clan)
    }
}

impl vstd::std_specs::cmp::PartialEqSpecImpl for PlayerInfo {
    open spec fn obeys_eq_spec() -> bool {
        true
    }

    open spec fn eq_spec(&self, other: &PlayerInfo) -> bool {
        self@ == other@
    }
}

impl Clone for PlayerInfo {
    fn clone(&self) -> (r: Self)
        ensures
            r@ == self@,
    {
        PlayerInfo { name: self.name.clone(), steam_id: self.steam_id, clan: clone_text(&self.clan) }
    }
}

impl PartialEq for RawEvent {
    /// Field-by-field equality.
    fn eq(&self, other: &RawEvent) -> (r: bool)
        ensures
            r == (self@ == other@),
    {
        let same_player = match (&self.player, &other.player) {
            (Some(a), Some(b)) => *a == *b,
            (None, None) => true,
            _ => false,
        };
        same_player && same_text(&self.map_name, &other.map_name)
    }
}

impl vstd::std_specs::cmp::PartialEqSpecImpl for RawEvent {
    open spec fn obeys_eq_spec() -> bool {
        true
    }

    open spec fn eq_spec(&self, other: &RawEvent) -> bool {
        self@ == other@
    }
}

impl Clone for RawEvent {
    fn clone(&self) -> (r: Self)
        ensures
            r@ == self@,
    {
        let player = match &self.player {
            Some(p) => Some(p.clone()),
            None => None,
        };
        RawEvent { player, map_name: clone_text(&self.map_name) }
    }
}

} // verus!

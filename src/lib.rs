//! Live game-state pipeline for CS:GO KZ: raw telemetry frames are deduplicated,
//! normalised into an enriched `GameInfo`, and fanned out to subscribers.
//!
//! - `map`: which map names belong to the supported mode family.
//! - `mode`: the gameplay mode and the clan-tag grammar that announces it.
//! - `steam`: validated Steam accounts.
//! - `game_info`: the published state.
//! - `event`: raw frames.
//! - `dedup`: suppression of repeated frames.
//! - `normalize`: from a frame, and the remote lookups it calls for, to a state.
//! - `hub`: fan-out of states to subscribers with bounded queues.
//! - `config`: settings and the upstream announcement of each state.
//! - `args`: command-line settings.
pub mod map;
pub mod mode;
pub mod steam;
pub mod game_info;
pub mod event;
pub mod dedup;
pub mod normalize;
pub mod hub;
pub mod config;
pub mod args;

pub use args::{get, Args, ArgsError, LogLevel};
pub use config::{Config, Notification};
pub use dedup::Deduplicator;
pub use event::{PlayerInfo, RawEvent};
pub use game_info::{GameInfo, MapMeta, Record};
pub use hub::BroadcastHub;
pub use map::is_valid_map_name;
pub use mode::Mode;
pub use normalize::{normalize, summarize, EnrichmentError, PlayerKey, RecordLookups, RecordQuery};
pub use steam::SteamId;

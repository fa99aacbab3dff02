//! Steam account identifiers.
use vstd::prelude::*;

verus! {

/// A validated Steam account, held as its 64-bit community identifier.
#[derive(Debug, Clone, Copy, PartialEq, Eq, Structural)]
pub struct SteamId {
    pub id64: u64,
}

/// Every valid 64-bit identifier is above this value.
pub const STEAM_ID_OFFSET: u64 = 76561197960265728;

/// The largest valid 64-bit identifier.
pub const STEAM_ID_MAX: u64 = 76561202255233023;

/// The account that a raw identifier from the game names: a value that fits in 32 bits
/// is an account number, counted from `STEAM_ID_OFFSET`; a larger one must lie above
/// `STEAM_ID_OFFSET` and not above `STEAM_ID_MAX`.
pub open spec fn steam_id_of(raw: u64) -> Option<SteamId> {
    if raw <= u32::MAX as u64 {
        if raw + STEAM_ID_OFFSET <= STEAM_ID_MAX {
            Some(SteamId { id64: (raw + STEAM_ID_OFFSET) as u64 })
        } else {
            None
        }
    } else if STEAM_ID_OFFSET < raw && raw <= STEAM_ID_MAX {
        Some(SteamId { id64: raw })
    } else {
        None
    }
}

/// Relies on gokz_rs's `TryFrom<u64> for SteamID`, which validates a raw identifier as
/// `steam_id_of` states, and on `SteamID::as_id64`, which hands back the inner value.
#[verifier::external_body]
pub(crate) fn steam_id_from_raw(raw: u64) -> (r: Option<SteamId>)
    ensures
        r == steam_id_of(raw),
{
    gokz_rs::SteamID::try_from(raw).ok().map(|id| SteamId { id64: id.as_id64() })
}

} // verus!

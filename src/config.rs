//! The client's settings, and the upstream notification they call for.
use vstd::prelude::*;

verus! {

/// The service that published states are announced to, unless configured otherwise.
pub const DEFAULT_API_URL: &'static str = "https://schnose-api.shuttleapp.rs/api/streamers";

/// The port the game's telemetry is received on, unless configured otherwise.
pub const DEFAULT_GSI_PORT: u16 = 7878;

/// The request header that carries the API key.
pub const API_KEY_HEADER: &'static str = "x-schnose-api-key";

/// The client's settings, with paths, URLs and keys held as text.
#[derive(Debug)]
pub struct Config {
    /// The game's `cfg` directory, when one was chosen.
    pub cfg_path: Option<String>,
    pub gsi_port: u16,
    /// Where published states are announced.
    pub api_url: String,
    /// The key that announcements carry; without one nothing is announced.
    pub schnose_api_key: Option<String>,
}

impl Default for Config {
    fn default() -> (r: Self)
        ensures
            r.cfg_path is None,
            r.gsi_port == DEFAULT_GSI_PORT,
            r.api_url@ == DEFAULT_API_URL@,
            r.schnose_api_key is None,
    {
        Config {
            cfg_path: None,
            gsi_port: DEFAULT_GSI_PORT,
            api_url: DEFAULT_API_URL.to_string(),
            schnose_api_key: None,
        }
    }
}

/// One announcement of a published state: where it goes and the key header it carries.
/// The body is the state in its wire form.
#[derive(Debug)]
pub struct Notification {
    pub url: String,
    pub header_name: String,
    pub header_value: String,
}

impl Config {
    /// The announcement that each published state calls for: one exactly when a key is
    /// configured, sent to `api_url` with the key in the `API_KEY_HEADER` header.
    pub fn notification(&self) -> (r: Option<Notification>)
        ensures
            match self.schnose_api_key {
                None => r is None,
                Some(key) => r matches Some(n) && n.url@ == self.api_url@ && n.header_name@
                    == API_KEY_HEADER@ && n.header_value@ == key@,
            },
    {
        match &self.schnose_api_key {
            None => None,
            Some(key) => Some(
                Notification {
                    url: self.api_url.clone(),
                    header_name: API_KEY_HEADER.to_string(),
                    header_value: key.clone(),
                },
            ),
        }
    }
}

} // verus!

//! The immutable run configuration.
//!
//! Loading and parsing the on-disk configuration file belongs to the
//! surrounding process; it hands the validated values over in these
//! structs, constructed once at startup and passed to whichever component
//! needs them.

use vstd::prelude::*;
use vstd::string::StringExecFns;

verus! {

/// Default polling interval against the media server, in milliseconds.
pub const DEFAULT_PLEX_INTERVAL_MS: u64 = 5000;

/// Default publish-wait interval of the presence publisher, in
/// milliseconds.
pub const DEFAULT_DISCORD_INTERVAL_MS: u64 = 5000;

/// Media-server settings: the account credentials, the name of the server
/// to watch, and the polling interval.
#[derive(Clone, Debug)]
pub struct PlexConfig {
    pub username: String,
    pub password: String,
    pub server_name: String,
    pub polling_interval_ms: u64,
}

impl Default for PlexConfig {
    /// Empty credentials and server name, and the default polling
    /// interval: the template written out when no configuration exists.
    fn default() -> (r: PlexConfig)
        ensures
            r.username@ == Seq::<char>::empty(),
            r.password@ == Seq::<char>::empty(),
            r.server_name@ == Seq::<char>::empty(),
            r.polling_interval_ms == DEFAULT_PLEX_INTERVAL_MS,
    {
        PlexConfig {
            username: String::new(),
            password: String::new(),
            server_name: String::new(),
            polling_interval_ms: DEFAULT_PLEX_INTERVAL_MS,
        }
    }
}

/// Presence-service settings: how long the publisher waits on the event
/// channel before servicing the connection again.
#[derive(Clone, Debug)]
pub struct DiscordConfig {
    pub update_interval_ms: u64,
}

impl Default for DiscordConfig {
    fn default() -> (r: DiscordConfig)
        ensures
            r.update_interval_ms == DEFAULT_DISCORD_INTERVAL_MS,
    {
        DiscordConfig { update_interval_ms: DEFAULT_DISCORD_INTERVAL_MS }
    }
}

/// The whole run configuration.
#[derive(Clone, Debug)]
pub struct Config {
    pub plex: PlexConfig,
    pub discord: DiscordConfig,
}

impl Default for Config {
    fn default() -> (r: Config)
        ensures
            r.plex.username@ == Seq::<char>::empty(),
            r.plex.password@ == Seq::<char>::empty(),
            r.plex.server_name@ == Seq::<char>::empty(),
            r.plex.polling_interval_ms == DEFAULT_PLEX_INTERVAL_MS,
            r.discord.update_interval_ms == DEFAULT_DISCORD_INTERVAL_MS,
    {
        Config { plex: PlexConfig::default(), discord: DiscordConfig::default() }
    }
}

/// The identity string the process presents to the media server: the
/// product name and the host name joined by an underscore.
pub fn client_identifier(product: &str, hostname: &str) -> (r: String)
    ensures
        r@ == product@ + "_"@ + hostname@,
{
    let mut s = String::from_str(product);
    s.append("_");
    s.append(hostname);
    s
}

} // verus!

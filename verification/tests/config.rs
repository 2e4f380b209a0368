use plex_discord_presence::config::{
    client_identifier, Config, DiscordConfig, PlexConfig, DEFAULT_DISCORD_INTERVAL_MS,
    DEFAULT_PLEX_INTERVAL_MS,
};

#[test]
fn default_intervals_are_five_seconds() {
    assert_eq!(DEFAULT_PLEX_INTERVAL_MS, 5000);
    assert_eq!(DEFAULT_DISCORD_INTERVAL_MS, 5000);
}

#[test]
fn default_plex_config_is_the_empty_template() {
    let plex = PlexConfig::default();
    assert_eq!(plex.username, "");
    assert_eq!(plex.password, "");
    assert_eq!(plex.server_name, "");
    assert_eq!(plex.polling_interval_ms, 5000);
}

#[test]
fn default_discord_config_uses_default_interval() {
    let discord = DiscordConfig::default();
    assert_eq!(discord.update_interval_ms, 5000);
}

#[test]
fn default_config_combines_both_defaults() {
    let config = Config::default();
    assert_eq!(config.plex.server_name, "");
    assert_eq!(config.plex.polling_interval_ms, 5000);
    assert_eq!(config.discord.update_interval_ms, 5000);
}

#[test]
fn client_identifier_joins_product_and_hostname() {
    assert_eq!(
        client_identifier("plex-discord-presence", "myhost"),
        "plex-discord-presence_myhost"
    );
    assert_eq!(client_identifier("p", ""), "p_");
}

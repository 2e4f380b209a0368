[package]
name = "plex_discord_presence"
version = "0.1.0"
edition = "2021"
publish = false

[dependencies]
directories = "*"
discord_game_sdk = "*"
env_logger = "*"
log = "*"
plex-api = "*"
serde = { version = "*", features = ["derive"] }
sys-info = "*"
tokio = { version = "*", features = ["macros", "rt-multi-thread"] }
toml = "*"

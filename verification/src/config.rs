//! The settings the bot starts with, read from `config.toml`.
use vstd::prelude::*;

verus! {

/// All settings.
#[derive(Debug, Clone)]
pub struct Config {
    pub bot: BotConfig,
    pub database: DbConfig,
    pub meshtastic: MeshConfig,
}

/// Settings of the Discord bot user.
#[derive(Debug, Clone)]
pub struct BotConfig {
    pub token: String,
}

/// Settings of the SQLite database.
#[derive(Debug, Clone)]
pub struct DbConfig {
    pub url: String,
}

/// Settings of the link to the Meshtastic node.
#[derive(Debug, Clone)]
pub struct MeshConfig {
    pub serial_port: String,
}

} // verus!

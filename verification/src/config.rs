//! Application settings.
//!
//! The settings are plain data. Reading them from configuration files and
//! from environment overrides is the caller's concern; the constructor here
//! assembles a complete `Settings` value from its parts.

use vstd::prelude::*;

verus! {

/// Settings for the database connection.
pub struct Database {
    /// The database username
    pub username: String,
    /// The database password
    pub password: String,
    /// The database name
    pub database: String,
    /// The database host
    pub host: String,
    /// The database port
    pub port: u16,
    /// The maximum number of database connections
    pub max_connections: u32,
}

/// Settings for the Ethereum node connection and the token address
/// for the subscription.
pub struct EthNode {
    /// Inactivity deadline of the subscription, in seconds
    pub timeout_seconds: u64,
    /// Address of the token contract whose logs are subscribed to
    pub token_address: String,
    /// WebSocket endpoint of the node
    pub wss_url: String,
}

/// Settings for the local web server.
pub struct Server {
    pub port: u16,
    pub address: String,
}

/// Settings for the application.
pub struct Settings {
    /// Log level filter handed to the logger
    pub log_filter: String,
    /// Database settings
    pub database: Database,
    /// Ethereum node settings
    pub eth_node: EthNode,
    /// Server settings
    pub server: Server,
}

impl Settings {
    /// Build the settings from their already-loaded parts.
    pub fn new(log_filter: String, database: Database, eth_node: EthNode, server: Server) -> (r: Self)
        ensures
            r.log_filter == log_filter,
            r.database == database,
            r.eth_node == eth_node,
            r.server == server,
    {
        Settings { log_filter, database, eth_node, server }
    }
}

} // verus!

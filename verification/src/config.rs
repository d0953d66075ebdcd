//! The configuration of the program, as it stands in its configuration
//! file.

use vstd::prelude::*;

verus! {

/// The whole configuration.
#[derive(Debug)]
pub struct Config {
    pub server: ServerConfig,
    pub logging: LoggingConfig,
}

/// Where the server listens and how it names itself.
#[derive(Debug)]
pub struct ServerConfig {
    pub address: String,
    pub port: u16,
    pub name: String,
    pub version: String,
    pub max_clients: usize,
}

/// How much the program logs.
#[derive(Debug)]
pub struct LoggingConfig {
    pub level: String,
}

impl Clone for ServerConfig {
    fn clone(&self) -> (r: Self)
        ensures
            r.address@ == self.address@,
            r.port == self.port,
            r.name@ == self.name@,
            r.version@ == self.version@,
            r.max_clients == self.max_clients,
    {
        ServerConfig {
            address: self.address.clone(),
            port: self.port,
            name: self.name.clone(),
            version: self.version.clone(),
            max_clients: self.max_clients,
        }
    }
}

impl Clone for LoggingConfig {
    fn clone(&self) -> (r: Self)
        ensures
            r.level@ == self.level@,
    {
        LoggingConfig { level: self.level.clone() }
    }
}

impl Clone for Config {
    fn clone(&self) -> (r: Self)
        ensures
            r.server.address@ == self.server.address@,
            r.server.port == self.server.port,
            r.server.name@ == self.server.name@,
            r.server.version@ == self.server.version@,
            r.server.max_clients == self.server.max_clients,
            r.logging.level@ == self.logging.level@,
    {
        Config { server: self.server.clone(), logging: self.logging.clone() }
    }
}

impl Config {
    /// The configuration that is used where no file gives one: all
    /// interfaces, port 6809, room for a thousand clients, logging at
    /// level `info`.
    pub fn default() -> (c: Config)
        ensures
            c.server.address@ == "0.0.0.0"@,
            c.server.port == 6809,
            c.server.name@ == "OpenFSD"@,
            c.server.version@ == "0.1.0"@,
            c.server.max_clients == 1000,
            c.logging.level@ == "info"@,
    {
        Config {
            server: ServerConfig {
                address: String::from_str("0.0.0.0"),
                port: 6809,
                name: String::from_str("OpenFSD"),
                version: String::from_str("0.1.0"),
                max_clients: 1000,
            },
            logging: LoggingConfig { level: String::from_str("info") },
        }
    }
}

impl From<Config> for crate::server::config::ServerConfig {
    /// The settings of the server, taken field by field from the
    /// configuration.
    fn from(config: Config) -> (r: crate::server::config::ServerConfig) {
        crate::server::config::ServerConfig {
            address: config.server.address,
            port: config.server.port,
            server_name: config.server.name,
            server_version: config.server.version,
            max_clients: config.server.max_clients,
        }
    }
}

impl vstd::std_specs::convert::FromSpecImpl<Config> for crate::server::config::ServerConfig {
    open spec fn obeys_from_spec() -> bool {
        true
    }

    open spec fn from_spec(config: Config) -> crate::server::config::ServerConfig {
        crate::server::config::ServerConfig {
            address: config.server.address,
            port: config.server.port,
            server_name: config.server.name,
            server_version: config.server.version,
            max_clients: config.server.max_clients,
        }
    }
}

} // verus!

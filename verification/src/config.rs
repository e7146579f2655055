//! Service configuration.
use vstd::prelude::*;

verus! {

/// The settings the service runs with.
pub struct Config {
    pub server_port: u16,
    pub jwt_secret: String,
    pub database_url: String,
}

/// The port the service listens on when nothing else is configured.
pub const DEFAULT_SERVER_PORT: u16 = 3000;

impl Default for Config {
    fn default() -> (c: Self)
        ensures
            c.server_port == DEFAULT_SERVER_PORT,
            c.jwt_secret@ == Seq::<char>::empty(),
            c.database_url@ == Seq::<char>::empty(),
    {
        Config { server_port: DEFAULT_SERVER_PORT, jwt_secret: String::new(), database_url: String::new() }
    }
}

impl Config {
    /// The configuration to run with, given what could be read from the
    /// configuration file and the environment: what was read, or the default
    /// when reading failed.
    pub fn get_config(loaded: Option<Config>) -> (c: Config)
        ensures
            match loaded {
                Some(l) => c == l,
                None => c.server_port == DEFAULT_SERVER_PORT && c.jwt_secret@.len() == 0
                    && c.database_url@.len() == 0,
            },
    {
        match loaded {
            Some(config) => config,
            None => Config::default(),
        }
    }
}

} // verus!

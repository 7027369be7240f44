//! Configuration: where the storage is and where to listen.

use vstd::prelude::*;
use vstd::string::*;

verus! {

/// The environment variable that holds the database connection string.
pub const DATABASE_URL_VAR: &'static str = "DATABASE_URL";

/// The environment variable that holds the address to bind.
pub const BIND_ADDR_VAR: &'static str = "BIND_ADDR";

/// The connection string used where the environment gives none.
pub const DEFAULT_DATABASE_URL: &'static str = "postgres://localhost/racha";

/// The address bound where the environment gives none.
pub const DEFAULT_BIND_ADDR: &'static str = "127.0.0.1:3000";

/// Where the storage is and where to listen.
#[derive(Clone, Debug, PartialEq, Eq)]
pub struct Config {
    pub database_url: String,
    pub bind_addr: String,
}

/// The value of a variable, or `default` where it is not set.
pub open spec fn value_or(value: Option<String>, default: Seq<char>) -> Seq<char> {
    match value {
        Some(text) => text@,
        None => default,
    }
}

impl Config {
    /// The configuration from the values of the two environment variables,
    /// `None` standing for a variable that is not set.
    pub fn from_env(database_url: Option<String>, bind_addr: Option<String>) -> (config: Config)
        ensures
            config.database_url@ == value_or(database_url, DEFAULT_DATABASE_URL@),
            config.bind_addr@ == value_or(bind_addr, DEFAULT_BIND_ADDR@),
    {
        Config {
            database_url: match database_url {
                Some(text) => text,
                None => DEFAULT_DATABASE_URL.to_owned(),
            },
            bind_addr: match bind_addr {
                Some(text) => text,
                None => DEFAULT_BIND_ADDR.to_owned(),
            },
        }
    }
}

} // verus!

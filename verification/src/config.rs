//! The configuration of the process, read from its environment.

use vstd::prelude::*;

verus! {

/// The variable that names the database to connect to.
pub const DATABASE_URL_KEY: &'static str = "DATABASE_URL";

/// The variable that names the port to listen on.
pub const SERVER_PORT_KEY: &'static str = "SERVER_PORT";

#[derive(Debug, Clone, PartialEq, Eq)]
pub struct Config {
    pub server_port: String,
    pub database_url: String,
}

/// The reason no configuration can be had: a variable that the process
/// needs is not set to a text.
#[derive(Debug, Clone, PartialEq, Eq)]
pub struct ConfigError {
    pub key: String,
}

/// What is told of the missing variable `key`.
pub open spec fn missing_variable_message(key: Seq<char>) -> Seq<char> {
    "failed to load environment variable "@ + key
}

impl Config {
    /// The configuration that the environment gives, from what it holds
    /// under [`SERVER_PORT_KEY`] and under [`DATABASE_URL_KEY`]. Both are
    /// required, and the port is looked at first.
    pub fn from_env(server_port: Option<String>, database_url: Option<String>) -> (loaded: Result<
        Config,
        ConfigError,
    >)
        ensures
            match (server_port, database_url) {
                (Some(port), Some(url)) => loaded matches Ok(config) && config.server_port == port
                    && config.database_url == url,
                (None, _) => loaded matches Err(missing) && missing.key@ == SERVER_PORT_KEY@,
                (Some(_), None) => loaded matches Err(missing) && missing.key@
                    == DATABASE_URL_KEY@,
            },
    {
        let server_port = match load_env(SERVER_PORT_KEY, server_port) {
            Ok(value) => value,
            Err(missing) => { return Err(missing); },
        };
        let database_url = match load_env(DATABASE_URL_KEY, database_url) {
            Ok(value) => value,
            Err(missing) => { return Err(missing); },
        };
        Ok(Config { server_port, database_url })
    }
}

impl ConfigError {
    /// What the failure reads as.
    pub fn to_string(&self) -> (text: String)
        ensures
            text@ == missing_variable_message(self.key@),
    {
        let mut text = "failed to load environment variable ".to_owned();
        text.append(self.key.as_str());
        text
    }
}

fn load_env(key: &str, held: Option<String>) -> (loaded: Result<String, ConfigError>)
    ensures
        match held {
            Some(value) => loaded == Ok::<String, ConfigError>(value),
            None => loaded matches Err(missing) && missing.key@ == key@,
        },
{
    match held {
        Some(value) => Ok(value),
        None => Err(ConfigError { key: key.to_owned() }),
    }
}

} // verus!

//! Process configuration, built from values that the caller read from
//! the environment and hands in as plain strings.

use vstd::pervasive::unreached;
use vstd::prelude::*;
use vstd::string::*;

verus! {

/// A configuration value that the process needs was not available.
#[derive(Debug)]
pub enum ConfigError {
    /// The named environment variable was missing; the field holds its name.
    MissingEnv(String),
}

/// The configuration the service runs with: the database connection
/// string and the port to listen on.
pub struct Config {
    pub database_url: String,
    pub app_port: String,
}

impl Config {
    /// Builds the configuration from the two environment values, or
    /// reports which one was missing.
    pub fn load_from_env(database_url: Option<String>, app_port: Option<String>) -> (r: Result<
        Config,
        ConfigError,
    >)
        ensures
            r is Ok <==> database_url is Some && app_port is Some,
            r matches Ok(c) ==> c.database_url@ == database_url.unwrap()@ && c.app_port@
                == app_port.unwrap()@,
            database_url is None ==> (r matches Err(e) ==> e matches ConfigError::MissingEnv(n)
                && n@ == "DATABASE_URL"@),
            database_url is Some && app_port is None ==> (r matches Err(e)
                ==> e matches ConfigError::MissingEnv(n) && n@ == "APP_PORT"@),
    {
        let url = match database_url {
            Some(u) => u,
            None => {
                return Err(ConfigError::MissingEnv(String::from_str("DATABASE_URL")));
            },
        };
        let port = match app_port {
            Some(p) => p,
            None => {
                return Err(ConfigError::MissingEnv(String::from_str("APP_PORT")));
            },
        };
        Ok(Config { database_url: url, app_port: port })
    }
}

/// The configuration the process starts with. Both values must be
/// present; a process whose environment lacks one fails at startup
/// before this point.
pub fn config(database_url: Option<String>, app_port: Option<String>) -> (c: Config)
    requires
        database_url is Some,
        app_port is Some,
    ensures
        c.database_url@ == database_url.unwrap()@,
        c.app_port@ == app_port.unwrap()@,
{
    match Config::load_from_env(database_url, app_port) {
        Ok(c) => c,
        Err(_) => {
            unreached()
        },
    }
}

} // verus!

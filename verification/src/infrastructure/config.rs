//! The configuration of the service and what follows from it.

use crate::validation::opt_text;
use vstd::prelude::*;

verus! {

/// The environment the service runs in.
#[derive(Debug, Clone, Copy, PartialEq, Eq, Structural)]
pub enum CargoEnv {
    Development,
    Production,
}

/// The configuration as the file gives it: some settings may be left out.
#[derive(Debug, Clone, PartialEq, Eq)]
pub struct ConfigUnparsed {
    pub port: Option<String>,
    pub database_url: String,
    /// Seconds a request may take.
    pub timeout: Option<u64>,
    /// Lifetime of a token, in seconds.
    pub jwt_expire: Option<i64>,
    pub jwt_secret: String,
    pub host: Option<String>,
}

/// The configuration with every setting decided.
#[derive(Debug, Clone, PartialEq, Eq)]
pub struct Config {
    pub port: String,
    pub database_url: String,
    pub cargo_env: CargoEnv,
    /// Seconds a request may take.
    pub timeout: u64,
    /// Lifetime of a token, in seconds.
    pub jwt_expire: i64,
    pub jwt_secret: String,
    pub host: Option<String>,
}

/// How the database is to be connected.
#[derive(Debug, Clone, PartialEq, Eq)]
pub struct ConnectionOptions {
    pub url: String,
    pub max_connections: u32,
    /// Whether statements are logged.
    pub sqlx_logging: bool,
}

pub const DEFAULT_TIMEOUT: u64 = 30;

pub const DEFAULT_JWT_EXPIRE: i64 = 3600;

impl ConfigUnparsed {
    /// Fills in what the file left out: port 8080, the development
    /// environment, a timeout of 30 seconds and tokens that live an hour.
    pub fn to_config(&self, cargo_env: Option<CargoEnv>) -> (config: Config)
        ensures
            config.port@ == (match self.port {
                Some(port) => port@,
                None => "8080"@,
            }),
            config.database_url@ == self.database_url@,
            config.cargo_env == (match cargo_env {
                Some(env) => env,
                None => CargoEnv::Development,
            }),
            config.timeout == (match self.timeout {
                Some(timeout) => timeout,
                None => DEFAULT_TIMEOUT,
            }),
            config.jwt_expire == (match self.jwt_expire {
                Some(seconds) => seconds,
                None => DEFAULT_JWT_EXPIRE,
            }),
            config.jwt_secret@ == self.jwt_secret@,
            opt_text(config.host) == opt_text(self.host),
    {
        Config {
            port: match &self.port {
                Some(port) => port.clone(),
                None => String::from_str("8080"),
            },
            database_url: self.database_url.clone(),
            cargo_env: match cargo_env {
                Some(env) => env,
                None => CargoEnv::Development,
            },
            timeout: match self.timeout {
                Some(timeout) => timeout,
                None => DEFAULT_TIMEOUT,
            },
            jwt_expire: match self.jwt_expire {
                Some(seconds) => seconds,
                None => DEFAULT_JWT_EXPIRE,
            },
            jwt_secret: self.jwt_secret.clone(),
            host: match &self.host {
                Some(host) => Some(host.clone()),
                None => None,
            },
        }
    }
}

/// The most connections for `num_threads` threads: two for each, but no
/// more than 32 bits hold.
pub open spec fn connection_limit(num_threads: nat) -> nat {
    if 2 * num_threads <= u32::MAX {
        2 * num_threads
    } else {
        u32::MAX as nat
    }
}

/// The lifetime of a token for the configured number of seconds: a negative
/// setting gives tokens no lifetime.
pub open spec fn token_lifetime(jwt_expire: i64) -> u64 {
    if jwt_expire < 0 {
        0
    } else {
        jwt_expire as u64
    }
}

impl Config {
    /// The lifetime of a token, in seconds.
    pub fn token_lifetime(&self) -> (seconds: u64)
        ensures
            seconds == token_lifetime(self.jwt_expire),
    {
        if self.jwt_expire < 0 {
            0
        } else {
            self.jwt_expire as u64
        }
    }

    /// The options of the database connection on a machine that runs
    /// `num_threads` threads at once: two connections for each thread, as
    /// far as 32 bits hold the number, and statements logged in development
    /// only.
    pub fn get_connection_options(&self, num_threads: usize) -> (options: ConnectionOptions)
        ensures
            options.url@ == self.database_url@,
            options.max_connections == connection_limit(num_threads as nat),
            options.sqlx_logging == (self.cargo_env == CargoEnv::Development),
    {
        let max_conn: u32 = if num_threads <= (u32::MAX / 2) as usize {
            (num_threads as u32) * 2
        } else {
            u32::MAX
        };
        ConnectionOptions {
            url: self.database_url.clone(),
            max_connections: max_conn,
            sqlx_logging: self.cargo_env == CargoEnv::Development,
        }
    }
}

} // verus!

//! Server settings taken from the command line.
use vstd::prelude::*;

use crate::text::{append_str, chars_of, copy_str, decimal, push_decimal, string_of};

verus! {

broadcast use vstd::string::group_string_axioms;

/// The command-line options of the server. The values a parser gives when an
/// option is absent are those of `Cli::default`: port 8080, host `0.0.0.0`.
#[derive(Debug, PartialEq, Eq)]
pub struct Cli {
    /// Admin key for administrative endpoints
    pub admin_key: Option<String>,
    /// Port to listen on
    pub port: u16,
    /// Host to bind to
    pub host: String,
    /// Path to config file
    pub config: Option<String>,
    /// Database URL
    pub database: Option<String>,
}

/// The default database URL.
pub open spec fn default_database_url() -> Seq<char> {
    "sqlite://./llamp.db"@
}

/// The default log level.
pub open spec fn default_log_level() -> Seq<char> {
    "info"@
}

impl Default for Cli {
    /// The options when none is given on the command line.
    fn default() -> (r: Cli)
        ensures
            r.admin_key is None,
            r.port == 8080,
            r.host@ == "0.0.0.0"@,
            r.config is None,
            r.database is None,
    {
        Cli { admin_key: None, port: 8080, host: copy_str("0.0.0.0"), config: None, database: None }
    }
}

/// The settings the server runs with.
#[derive(Debug, PartialEq, Eq)]
pub struct Config {
    pub host: String,
    pub port: u16,
    pub admin_key: Option<String>,
    pub database_url: String,
    pub log_level: String,
}

/// A configuration that could not be built.
#[derive(Debug, PartialEq, Eq)]
pub struct ConfigError {
    pub message: String,
}

/// `host:port`, the port in decimal.
pub open spec fn address_of(host: Seq<char>, port: u16) -> Seq<char> {
    host + seq![':'] + decimal(port as nat)
}

impl Config {
    /// The configuration the options describe: host, port and admin key as given,
    /// the database URL as given or `sqlite://./llamp.db`, log level `info`.
    pub fn from_args(cli: &Cli) -> (r: Result<Config, ConfigError>)
        ensures
            r is Ok,
            r matches Ok(c) ==> {
                &&& c.host == cli.host
                &&& c.port == cli.port
                &&& c.admin_key == cli.admin_key
                &&& match cli.database {
                    Some(d) => c.database_url == d,
                    None => c.database_url@ == default_database_url(),
                }
                &&& c.log_level@ == default_log_level()
            },
    {
        let host = cli.host.clone();
        let port = cli.port;
        let database_url = match &cli.database {
            Some(d) => d.clone(),
            None => copy_str("sqlite://./llamp.db"),
        };
        let log_level = copy_str("info");
        let admin_key = match &cli.admin_key {
            Some(k) => Some(k.clone()),
            None => None,
        };
        Ok(Config { host, port, admin_key, database_url, log_level })
    }

    /// The configuration the options and the environment describe together: as
    /// `from_args`, except that when no admin key was given on the command line the
    /// value of the `ADMIN_KEY` environment variable (`env_admin_key`, read by the
    /// caller) is the admin key; the command line wins over the environment.
    pub fn from_args_and_env(cli: &Cli, env_admin_key: Option<String>) -> (r: Result<
        Config,
        ConfigError,
    >)
        ensures
            r is Ok,
            r matches Ok(c) ==> {
                &&& c.host == cli.host
                &&& c.port == cli.port
                &&& c.admin_key == match cli.admin_key {
                    Some(k) => Some(k),
                    None => env_admin_key,
                }
                &&& match cli.database {
                    Some(d) => c.database_url == d,
                    None => c.database_url@ == default_database_url(),
                }
                &&& c.log_level@ == default_log_level()
            },
    {
        match Config::from_args(cli) {
            Ok(mut c) => {
                if c.admin_key.is_none() {
                    c.admin_key = env_admin_key;
                }
                Ok(c)
            },
            Err(e) => Err(e),
        }
    }

    /// The address to listen on: `host:port`.
    pub fn get_address(&self) -> (r: String)
        ensures
            r@ == address_of(self.host@, self.port),
    {
        let mut out = chars_of(self.host.as_str());
        out.push(':');
        push_decimal(&mut out, self.port as u64);
        string_of(&out)
    }

    /// The log level.
    pub fn get_log_level(&self) -> (r: &str)
        ensures
            r@ == self.log_level@,
    {
        self.log_level.as_str()
    }

    /// The admin key, if one was given.
    pub fn get_admin_key(&self) -> (r: Option<&String>)
        ensures
            r == match self.admin_key {
                Some(k) => Some(&k),
                None => None::<&String>,
            },
    {
        match &self.admin_key {
            Some(k) => Some(k),
            None => None,
        }
    }
}

} // verus!

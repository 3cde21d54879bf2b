//! Service configuration: where the user store lives, where the server
//! listens, and how session tokens are signed.
use vstd::prelude::*;
use vstd::string::*;
use crate::text::{i32_parsed, parse_i32, push_signed_decimal, signed_decimal};

verus! {

/// Connection parameters of the user store.
#[derive(Debug, Clone)]
pub struct Database {
    pub host: String,
    pub port: i32,
    pub user: String,
    pub password: String,
    pub name: String,
}

/// Listening address of the HTTP server.
#[derive(Debug, Clone)]
pub struct Server {
    pub address: String,
    pub port: i32,
}

/// Token signing parameters: the secret and the lifetime in seconds.
#[derive(Debug, Clone)]
pub struct Jwt {
    pub secret: String,
    pub expires_in: String,
    pub maxage: i64,
}

/// The whole configuration, built once and handed to whoever needs it.
#[derive(Debug, Clone)]
pub struct Config {
    pub database: Database,
    pub server: Server,
    pub jwt: Jwt,
}

/// Why a configuration could not be read, overridden or written.
#[derive(Debug, Clone, Copy, PartialEq, Eq, Structural)]
pub enum ConfigError {
    Parse,
    StringParse,
    Serialize,
    IO,
}

/// Values that override the store's connection parameters; an absent value
/// overrides nothing.
#[derive(Debug, Clone)]
pub struct Environment {
    pub database_host: Option<String>,
    pub database_port: Option<String>,
    pub database_user: Option<String>,
    pub database_password: Option<String>,
    pub database_name: Option<String>,
}

/// The text that an override leaves in place of `current`.
pub open spec fn overridden(value: Option<String>, current: String) -> Seq<char> {
    match value {
        Some(text) => text@,
        None => current@,
    }
}

/// The port that an override leaves in place of `current`, or nothing where
/// the override is no 32-bit integer.
pub open spec fn overridden_port(value: Option<String>, current: i32) -> Option<i32> {
    match value {
        Some(text) => i32_parsed(text@),
        None => Some(current),
    }
}

/// The connection URL that a configuration stands for.
pub open spec fn database_url_of(db: Database) -> Seq<char> {
    "postgres://"@ + db.user@ + ":"@ + db.password@ + "@"@ + db.host@ + ":"@ + signed_decimal(
        db.port as int,
    ) + "/"@ + db.name@
}

/// Whether `c` holds the built-in defaults.
pub open spec fn is_default_config(c: Config) -> bool {
    &&& c.database.host@ == "localhost"@
    &&& c.database.port == 5432
    &&& c.database.user@ == "elnafo"@
    &&& c.database.password@ == "test"@
    &&& c.database.name@ == "elnafo"@
    &&& c.server.address@ == "127.0.0.1"@
    &&& c.server.port == 54600
    &&& c.jwt.secret@ == "change_this_secret"@
    &&& c.jwt.expires_in@ == "60m"@
    &&& c.jwt.maxage == 3600
}

impl Default for Config {
    fn default() -> (config: Config)
        ensures
            is_default_config(config),
    {
        Config {
            database: Database {
                host: String::from_str("localhost"),
                port: 5432,
                user: String::from_str("elnafo"),
                password: String::from_str("test"),
                name: String::from_str("elnafo"),
            },
            server: Server { address: String::from_str("127.0.0.1"), port: 54600 },
            jwt: Jwt {
                secret: String::from_str("change_this_secret"),
                expires_in: String::from_str("60m"),
                maxage: 3600,
            },
        }
    }
}

impl Config {
    /// The built-in defaults.
    pub fn new() -> (config: Config)
        ensures
            is_default_config(config),
    {
        Config::default()
    }

    /// Overrides the store's connection parameters. The host is taken
    /// first; a port that is no 32-bit integer stops there with
    /// `StringParse`, and user, password and name keep their values.
    pub fn with_env(&mut self, env: Environment) -> (outcome: Result<(), ConfigError>)
        ensures
            final(self).server == old(self).server,
            final(self).jwt == old(self).jwt,
            final(self).database.host@ == overridden(env.database_host, old(self).database.host),
            match overridden_port(env.database_port, old(self).database.port) {
                Some(port) => {
                    &&& outcome == Ok::<(), ConfigError>(())
                    &&& final(self).database.port == port
                    &&& final(self).database.user@ == overridden(
                        env.database_user,
                        old(self).database.user,
                    )
                    &&& final(self).database.password@ == overridden(
                        env.database_password,
                        old(self).database.password,
                    )
                    &&& final(self).database.name@ == overridden(
                        env.database_name,
                        old(self).database.name,
                    )
                },
                None => {
                    &&& outcome == Err::<(), ConfigError>(ConfigError::StringParse)
                    &&& final(self).database.port == old(self).database.port
                    &&& final(self).database.user == old(self).database.user
                    &&& final(self).database.password == old(self).database.password
                    &&& final(self).database.name == old(self).database.name
                },
            },
    {
        if let Some(host) = env.database_host {
            self.database.host = host;
        }
        if let Some(text) = env.database_port {
            match parse_i32(text.as_str()) {
                Some(port) => {
                    self.database.port = port;
                },
                None => {
                    return Err(ConfigError::StringParse);
                },
            }
        }
        if let Some(user) = env.database_user {
            self.database.user = user;
        }
        if let Some(password) = env.database_password {
            self.database.password = password;
        }
        if let Some(name) = env.database_name {
            self.database.name = name;
        }
        Ok(())
    }

    /// The URL under which the user store is reached.
    pub fn database_url(&self) -> (url: String)
        ensures
            url@ == database_url_of(self.database),
    {
        let mut url = String::from_str("postgres://");
        url.append(self.database.user.as_str());
        url.append(":");
        url.append(self.database.password.as_str());
        url.append("@");
        url.append(self.database.host.as_str());
        url.append(":");
        push_signed_decimal(&mut url, self.database.port as i64);
        url.append("/");
        url.append(self.database.name.as_str());
        url
    }
}

} // verus!

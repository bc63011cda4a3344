//! Process-wide configuration: loaded once at startup and read-only after.

use vstd::prelude::*;
use crate::text::{
    comma_list, decimal, decimal_text, parse_i64, parse_u16, same_text, signed_of,
    split_comma_list, texts, unsigned_of,
};

verus! {

/// Configuration of a service process.
#[derive(Debug, Clone)]
pub struct Settings {
    pub database_url: String,
    pub host: String,
    pub port: u16,
    /// Secret shared by every service that signs or verifies tokens.
    pub jwt_secret: String,
    /// Lifetime of a newly issued token, in hours.
    pub jwt_expiration_hours: i64,
    pub auth_service_url: String,
    pub allowed_origins: Vec<String>,
    /// Whether a login with the right password to a deactivated account is
    /// told that the account is deactivated, rather than being answered like
    /// any other refused login.
    pub disclose_deactivation: bool,
}

/// The variables of the process environment that configure a service, each
/// with its value if it is set.
#[derive(Debug, Clone)]
pub struct Environment {
    /// `DATABASE_URL`
    pub database_url: Option<String>,
    /// `HOST`
    pub host: Option<String>,
    /// `PORT`
    pub port: Option<String>,
    /// `JWT_SECRET`
    pub jwt_secret: Option<String>,
    /// `JWT_EXPIRATION_HOURS`
    pub jwt_expiration_hours: Option<String>,
    /// `AUTH_SERVICE_URL`
    pub auth_service_url: Option<String>,
    /// `ALLOWED_ORIGINS`
    pub allowed_origins: Option<String>,
    /// `DISCLOSE_DEACTIVATION`
    pub disclose_deactivation: Option<String>,
}

/// Why an environment does not configure a service.
#[derive(Debug, Clone, Copy, PartialEq, Eq, Structural)]
pub enum ConfigError {
    MissingDatabaseUrl,
    InvalidPort,
    MissingJwtSecret,
    InvalidExpirationHours,
}

/// Lifetime of a token where the environment sets none, in hours.
pub const DEFAULT_EXPIRATION_HOURS: i64 = 24;

/// The value of a variable, or the default where it is not set.
pub open spec fn value_or(value: Option<String>, default: Seq<char>) -> Seq<char> {
    match value {
        Some(v) => v@,
        None => default,
    }
}

/// The port that an environment configures: the default where `PORT` is not
/// set, otherwise the number it writes, if it writes one of 16 bits.
pub open spec fn configured_port(port: Option<String>, default_port: u16) -> Option<u16> {
    match port {
        None => Some(default_port),
        Some(text) => match unsigned_of(text@) {
            Some(v) => if v <= 65535 {
                Some(v as u16)
            } else {
                None
            },
            None => None,
        },
    }
}

/// The token lifetime that an environment configures: 24 hours where
/// `JWT_EXPIRATION_HOURS` is not set, otherwise the number it writes, if it
/// writes one of 64 bits.
pub open spec fn configured_hours(hours: Option<String>) -> Option<i64> {
    match hours {
        None => Some(24i64),
        Some(text) => match signed_of(text@) {
            Some(v) => if i64::MIN <= v <= i64::MAX {
                Some(v as i64)
            } else {
                None
            },
            None => None,
        },
    }
}

/// The first reason for which an environment configures no service, if
/// there is one: no database, a port that is no port, no secret, a lifetime
/// that is no number.
pub open spec fn misconfiguration(env: Environment, default_port: u16) -> Option<ConfigError> {
    if env.database_url is None {
        Some(ConfigError::MissingDatabaseUrl)
    } else if configured_port(env.port, default_port) is None {
        Some(ConfigError::InvalidPort)
    } else if env.jwt_secret is None {
        Some(ConfigError::MissingJwtSecret)
    } else if configured_hours(env.jwt_expiration_hours) is None {
        Some(ConfigError::InvalidExpirationHours)
    } else {
        None
    }
}

/// Whether settings are those that an environment configures.
pub open spec fn configures(env: Environment, default_port: u16, settings: Settings) -> bool {
    &&& env.database_url matches Some(url) && settings.database_url@ == url@
    &&& settings.host@ == value_or(env.host, "127.0.0.1"@)
    &&& configured_port(env.port, default_port) == Some(settings.port)
    &&& env.jwt_secret matches Some(secret) && settings.jwt_secret@ == secret@
    &&& configured_hours(env.jwt_expiration_hours) == Some(settings.jwt_expiration_hours)
    &&& settings.auth_service_url@ == value_or(env.auth_service_url, "http://localhost:8001"@)
    &&& texts(settings.allowed_origins@) == comma_list(
        value_or(env.allowed_origins, "http://localhost:3000"@),
    )
    &&& settings.disclose_deactivation == (value_or(env.disclose_deactivation, "true"@)
        == "true"@)
}

fn text_or(value: Option<String>, default: &str) -> (text: String)
    ensures
        text@ == value_or(value, default@),
{
    match value {
        Some(v) => v,
        None => default.to_owned(),
    }
}

impl ConfigError {
    /// What the error is about, in words.
    pub fn message(&self) -> (text: &'static str)
        ensures
            text@ == (match *self {
                ConfigError::MissingDatabaseUrl => "DATABASE_URL must be set"@,
                ConfigError::InvalidPort => "PORT must be a number from 0 to 65535"@,
                ConfigError::MissingJwtSecret => "JWT_SECRET must be set"@,
                ConfigError::InvalidExpirationHours => "JWT_EXPIRATION_HOURS must be a number"@,
            }),
    {
        match self {
            ConfigError::MissingDatabaseUrl => "DATABASE_URL must be set",
            ConfigError::InvalidPort => "PORT must be a number from 0 to 65535",
            ConfigError::MissingJwtSecret => "JWT_SECRET must be set",
            ConfigError::InvalidExpirationHours => "JWT_EXPIRATION_HOURS must be a number",
        }
    }
}

/// The address a host and port make up: the host, a colon, the port in
/// decimal notation.
pub open spec fn address_of(host: Seq<char>, port: u16) -> Seq<char> {
    host + seq![':'] + decimal(port as nat)
}

impl Settings {
    /// Builds the settings of a service from the values of its environment.
    ///
    /// The database and the secret must be set. The host is `127.0.0.1`, the
    /// port the given default, the lifetime 24 hours, the authentication
    /// service `http://localhost:8001` and the one allowed origin
    /// `http://localhost:3000` where the environment says nothing else;
    /// allowed origins are separated by commas. Deactivation is disclosed
    /// unless the environment sets anything but `true`.
    pub fn from_values(env: Environment, default_port: u16) -> (r: Result<Settings, ConfigError>)
        ensures
            match r {
                Ok(settings) => misconfiguration(env, default_port) is None && configures(
                    env,
                    default_port,
                    settings,
                ),
                Err(e) => misconfiguration(env, default_port) == Some(e),
            },
    {
        let origins = text_or(env.allowed_origins, "http://localhost:3000");
        let allowed_origins = split_comma_list(origins.as_str());
        let database_url = match env.database_url {
            Some(url) => url,
            None => {
                return Err(ConfigError::MissingDatabaseUrl);
            },
        };
        let host = text_or(env.host, "127.0.0.1");
        let port = match env.port {
            None => default_port,
            Some(text) => match parse_u16(text.as_str()) {
                Some(port) => port,
                None => {
                    return Err(ConfigError::InvalidPort);
                },
            },
        };
        let jwt_secret = match env.jwt_secret {
            Some(secret) => secret,
            None => {
                return Err(ConfigError::MissingJwtSecret);
            },
        };
        let jwt_expiration_hours = match env.jwt_expiration_hours {
            None => DEFAULT_EXPIRATION_HOURS,
            Some(text) => match parse_i64(text.as_str()) {
                Some(hours) => hours,
                None => {
                    return Err(ConfigError::InvalidExpirationHours);
                },
            },
        };
        let auth_service_url = text_or(env.auth_service_url, "http://localhost:8001");
        let disclose = text_or(env.disclose_deactivation, "true");
        let disclose_deactivation = same_text(disclose.as_str(), "true");
        Ok(
            Settings {
                database_url,
                host,
                port,
                jwt_secret,
                jwt_expiration_hours,
                auth_service_url,
                allowed_origins,
                disclose_deactivation,
            },
        )
    }

    /// The address that the server listens on.
    pub fn server_address(&self) -> (address: String)
        ensures
            address@ == address_of(self.host@, self.port),
    {
        let mut address = self.host.clone();
        address.append(":");
        address.append(decimal_text(self.port).as_str());
        proof {
            reveal_strlit(":");
            assert(":"@ =~= seq![':']);
        }
        address
    }
}

} // verus!

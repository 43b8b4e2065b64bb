//! The configuration of the service: where it listens and where its two
//! storage engines are.

use crate::errors::{ServiceError, ServiceErrorView, ServiceResult};
use crate::numbers::{decimal, parse_unsigned, parsed, push_decimal, NumberError};
use vstd::prelude::*;
use vstd::string::*;

verus! {

/// Where the relational engine is and how to log in.
#[derive(Debug, Clone, PartialEq, Eq)]
pub struct PostgresConfig {
    pub host: String,
    pub port: u16,
    pub username: String,
    pub password: String,
    pub database: String,
    pub max_connections: u32,
}

/// Where the document engine is.
#[derive(Debug, Clone, PartialEq, Eq)]
pub struct MongoConfig {
    pub uri: String,
    pub database: String,
}

/// Where the service listens.
#[derive(Debug, Clone, PartialEq, Eq)]
pub struct ServerConfig {
    pub host: String,
    pub port: u16,
}

/// The whole configuration.
#[derive(Debug, Clone, PartialEq, Eq)]
pub struct AppConfig {
    pub server: ServerConfig,
    pub postgres: PostgresConfig,
    pub mongodb: MongoConfig,
}

/// The values of the settings as the environment gives them: for each, its
/// text, or nothing where it is not set.
#[derive(Debug, Clone, PartialEq, Eq)]
pub struct Settings {
    pub server_host: Option<String>,
    pub server_port: Option<String>,
    pub postgres_host: Option<String>,
    pub postgres_port: Option<String>,
    pub postgres_user: Option<String>,
    pub postgres_password: Option<String>,
    pub postgres_db: Option<String>,
    pub postgres_max_connections: Option<String>,
    pub mongodb_uri: Option<String>,
    pub mongodb_database: Option<String>,
}

/// The mathematical value of an [`AppConfig`].
pub struct AppConfigView {
    pub server_host: Seq<char>,
    pub server_port: u16,
    pub postgres_host: Seq<char>,
    pub postgres_port: u16,
    pub postgres_user: Seq<char>,
    pub postgres_password: Seq<char>,
    pub postgres_db: Seq<char>,
    pub postgres_max_connections: u32,
    pub mongodb_uri: Seq<char>,
    pub mongodb_database: Seq<char>,
}

impl View for AppConfig {
    type V = AppConfigView;

    open spec fn view(&self) -> AppConfigView {
        AppConfigView {
            server_host: self.server.host@,
            server_port: self.server.port,
            postgres_host: self.postgres.host@,
            postgres_port: self.postgres.port,
            postgres_user: self.postgres.username@,
            postgres_password: self.postgres.password@,
            postgres_db: self.postgres.database@,
            postgres_max_connections: self.postgres.max_connections,
            mongodb_uri: self.mongodb.uri@,
            mongodb_database: self.mongodb.database@,
        }
    }
}

/// The text of a setting, or the default where it is not set.
pub open spec fn setting(value: Option<String>, default: Seq<char>) -> Seq<char> {
    match value {
        Some(text) => text@,
        None => default,
    }
}

/// The message of the error for a setting that is no number.
pub open spec fn invalid_number(what: Seq<char>, error: NumberError) -> Seq<char> {
    what + error.message()
}

/// The configuration that the settings give, or the error of the first
/// number among them that cannot be read: the server port, then the port of
/// the relational engine, then its number of connections.
pub open spec fn configured(settings: Settings) -> Result<AppConfigView, ServiceErrorView> {
    match parsed(setting(settings.server_port, "8000"@), u16::MAX as nat) {
        Err(error) => Err(
            ServiceErrorView::config(invalid_number("Invalid server port: "@, error)),
        ),
        Ok(server_port) => match parsed(
            setting(settings.postgres_port, "5432"@),
            u16::MAX as nat,
        ) {
            Err(error) => Err(
                ServiceErrorView::config(invalid_number("Invalid postgres port: "@, error)),
            ),
            Ok(postgres_port) => match parsed(
                setting(settings.postgres_max_connections, "5"@),
                u32::MAX as nat,
            ) {
                Err(error) => Err(
                    ServiceErrorView::config(invalid_number("Invalid max connections: "@, error)),
                ),
                Ok(max_connections) => Ok(
                    AppConfigView {
                        server_host: setting(settings.server_host, "127.0.0.1"@),
                        server_port: server_port as u16,
                        postgres_host: setting(settings.postgres_host, "localhost"@),
                        postgres_port: postgres_port as u16,
                        postgres_user: setting(settings.postgres_user, "postgres"@),
                        postgres_password: setting(settings.postgres_password, "postgres"@),
                        postgres_db: setting(settings.postgres_db, "business_service"@),
                        postgres_max_connections: max_connections as u32,
                        mongodb_uri: setting(settings.mongodb_uri, "mongodb://localhost:27017"@),
                        mongodb_database: setting(
                            settings.mongodb_database,
                            "business_service"@,
                        ),
                    },
                ),
            },
        },
    }
}

/// The value of a configuration or an error.
pub open spec fn config_result_view(result: ServiceResult<AppConfig>) -> Result<
    AppConfigView,
    ServiceErrorView,
> {
    match result {
        Ok(config) => Ok(config@),
        Err(error) => Err(error@),
    }
}

/// The text of a setting, or the default where it is not set.
fn text_or(value: Option<String>, default: &str) -> (text: String)
    ensures
        text@ == setting(value, default@),
{
    match value {
        Some(text) => text,
        None => String::from_str(default),
    }
}

/// The number that a setting spells, or a configuration error that begins
/// with `what`.
fn number_or(value: &Option<String>, default: &str, max: u32, what: &str) -> (result:
    ServiceResult<u32>)
    ensures
        match parsed(setting(*value, default@), max as nat) {
            Ok(number) => result matches Ok(n) && n == number && n <= max,
            Err(error) => result matches Err(e) && e@ == ServiceErrorView::config(
                invalid_number(what@, error),
            ),
        },
{
    let parsed = match value {
        Some(text) => parse_unsigned(text.as_str(), max),
        None => parse_unsigned(default, max),
    };
    match parsed {
        Ok(number) => Ok(number),
        Err(error) => {
            let mut message = String::from_str(what);
            message.append(error.message_text());
            Err(ServiceError::ConfigError(message))
        },
    }
}

impl PostgresConfig {
    /// The address of the relational engine as one text.
    pub open spec fn connection_text(&self) -> Seq<char> {
        "postgres://"@ + self.username@ + ":"@ + self.password@ + "@"@ + self.host@ + ":"@
            + decimal(self.port as nat) + "/"@ + self.database@
    }

    /// The address of the relational engine as one text: the scheme, the
    /// user and the password, the host and the port, and the database.
    pub fn connection_string(&self) -> (text: String)
        ensures
            text@ == self.connection_text(),
    {
        let mut text = String::from_str("postgres://");
        text.append(self.username.as_str());
        text.append(":");
        text.append(self.password.as_str());
        text.append("@");
        text.append(self.host.as_str());
        text.append(":");
        push_decimal(&mut text, self.port as u32);
        text.append("/");
        text.append(self.database.as_str());
        text
    }
}

impl AppConfig {
    /// Builds the configuration from the settings of the environment. A
    /// setting that is not set takes its default; a port or a number of
    /// connections that is no number in range is a configuration error.
    pub fn from_settings(settings: Settings) -> (result: ServiceResult<AppConfig>)
        ensures
            config_result_view(result) == configured(settings),
    {
        let server_port = match number_or(
            &settings.server_port,
            "8000",
            65535,
            "Invalid server port: ",
        ) {
            Ok(port) => port as u16,
            Err(error) => {
                return Err(error);
            },
        };
        let postgres_port = match number_or(
            &settings.postgres_port,
            "5432",
            65535,
            "Invalid postgres port: ",
        ) {
            Ok(port) => port as u16,
            Err(error) => {
                return Err(error);
            },
        };
        let max_connections = match number_or(
            &settings.postgres_max_connections,
            "5",
            0xffff_ffff,
            "Invalid max connections: ",
        ) {
            Ok(number) => number,
            Err(error) => {
                return Err(error);
            },
        };
        Ok(
            AppConfig {
                server: ServerConfig {
                    host: text_or(settings.server_host, "127.0.0.1"),
                    port: server_port,
                },
                postgres: PostgresConfig {
                    host: text_or(settings.postgres_host, "localhost"),
                    port: postgres_port,
                    username: text_or(settings.postgres_user, "postgres"),
                    password: text_or(settings.postgres_password, "postgres"),
                    database: text_or(settings.postgres_db, "business_service"),
                    max_connections,
                },
                mongodb: MongoConfig {
                    uri: text_or(settings.mongodb_uri, "mongodb://localhost:27017"),
                    database: text_or(settings.mongodb_database, "business_service"),
                },
            },
        )
    }
}

} // verus!

//! The error taxonomy shared by every layer of the service.

use vstd::prelude::*;
use vstd::string::*;

verus! {

/// What can go wrong in a store or a service call. Each variant carries the
/// message of the failure that caused it.
#[derive(Debug, PartialEq, Eq)]
pub enum ServiceError {
    /// Any failure reported by a storage engine.
    DatabaseError(String),
    /// No entity exists at the identifier that an update or delete named.
    NotFoundError(String),
    /// A value that the service cannot accept.
    ValidationError(String),
    /// A caller that could not be authenticated.
    AuthError(String),
    /// A configuration value that could not be parsed.
    ConfigError(String),
    /// Anything else.
    UnknownError(String),
}

pub type ServiceResult<T> = Result<T, ServiceError>;

/// The kind of a [`ServiceError`], without its message.
#[derive(Debug, Clone, Copy, PartialEq, Eq, Structural)]
pub enum ErrorKind {
    Database,
    NotFound,
    Validation,
    Auth,
    Config,
    Unknown,
}

/// The mathematical value of a [`ServiceError`]: its kind and its message.
pub struct ServiceErrorView {
    pub kind: ErrorKind,
    pub message: Seq<char>,
}

impl View for ServiceError {
    type V = ServiceErrorView;

    open spec fn view(&self) -> ServiceErrorView {
        ServiceErrorView { kind: self.kind_spec(), message: self.message_spec() }
    }
}

impl ServiceErrorView {
    /// A storage failure with the given message.
    pub open spec fn database(message: Seq<char>) -> ServiceErrorView {
        ServiceErrorView { kind: ErrorKind::Database, message }
    }

    /// A missing entity, described by the given message.
    pub open spec fn not_found(message: Seq<char>) -> ServiceErrorView {
        ServiceErrorView { kind: ErrorKind::NotFound, message }
    }

    /// A rejected value, described by the given message.
    pub open spec fn validation(message: Seq<char>) -> ServiceErrorView {
        ServiceErrorView { kind: ErrorKind::Validation, message }
    }

    /// A configuration value that could not be read, described by the message.
    pub open spec fn config(message: Seq<char>) -> ServiceErrorView {
        ServiceErrorView { kind: ErrorKind::Config, message }
    }

    /// A failure of no other kind, described by the given message.
    pub open spec fn unknown(message: Seq<char>) -> ServiceErrorView {
        ServiceErrorView { kind: ErrorKind::Unknown, message }
    }
}

impl ServiceError {
    /// The kind of this error.
    pub open spec fn kind_spec(self) -> ErrorKind {
        match self {
            ServiceError::DatabaseError(_) => ErrorKind::Database,
            ServiceError::NotFoundError(_) => ErrorKind::NotFound,
            ServiceError::ValidationError(_) => ErrorKind::Validation,
            ServiceError::AuthError(_) => ErrorKind::Auth,
            ServiceError::ConfigError(_) => ErrorKind::Config,
            ServiceError::UnknownError(_) => ErrorKind::Unknown,
        }
    }

    /// The message that this error carries.
    pub open spec fn message_spec(self) -> Seq<char> {
        match self {
            ServiceError::DatabaseError(m) => m@,
            ServiceError::NotFoundError(m) => m@,
            ServiceError::ValidationError(m) => m@,
            ServiceError::AuthError(m) => m@,
            ServiceError::ConfigError(m) => m@,
            ServiceError::UnknownError(m) => m@,
        }
    }

    /// The text that introduces the message of an error of the given kind.
    pub open spec fn prefix_spec(kind: ErrorKind) -> Seq<char> {
        match kind {
            ErrorKind::Database => "Database error: "@,
            ErrorKind::NotFound => "Entity not found: "@,
            ErrorKind::Validation => "Validation error: "@,
            ErrorKind::Auth => "Authentication error: "@,
            ErrorKind::Config => "Configuration error: "@,
            ErrorKind::Unknown => "Unknown error: "@,
        }
    }

    /// The text that describes this error: its kind's prefix, then its message.
    pub open spec fn describe_spec(self) -> Seq<char> {
        Self::prefix_spec(self.kind_spec()) + self.message_spec()
    }

    pub fn kind(&self) -> (k: ErrorKind)
        ensures
            k == self.kind_spec(),
    {
        match self {
            ServiceError::DatabaseError(_) => ErrorKind::Database,
            ServiceError::NotFoundError(_) => ErrorKind::NotFound,
            ServiceError::ValidationError(_) => ErrorKind::Validation,
            ServiceError::AuthError(_) => ErrorKind::Auth,
            ServiceError::ConfigError(_) => ErrorKind::Config,
            ServiceError::UnknownError(_) => ErrorKind::Unknown,
        }
    }

    pub fn message(&self) -> (m: &String)
        ensures
            m@ == self.message_spec(),
    {
        match self {
            ServiceError::DatabaseError(m) => m,
            ServiceError::NotFoundError(m) => m,
            ServiceError::ValidationError(m) => m,
            ServiceError::AuthError(m) => m,
            ServiceError::ConfigError(m) => m,
            ServiceError::UnknownError(m) => m,
        }
    }

    /// Renders the error as text.
    pub fn describe(&self) -> (text: String)
        ensures
            text@ == self.describe_spec(),
    {
        let prefix = match self {
            ServiceError::DatabaseError(_) => "Database error: ",
            ServiceError::NotFoundError(_) => "Entity not found: ",
            ServiceError::ValidationError(_) => "Validation error: ",
            ServiceError::AuthError(_) => "Authentication error: ",
            ServiceError::ConfigError(_) => "Configuration error: ",
            ServiceError::UnknownError(_) => "Unknown error: ",
        };
        let mut text = String::from_str(prefix);
        text.append(self.message().as_str());
        text
    }
}

} // verus!

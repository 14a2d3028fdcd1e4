//! The errors a request can end in, with their HTTP status and type code.

use vstd::prelude::*;

verus! {

/// Everything that can make a request fail.
#[derive(Debug, Clone, PartialEq, Eq)]
pub enum AppError {
    AuthenticationError(String),
    HttpClientError(String),
    CsvError(String),
    CacheError(String),
    DiscordNotifyError(String),
    ConfigError(String),
    InternalError(String),
}

/// The kinds of error, without their messages.
#[derive(Debug, Clone, Copy, PartialEq, Eq)]
pub enum ErrorKind {
    Authentication,
    HttpClient,
    Csv,
    Cache,
    DiscordNotify,
    Config,
    Internal,
}

pub open spec fn kind_of(e: AppError) -> ErrorKind {
    match e {
        AppError::AuthenticationError(_) => ErrorKind::Authentication,
        AppError::HttpClientError(_) => ErrorKind::HttpClient,
        AppError::CsvError(_) => ErrorKind::Csv,
        AppError::CacheError(_) => ErrorKind::Cache,
        AppError::DiscordNotifyError(_) => ErrorKind::DiscordNotify,
        AppError::ConfigError(_) => ErrorKind::Config,
        AppError::InternalError(_) => ErrorKind::Internal,
    }
}

/// The HTTP status that answers an error of each kind.
pub open spec fn status_of(k: ErrorKind) -> u16 {
    match k {
        ErrorKind::Authentication => 401,
        ErrorKind::HttpClient => 500,
        ErrorKind::Csv => 500,
        ErrorKind::Cache => 500,
        ErrorKind::DiscordNotify => 502,
        ErrorKind::Config => 500,
        ErrorKind::Internal => 500,
    }
}

/// The type code that the JSON error body carries for each kind.
pub open spec fn type_code_of(k: ErrorKind) -> Seq<char> {
    match k {
        ErrorKind::Authentication => "AUTHENTICATION_ERROR"@,
        ErrorKind::HttpClient => "HTTP_CLIENT_ERROR"@,
        ErrorKind::Csv => "CSV_ERROR"@,
        ErrorKind::Cache => "CACHE_ERROR"@,
        ErrorKind::DiscordNotify => "DISCORD_NOTIFY_ERROR"@,
        ErrorKind::Config => "CONFIG_ERROR"@,
        ErrorKind::Internal => "INTERNAL_ERROR"@,
    }
}

/// The human-readable prefix of each kind's message.
pub open spec fn prefix_of(k: ErrorKind) -> Seq<char> {
    match k {
        ErrorKind::Authentication => "Authentication failed: "@,
        ErrorKind::HttpClient => "HTTP client error: "@,
        ErrorKind::Csv => "CSV parsing error: "@,
        ErrorKind::Cache => "Cache error: "@,
        ErrorKind::DiscordNotify => "Discord service error: "@,
        ErrorKind::Config => "Configuration error: "@,
        ErrorKind::Internal => "Internal server error: "@,
    }
}

impl AppError {
    pub open spec fn detail(&self) -> Seq<char> {
        match self {
            AppError::AuthenticationError(s) => s@,
            AppError::HttpClientError(s) => s@,
            AppError::CsvError(s) => s@,
            AppError::CacheError(s) => s@,
            AppError::DiscordNotifyError(s) => s@,
            AppError::ConfigError(s) => s@,
            AppError::InternalError(s) => s@,
        }
    }

    /// The kind of this error.
    pub fn kind(&self) -> (r: ErrorKind)
        ensures
            r == kind_of(*self),
    {
        match self {
            AppError::AuthenticationError(_) => ErrorKind::Authentication,
            AppError::HttpClientError(_) => ErrorKind::HttpClient,
            AppError::CsvError(_) => ErrorKind::Csv,
            AppError::CacheError(_) => ErrorKind::Cache,
            AppError::DiscordNotifyError(_) => ErrorKind::DiscordNotify,
            AppError::ConfigError(_) => ErrorKind::Config,
            AppError::InternalError(_) => ErrorKind::Internal,
        }
    }

    /// The HTTP status that answers this error.
    pub fn status_code(&self) -> (r: u16)
        ensures
            r == status_of(kind_of(*self)),
    {
        match self.kind() {
            ErrorKind::Authentication => 401,
            ErrorKind::HttpClient => 500,
            ErrorKind::Csv => 500,
            ErrorKind::Cache => 500,
            ErrorKind::DiscordNotify => 502,
            ErrorKind::Config => 500,
            ErrorKind::Internal => 500,
        }
    }

    /// The type code of this error's JSON body.
    pub fn error_type(&self) -> (r: &'static str)
        ensures
            r@ == type_code_of(kind_of(*self)),
    {
        match self.kind() {
            ErrorKind::Authentication => "AUTHENTICATION_ERROR",
            ErrorKind::HttpClient => "HTTP_CLIENT_ERROR",
            ErrorKind::Csv => "CSV_ERROR",
            ErrorKind::Cache => "CACHE_ERROR",
            ErrorKind::DiscordNotify => "DISCORD_NOTIFY_ERROR",
            ErrorKind::Config => "CONFIG_ERROR",
            ErrorKind::Internal => "INTERNAL_ERROR",
        }
    }

    fn message_prefix(&self) -> (r: &'static str)
        ensures
            r@ == prefix_of(kind_of(*self)),
    {
        match self.kind() {
            ErrorKind::Authentication => "Authentication failed: ",
            ErrorKind::HttpClient => "HTTP client error: ",
            ErrorKind::Csv => "CSV parsing error: ",
            ErrorKind::Cache => "Cache error: ",
            ErrorKind::DiscordNotify => "Discord service error: ",
            ErrorKind::Config => "Configuration error: ",
            ErrorKind::Internal => "Internal server error: ",
        }
    }

    /// The message of this error's JSON body: its kind's prefix, then its detail.
    pub fn message(&self) -> (r: String)
        ensures
            r@ == prefix_of(kind_of(*self)) + self.detail(),
    {
        let mut s = String::from_str(self.message_prefix());
        let d: &str = match self {
            AppError::AuthenticationError(s) => s.as_str(),
            AppError::HttpClientError(s) => s.as_str(),
            AppError::CsvError(s) => s.as_str(),
            AppError::CacheError(s) => s.as_str(),
            AppError::DiscordNotifyError(s) => s.as_str(),
            AppError::ConfigError(s) => s.as_str(),
            AppError::InternalError(s) => s.as_str(),
        };
        s.append(d);
        s
    }
}

} // verus!

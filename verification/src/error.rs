//! Unified error taxonomy across all providers.

use vstd::prelude::*;

verus! {

/// Mathematical model of an [`Error`]: the same cases with message text as
/// character sequences.
pub enum ErrorV {
    RateLimited { retry_after_secs: Option<u64> },
    Unauthorized,
    Server(u16),
    Api { status: u16, message: Seq<char> },
    Timeout,
    Parse(Seq<char>),
    InvalidModel(Seq<char>),
    MissingApiKey(Seq<char>),
    Transport(Seq<char>),
    StreamConsumed,
    Config(Seq<char>),
}

/// Unified error type across all providers.
#[derive(Debug)]
pub enum Error {
    /// Rate limited by the provider; may carry the server-suggested wait in seconds.
    RateLimited { retry_after_secs: Option<u64> },
    /// Invalid or missing API key (HTTP 401).
    Unauthorized,
    /// Server error (HTTP 5xx status codes).
    Server(u16),
    /// API error with provider-specific message (other non-2xx).
    Api { status: u16, message: String },
    /// Request or connection timeout.
    Timeout,
    /// JSON or SSE parsing error.
    Parse(String),
    /// Invalid model identifier format.
    InvalidModel(String),
    /// Missing API key for the chosen provider.
    MissingApiKey(String),
    /// Network failure other than a timeout.
    Transport(String),
    /// Stream was already finalized.
    StreamConsumed,
    /// Invalid configuration.
    Config(String),
}

impl View for Error {
    type V = ErrorV;

    open spec fn view(&self) -> ErrorV {
        match self {
            Error::RateLimited { retry_after_secs } => (ErrorV::RateLimited {
                retry_after_secs: *retry_after_secs,
            }),
            Error::Unauthorized => ErrorV::Unauthorized,
            Error::Server(s) => ErrorV::Server(*s),
            Error::Api { status, message } => (ErrorV::Api { status: *status, message: message@ }),
            Error::Timeout => ErrorV::Timeout,
            Error::Parse(m) => ErrorV::Parse(m@),
            Error::InvalidModel(m) => ErrorV::InvalidModel(m@),
            Error::MissingApiKey(m) => ErrorV::MissingApiKey(m@),
            Error::Transport(m) => ErrorV::Transport(m@),
            Error::StreamConsumed => ErrorV::StreamConsumed,
            Error::Config(m) => ErrorV::Config(m@),
        }
    }
}

impl ErrorV {
    /// An error is retryable exactly when it is rate-limited, a server
    /// error, or a timeout.
    pub open spec fn spec_is_retryable(self) -> bool {
        self is RateLimited || self is Server || self is Timeout
    }
}

impl Error {
    /// Returns true exactly when this error is retryable: rate-limited,
    /// server error, or timeout.
    pub fn is_retryable(&self) -> (r: bool)
        ensures
            r == self@.spec_is_retryable(),
    {
        matches!(self, Error::RateLimited { .. } | Error::Server(_) | Error::Timeout)
    }

    /// Create an API error from status and message.
    pub fn api(status: u16, message: String) -> (r: Self)
        ensures
            r@ == (ErrorV::Api { status, message: message@ }),
    {
        Error::Api { status, message }
    }

    /// Create a parse error.
    pub fn parse(msg: String) -> (r: Self)
        ensures
            r@ == ErrorV::Parse(msg@),
    {
        Error::Parse(msg)
    }
}

} // verus!

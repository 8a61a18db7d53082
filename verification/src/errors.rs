//! Error kinds surfaced by the client core.

use vstd::prelude::*;

verus! {

/// The failure classes of the client.
///
/// Transport and decode failures are retryable; configuration failures are
/// fatal and reported before any remote call is made; upstream failures are
/// server-signalled error bodies; sink failures come from the parquet
/// writers and end the stream.
#[derive(Debug, Clone)]
pub enum Error {
    /// Connection, TLS, timeout or non-2xx transport failure.
    TransportError(String),
    /// Malformed Arrow IPC payload.
    DecodeError(String),
    /// Invalid stream or client configuration.
    ConfigError(String),
    /// Error body signalled by the server.
    UpstreamError(String),
    /// Parquet writer I/O failure.
    SinkError(String),
}

impl Error {
    /// The human-readable detail carried by the error.
    pub fn message(&self) -> (r: String)
        ensures
            r@ == self.spec_message(),
    {
        match self {
            Error::TransportError(m) => m.clone(),
            Error::DecodeError(m) => m.clone(),
            Error::ConfigError(m) => m.clone(),
            Error::UpstreamError(m) => m.clone(),
            Error::SinkError(m) => m.clone(),
        }
    }

    /// The detail string of any variant.
    pub open spec fn spec_message(&self) -> Seq<char> {
        match self {
            Error::TransportError(m) => m@,
            Error::DecodeError(m) => m@,
            Error::ConfigError(m) => m@,
            Error::UpstreamError(m) => m@,
            Error::SinkError(m) => m@,
        }
    }

    /// Whether the retry policy may absorb this error.
    pub fn is_retryable(&self) -> (r: bool)
        ensures
            r == self.spec_is_retryable(),
    {
        match self {
            Error::TransportError(_) => true,
            Error::DecodeError(_) => true,
            Error::ConfigError(_) => false,
            Error::UpstreamError(_) => false,
            Error::SinkError(_) => false,
        }
    }

    /// Transport and decode failures are retried; the rest are fatal.
    pub open spec fn spec_is_retryable(&self) -> bool {
        self is TransportError || self is DecodeError
    }
}

} // verus!

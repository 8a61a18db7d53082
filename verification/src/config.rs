//! Client and stream configuration, with their documented defaults.

use vstd::prelude::*;
use crate::errors::Error;

verus! {

/// Default base URL of the archive service.
pub const DEFAULT_URL: &'static str = "https://eth.hypersync.xyz";

/// Default per-request HTTP timeout, in milliseconds.
pub const DEFAULT_HTTP_REQ_TIMEOUT_MILLIS: u64 = 30000;

/// Default number of attempts made for one remote call.
pub const DEFAULT_MAX_NUM_RETRIES: u64 = 12;

/// Default backoff added to the delay after each failed attempt, and the
/// width of the jitter window, in milliseconds.
pub const DEFAULT_RETRY_BACKOFF_MS: u64 = 500;

/// Default delay before the first retry, in milliseconds.
pub const DEFAULT_RETRY_BASE_MS: u64 = 200;

/// Default cap on the retry delay, in milliseconds.
pub const DEFAULT_RETRY_CEILING_MS: u64 = 5000;

/// Default bound on the number of in-flight sub-queries.
pub const DEFAULT_CONCURRENCY: usize = 10;

/// Default span, in blocks, of each sub-query.
pub const DEFAULT_BATCH_SIZE: u64 = 1000;

/// Column type targets for an output column mapping.
///
/// The mapping itself is applied by the decoding collaborator; the core
/// only checks where a mapping is allowed to appear.
#[derive(Debug, Clone, PartialEq, Eq, Structural)]
pub enum DataType {
    Float64,
    Float32,
    UInt64,
    UInt32,
    Int64,
    Int32,
}

/// Requested re-typing of output columns, per kind.
#[derive(Debug, Clone)]
pub struct ColumnMapping {
    pub block: Vec<(String, DataType)>,
    pub transaction: Vec<(String, DataType)>,
    pub log: Vec<(String, DataType)>,
    pub decoded_log: Vec<(String, DataType)>,
}

/// Options recognised by the streaming APIs.
#[derive(Debug, Clone, Default)]
pub struct StreamConfig {
    /// Maximum number of in-flight sub-queries.
    pub concurrency: Option<usize>,
    /// Initial span of each sub-query, in blocks.
    pub batch_size: Option<u64>,
    /// Upper bound for adaptive sub-query sizing.
    pub max_batch_size: Option<u64>,
    /// Lower bound for adaptive sub-query sizing.
    pub min_batch_size: Option<u64>,
    /// Soft response-size target, in bytes, for adaptive sizing.
    pub response_size_ceiling: Option<u64>,
    /// Event signature for server-side decoding; forbidden on the simple
    /// and typed paths.
    pub event_signature: Option<String>,
    /// Output column re-typing; forbidden on the simple and typed paths.
    pub column_mapping: Option<ColumnMapping>,
    /// Whether typed outputs render binary fields as hex.
    pub hex_output: Option<bool>,
}

impl StreamConfig {
    /// The concurrency bound to run with: the configured one, or the
    /// default.
    pub fn concurrency_or_default(&self) -> (r: usize)
        ensures
            r == self.spec_concurrency(),
    {
        match self.concurrency {
            Some(c) => c,
            None => DEFAULT_CONCURRENCY,
        }
    }

    /// The configured concurrency bound, defaulted.
    pub open spec fn spec_concurrency(&self) -> usize {
        match self.concurrency {
            Some(c) => c,
            None => DEFAULT_CONCURRENCY,
        }
    }

    /// The sub-query span to run with: the configured one, or the default.
    pub fn batch_size_or_default(&self) -> (r: u64)
        ensures
            r == self.spec_batch_size(),
    {
        match self.batch_size {
            Some(b) => b,
            None => DEFAULT_BATCH_SIZE,
        }
    }

    /// The configured sub-query span, defaulted.
    pub open spec fn spec_batch_size(&self) -> u64 {
        match self.batch_size {
            Some(b) => b,
            None => DEFAULT_BATCH_SIZE,
        }
    }

    /// The lower adaptive-sizing bound: the configured one, at least
    /// one.
    pub open spec fn spec_min_batch(&self) -> u64 {
        let m = match self.min_batch_size {
            Some(m) => m,
            None => 1u64,
        };
        if m >= 1 {
            m
        } else {
            1u64
        }
    }

    /// The upper adaptive-sizing bound: the configured one, at least
    /// the lower bound.
    pub open spec fn spec_max_batch(&self) -> u64 {
        let m = match self.max_batch_size {
            Some(m) => m,
            None => u64::MAX,
        };
        if m >= self.spec_min_batch() {
            m
        } else {
            self.spec_min_batch()
        }
    }

    /// The initial sub-query span: the configured one, clamped into the
    /// adaptive-sizing bounds.
    pub open spec fn spec_initial_batch(&self) -> u64 {
        let b = self.spec_batch_size();
        if b < self.spec_min_batch() {
            self.spec_min_batch()
        } else if b > self.spec_max_batch() {
            self.spec_max_batch()
        } else {
            b
        }
    }
}

/// Constructor inputs for a [`Client`].  Absent fields take the
/// documented defaults.
#[derive(Debug, Clone, Default)]
pub struct ClientConfig {
    pub url: Option<String>,
    pub bearer_token: Option<String>,
    /// Per-request HTTP timeout in milliseconds; must be non-zero when
    /// given.
    pub http_req_timeout_millis: Option<u64>,
    pub max_num_retries: Option<u64>,
    pub retry_backoff_ms: Option<u64>,
    pub retry_base_ms: Option<u64>,
    pub retry_ceiling_ms: Option<u64>,
}

/// A configured client: the base URL, credentials and retry policy that
/// every remote call shares.  The HTTP connection pool built from these
/// settings lives with the transport layer.
#[derive(Debug, Clone)]
pub struct Client {
    pub url: String,
    pub bearer_token: Option<String>,
    pub http_req_timeout_millis: u64,
    pub max_num_retries: u64,
    pub retry_backoff_ms: u64,
    pub retry_base_ms: u64,
    pub retry_ceiling_ms: u64,
}

impl Client {
    /// Resolves a configuration against the documented defaults.
    pub fn new(cfg: ClientConfig) -> (r: Client)
        requires
            cfg.http_req_timeout_millis matches Some(t) ==> t >= 1,
        ensures
            cfg.url matches Some(u) ==> r.url@ == u@,
            cfg.url is None ==> r.url@ == DEFAULT_URL@,
            r.bearer_token == cfg.bearer_token,
            r.http_req_timeout_millis == (match cfg.http_req_timeout_millis {
                Some(t) => t,
                None => DEFAULT_HTTP_REQ_TIMEOUT_MILLIS,
            }),
            r.max_num_retries == (match cfg.max_num_retries {
                Some(n) => n,
                None => DEFAULT_MAX_NUM_RETRIES,
            }),
            r.retry_backoff_ms == (match cfg.retry_backoff_ms {
                Some(n) => n,
                None => DEFAULT_RETRY_BACKOFF_MS,
            }),
            r.retry_base_ms == (match cfg.retry_base_ms {
                Some(n) => n,
                None => DEFAULT_RETRY_BASE_MS,
            }),
            r.retry_ceiling_ms == (match cfg.retry_ceiling_ms {
                Some(n) => n,
                None => DEFAULT_RETRY_CEILING_MS,
            }),
    {
        let url = match cfg.url {
            Some(u) => u,
            None => DEFAULT_URL.to_owned(),
        };
        Client {
            url,
            bearer_token: cfg.bearer_token,
            http_req_timeout_millis: match cfg.http_req_timeout_millis {
                Some(t) => t,
                None => DEFAULT_HTTP_REQ_TIMEOUT_MILLIS,
            },
            max_num_retries: match cfg.max_num_retries {
                Some(n) => n,
                None => DEFAULT_MAX_NUM_RETRIES,
            },
            retry_backoff_ms: match cfg.retry_backoff_ms {
                Some(n) => n,
                None => DEFAULT_RETRY_BACKOFF_MS,
            },
            retry_base_ms: match cfg.retry_base_ms {
                Some(n) => n,
                None => DEFAULT_RETRY_BASE_MS,
            },
            retry_ceiling_ms: match cfg.retry_ceiling_ms {
                Some(n) => n,
                None => DEFAULT_RETRY_CEILING_MS,
            },
        }
    }
}

/// Rejects stream options that only make sense when the consumer decodes
/// the raw columnar data itself.
///
/// Returns `Ok` exactly when neither `event_signature` nor
/// `column_mapping` is set; the simple and typed APIs call this before any
/// remote request is issued.
pub fn check_simple_stream_params(config: &StreamConfig) -> (r: Result<(), Error>)
    ensures
        r is Ok <==> (config.event_signature is None && config.column_mapping is None),
        r matches Err(e) ==> e is ConfigError,
{
    if config.event_signature.is_some() {
        return Err(
            Error::ConfigError(
                "config.event_signature can't be passed to simple type function. User is expected to decode the logs using Decoder.".to_owned(),
            ),
        );
    }
    if config.column_mapping.is_some() {
        return Err(
            Error::ConfigError(
                "config.column_mapping can't be passed to simple type function. User is expected to map values manually.".to_owned(),
            ),
        );
    }
    Ok(())
}

} // verus!

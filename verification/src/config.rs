//! Settings of the service: HTTP binding, database and search addresses,
//! outgoing HTTP client limits and the optional background jobs.
use vstd::prelude::*;

verus! {

/// Cache namespace of attributes.
pub const ATTRIBUTE_CACHE_NAMESPACE: &'static str = "attribute";

/// Cache namespace of categories.
pub const CATEGORY_CACHE_NAMESPACE: &'static str = "category";

/// Cache namespace of role assignments.
pub const ROLES_CACHE_NAMESPACE: &'static str = "roles";

/// Basic settings: HTTP binding address, database DSN and client limits.
#[derive(Debug, Clone)]
pub struct Config {
    pub server: Server,
    pub client: Client,
    pub rocket_retail: Option<RocketRetail>,
    pub s3: Option<S3>,
    pub ticker: Option<Ticker>,
}

/// Common server settings.
#[derive(Debug, Clone)]
pub struct Server {
    pub host: String,
    pub port: String,
    pub database: String,
    pub elastic: String,
    pub redis: Option<String>,
    pub thread_count: usize,
    pub cache_ttl_sec: u64,
}

/// Http client settings.
#[derive(Debug, Clone)]
pub struct Client {
    pub http_client_retries: usize,
    pub http_client_buffer_size: usize,
    pub http_timeout_ms: u64,
}

/// Settings of the catalog export job.
#[derive(Debug, Clone)]
pub struct RocketRetail {
    pub interval_s: usize,
    pub file_name: String,
    pub cluster: String,
    pub thread_count: usize,
}

/// Ticker settings.
#[derive(Debug, Clone)]
pub struct Ticker {
    pub api_endpoint_url: String,
    pub interval_s: u64,
    pub thread_count: usize,
}

/// AWS S3 credentials.
#[derive(Debug, Clone)]
pub struct S3 {
    pub key: String,
    pub secret: String,
    pub region: String,
    pub bucket: String,
}

/// Limits handed to the outgoing HTTP client.
#[derive(Debug, Clone, Copy, PartialEq, Eq, Structural)]
pub struct HttpClientConfig {
    pub http_client_retries: usize,
    pub http_client_buffer_size: usize,
    pub timeout_duration_ms: u64,
}

impl Config {
    /// The HTTP client limits of these settings: retries and buffer size as
    /// configured, and the configured timeout as the duration in milliseconds.
    pub fn to_http_config(&self) -> (http: HttpClientConfig)
        ensures
            http.http_client_buffer_size == self.client.http_client_buffer_size,
            http.http_client_retries == self.client.http_client_retries,
            http.timeout_duration_ms == self.client.http_timeout_ms,
    {
        HttpClientConfig {
            http_client_buffer_size: self.client.http_client_buffer_size,
            http_client_retries: self.client.http_client_retries,
            timeout_duration_ms: self.client.http_timeout_ms,
        }
    }

    /// Time-to-live of a cached role assignment, in seconds.
    pub fn roles_cache_ttl_sec(&self) -> (ttl: u64)
        ensures
            ttl == self.server.cache_ttl_sec,
    {
        self.server.cache_ttl_sec
    }
}

} // verus!

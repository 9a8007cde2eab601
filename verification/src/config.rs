//! Process configuration, as plain values.
//!
//! The surrounding runtime reads these from the environment; the library
//! only holds and computes over them.

use vstd::prelude::*;

verus! {

/// HTTP server settings.
#[derive(Debug, Clone)]
pub struct Server {
    pub port: u16,
    /// Request body limit, in mebibytes.
    pub body_limit: u64,
    /// Request timeout, in seconds.
    pub timeout: u64,
}

impl Server {
    /// The request body limit in bytes, or nothing when the configured
    /// mebibyte count would overflow.
    pub fn body_limit_bytes(&self) -> (r: Option<u64>)
        ensures
            self.body_limit * 1048576 <= u64::MAX ==> r == Option::Some(
                (self.body_limit * 1048576) as u64,
            ),
            self.body_limit * 1048576 > u64::MAX ==> r is None,
    {
        self.body_limit.checked_mul(1048576)
    }
}

/// Database settings.
#[derive(Debug, Clone)]
pub struct Database {
    pub url: String,
}

/// Token issuing settings: time to live (in days) and the signing secret.
#[derive(Debug, Clone)]
pub struct JwtEnv {
    pub ttl: i64,
    pub secret: String,
}

/// Everything the process reads from its environment at start.
#[derive(Debug, Clone)]
pub struct DotEnvyConfig {
    pub server: Server,
    pub database: Database,
    pub secret: String,
}

/// Media upload service credentials.
#[derive(Debug, Clone)]
pub struct CloudinaryEnv {
    pub cloud_name: String,
    pub api_key: String,
    pub secret: String,
    pub api_secret: String,
}

} // verus!

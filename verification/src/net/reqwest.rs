//! Settings of the HTTP client with retries and tracing.
use crate::text::opt_view;
use vstd::prelude::*;

verus! {

/// The timeout used when none is given, in milliseconds.
pub const DEFAULT_TIMEOUT_MS: u64 = 30000;

/// How the HTTP client is built: its user agent, request and connect timeouts in
/// milliseconds, and the most retries of transient failures (none: no retrying).
#[derive(Debug)]
pub struct ReqwestSettings {
    pub user_agent: Option<String>,
    pub timeout_ms: u64,
    pub connect_timeout_ms: u64,
    pub max_retries: Option<u32>,
}

/// The settings of a client: the given values, with 30 s for an absent timeout.
pub fn client_settings(
    user_agent: Option<&str>,
    timeout_ms: Option<u64>,
    connect_timeout_ms: Option<u64>,
    retry: Option<u32>,
) -> (r: ReqwestSettings)
    ensures
        opt_view(r.user_agent) == match user_agent {
            Some(u) => Some(u@),
            None => None,
        },
        r.timeout_ms == match timeout_ms {
            Some(t) => t,
            None => DEFAULT_TIMEOUT_MS,
        },
        r.connect_timeout_ms == match connect_timeout_ms {
            Some(t) => t,
            None => DEFAULT_TIMEOUT_MS,
        },
        r.max_retries == retry,
{
    ReqwestSettings {
        user_agent: match user_agent {
            Some(u) => Some(crate::text::owned(u)),
            None => None,
        },
        timeout_ms: match timeout_ms {
            Some(t) => t,
            None => DEFAULT_TIMEOUT_MS,
        },
        connect_timeout_ms: match connect_timeout_ms {
            Some(t) => t,
            None => DEFAULT_TIMEOUT_MS,
        },
        max_retries: retry,
    }
}

/// The settings of the client behind an RSS reader: the user agent and timeouts
/// given, two retries.
pub fn rss_client_settings(user_agent: &str, timeout_ms: u64, connect_timeout_ms: u64) -> (r: ReqwestSettings)
    ensures
        opt_view(r.user_agent) == Some(user_agent@),
        r.timeout_ms == timeout_ms,
        r.connect_timeout_ms == connect_timeout_ms,
        r.max_retries == Some(2u32),
{
    client_settings(Some(user_agent), Some(timeout_ms), Some(connect_timeout_ms), Some(2))
}

} // verus!

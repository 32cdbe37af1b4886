//! Types of the fetch module.

use vstd::prelude::*;
use crate::types::prefixed;
use crate::fetch::useragent::{user_agent_list, get_latest_chrome_user_agent};

verus! {

/// Error types for fetch operations.
#[derive(Debug, Clone)]
pub enum FetchError {
    Network(String),
    Http(String),
    Json(String),
    ChannelNotFound(String),
    RateLimit,
    InvalidResponse,
    Timeout,
    AuthenticationRequired,
}

/// The result of a fetch operation.
pub type FetchResult<T> = Result<T, FetchError>;

impl FetchError {
    /// The message the error displays.
    pub open spec fn spec_message(&self) -> Seq<char> {
        match self {
            FetchError::Network(s) => "Network error: "@ + s@,
            FetchError::Http(s) => "HTTP request failed: "@ + s@,
            FetchError::Json(s) => "JSON parsing error: "@ + s@,
            FetchError::ChannelNotFound(s) => "Channel not found: "@ + s@,
            FetchError::RateLimit => "Rate limit exceeded"@,
            FetchError::InvalidResponse => "Invalid response format"@,
            FetchError::Timeout => "Timeout error"@,
            FetchError::AuthenticationRequired => "Authentication required"@,
        }
    }

    /// The error's message, as the error displays itself.
    pub fn message(&self) -> (res: String)
        ensures
            res@ == self.spec_message(),
    {
        match self {
            FetchError::Network(s) => prefixed("Network error: ", s.as_str()),
            FetchError::Http(s) => prefixed("HTTP request failed: ", s.as_str()),
            FetchError::Json(s) => prefixed("JSON parsing error: ", s.as_str()),
            FetchError::ChannelNotFound(s) => prefixed("Channel not found: ", s.as_str()),
            FetchError::RateLimit => String::from_str("Rate limit exceeded"),
            FetchError::InvalidResponse => String::from_str("Invalid response format"),
            FetchError::Timeout => String::from_str("Timeout error"),
            FetchError::AuthenticationRequired => String::from_str("Authentication required"),
        }
    }
}

/// Configuration for the HTTP client.
#[derive(Debug, Clone)]
pub struct ClientConfig {
    /// User agent string for requests
    pub user_agent: Option<String>,
    /// Request timeout in seconds
    pub timeout_seconds: u64,
    /// Maximum number of retries for failed requests
    pub max_retries: u32,
    /// Delay between retries in milliseconds
    pub retry_delay_ms: u64,
    /// Enable request/response logging
    pub enable_logging: bool,
    /// Custom headers to include in all requests
    pub custom_headers: Vec<(String, String)>,
}

impl Default for ClientConfig {
    fn default() -> (res: Self)
        ensures
            res.user_agent matches Some(u) && u@ == user_agent_list()[0],
            res.timeout_seconds == 30,
            res.max_retries == 3,
            res.retry_delay_ms == 1000,
            !res.enable_logging,
            res.custom_headers@.len() == 0,
    {
        ClientConfig {
            user_agent: Some(String::from_str(get_latest_chrome_user_agent())),
            timeout_seconds: 30,
            max_retries: 3,
            retry_delay_ms: 1000,
            enable_logging: false,
            custom_headers: Vec::new(),
        }
    }
}

/// Channel information from the Kick API.
#[derive(Debug, Clone)]
pub struct ChannelInfo {
    /// Channel ID
    pub id: u64,
    /// Channel slug/name
    pub slug: String,
    /// Channel title
    pub title: Option<String>,
    /// Number of followers
    pub followers_count: Option<u64>,
    /// Number of subscribers
    pub subscribers_count: Option<u64>,
    /// Is channel currently live
    pub is_live: bool,
    /// Viewer count if live
    pub viewers_count: Option<u64>,
    /// Stream category
    pub category: Option<String>,
    /// Stream tags
    pub tags: Option<Vec<String>>,
    /// Channel language
    pub language: Option<String>,
    /// User information
    pub user: Option<UserInfo>,
    /// Chatroom information
    pub chatroom: Option<ChatroomInfo>,
}

/// User information associated with a channel.
#[derive(Debug, Clone)]
pub struct UserInfo {
    /// User ID
    pub id: u64,
    /// Username
    pub username: String,
    /// Display name
    pub display_name: Option<String>,
    /// Avatar URL
    pub avatar_url: Option<String>,
    /// Bio/description
    pub bio: Option<String>,
    /// Account creation date
    pub created_at: Option<String>,
}

/// Chatroom information.
#[derive(Debug, Clone)]
pub struct ChatroomInfo {
    /// Chatroom ID
    pub id: u64,
    /// Channel ID
    pub channel_id: u64,
    /// Chatroom name
    pub name: String,
    /// Chatroom type
    pub chatroom_type: Option<String>,
    /// Slow mode delay in seconds
    pub slow_mode: Option<u32>,
}

/// Strategy configuration for different fetch approaches.
#[derive(Debug, Clone, Copy)]
pub struct StrategyConfig {
    /// Random delay range in milliseconds (for rate limiting)
    pub random_delay_range: (u64, u64),
}

impl Default for StrategyConfig {
    fn default() -> (res: Self)
        ensures
            res.random_delay_range == (100u64, 500u64),
    {
        StrategyConfig { random_delay_range: (100, 500) }
    }
}

/// The current time in Unix milliseconds, from `chrono::Utc::now()`.
#[verifier::external_body]
fn unix_millis_now() -> (res: i64) {
    chrono::Utc::now().timestamp_millis()
}

/// Request context for tracking fetch operations; the timestamp is in Unix
/// milliseconds.
#[derive(Debug, Clone)]
pub struct RequestContext {
    /// Channel name being requested
    pub channel_name: String,
    /// Strategy being used
    pub strategy: String,
    /// Attempt number
    pub attempt: u32,
    /// Request timestamp
    pub timestamp: i64,
    /// User agent used
    pub user_agent: String,
}

impl RequestContext {
    /// A context for the first attempt at fetching `channel_name`, stamped with
    /// the current time.
    pub fn new(channel_name: &str, strategy: &str) -> (res: Self)
        ensures
            res.channel_name@ == channel_name@,
            res.strategy@ == strategy@,
            res.attempt == 1,
            res.user_agent@ == "unknown"@,
    {
        RequestContext {
            channel_name: String::from_str(channel_name),
            strategy: String::from_str(strategy),
            attempt: 1,
            timestamp: unix_millis_now(),
            user_agent: String::from_str("unknown"),
        }
    }
}

/// Counters of fetch operations.
#[derive(Debug, Clone)]
pub struct FetchMetrics {
    /// Total requests made
    pub total_requests: u64,
    /// Successful requests
    pub successful_requests: u64,
    /// Failed requests
    pub failed_requests: u64,
    /// Cache hits
    pub cache_hits: u64,
    /// Rate limit hits
    pub rate_limit_hits: u64,
}

impl Default for FetchMetrics {
    fn default() -> (res: Self)
        ensures
            res.total_requests == 0,
            res.successful_requests == 0,
            res.failed_requests == 0,
            res.cache_hits == 0,
            res.rate_limit_hits == 0,
    {
        FetchMetrics { total_requests: 0, successful_requests: 0, failed_requests: 0, cache_hits: 0, rate_limit_hits: 0 }
    }
}

impl FetchMetrics {
    /// Every request counted has succeeded or failed.
    pub open spec fn consistent(&self) -> bool {
        self.total_requests == self.successful_requests + self.failed_requests
    }

    /// Counts a successful request.
    pub fn record_success(&mut self)
        requires
            old(self).total_requests < u64::MAX,
            old(self).successful_requests < u64::MAX,
        ensures
            final(self).total_requests == old(self).total_requests + 1,
            final(self).successful_requests == old(self).successful_requests + 1,
            final(self).failed_requests == old(self).failed_requests,
            old(self).consistent() ==> final(self).consistent(),
            final(self).cache_hits == old(self).cache_hits,
            final(self).rate_limit_hits == old(self).rate_limit_hits,
    {
        self.total_requests = self.total_requests + 1;
        self.successful_requests = self.successful_requests + 1;
    }

    /// Counts a failed request.
    pub fn record_failure(&mut self)
        requires
            old(self).total_requests < u64::MAX,
            old(self).failed_requests < u64::MAX,
        ensures
            final(self).total_requests == old(self).total_requests + 1,
            final(self).failed_requests == old(self).failed_requests + 1,
            final(self).successful_requests == old(self).successful_requests,
            old(self).consistent() ==> final(self).consistent(),
            final(self).cache_hits == old(self).cache_hits,
            final(self).rate_limit_hits == old(self).rate_limit_hits,
    {
        self.total_requests = self.total_requests + 1;
        self.failed_requests = self.failed_requests + 1;
    }
}

} // verus!

//! The decisions of the Kick API client: its configuration builder, cache
//! expiry, the retry schedule, and what its lookups return.

use vstd::prelude::*;
use crate::fetch::types::{ClientConfig, StrategyConfig, ChannelInfo, FetchError};
use crate::fetch::useragent::user_agent_list;
use crate::text::decimal;
use crate::types::prefixed;

verus! {

/// Builder for creating a Kick API client with custom configuration.
pub struct KickApiClientBuilder {
    client_config: ClientConfig,
    strategy_config: StrategyConfig,
}

impl KickApiClientBuilder {
    /// The client configuration being built.
    pub closed spec fn spec_client_config(&self) -> ClientConfig {
        self.client_config
    }

    /// The strategy configuration being built.
    pub closed spec fn spec_strategy_config(&self) -> StrategyConfig {
        self.strategy_config
    }

    /// Create a new builder with the default configurations.
    pub fn new() -> (res: Self)
        ensures
            res.spec_client_config().user_agent matches Some(u) && u@ == user_agent_list()[0],
            res.spec_client_config().timeout_seconds == 30,
            res.spec_client_config().max_retries == 3,
            res.spec_client_config().retry_delay_ms == 1000,
            !res.spec_client_config().enable_logging,
            res.spec_client_config().custom_headers@.len() == 0,
            res.spec_strategy_config().random_delay_range == (100u64, 500u64),
    {
        KickApiClientBuilder { client_config: ClientConfig::default(), strategy_config: StrategyConfig::default() }
    }

    /// Set the user agent.
    pub fn user_agent<S: Into<String>>(self, user_agent: S) -> (res: Self)
        ensures
            res.spec_client_config().user_agent matches Some(u) && call_ensures(
                <S as Into<String>>::into,
                (user_agent,),
                u,
            ),
            res.spec_client_config().timeout_seconds == self.spec_client_config().timeout_seconds,
            res.spec_client_config().max_retries == self.spec_client_config().max_retries,
            res.spec_client_config().retry_delay_ms == self.spec_client_config().retry_delay_ms,
            res.spec_client_config().enable_logging == self.spec_client_config().enable_logging,
            res.spec_client_config().custom_headers == self.spec_client_config().custom_headers,
            res.spec_strategy_config() == self.spec_strategy_config(),
    {
        let mut b = self;
        b.client_config.user_agent = Some(user_agent.into());
        b
    }

    /// Set the timeout in seconds.
    pub fn timeout(self, seconds: u64) -> (res: Self)
        ensures
            res.spec_client_config() == (ClientConfig { timeout_seconds: seconds, ..self.spec_client_config() }),
            res.spec_strategy_config() == self.spec_strategy_config(),
    {
        let mut b = self;
        b.client_config.timeout_seconds = seconds;
        b
    }

    /// Set the maximum number of retries.
    pub fn max_retries(self, retries: u32) -> (res: Self)
        ensures
            res.spec_client_config() == (ClientConfig { max_retries: retries, ..self.spec_client_config() }),
            res.spec_strategy_config() == self.spec_strategy_config(),
    {
        let mut b = self;
        b.client_config.max_retries = retries;
        b
    }

    /// Set the retry delay in milliseconds.
    pub fn retry_delay(self, delay_ms: u64) -> (res: Self)
        ensures
            res.spec_client_config() == (ClientConfig { retry_delay_ms: delay_ms, ..self.spec_client_config() }),
            res.spec_strategy_config() == self.spec_strategy_config(),
    {
        let mut b = self;
        b.client_config.retry_delay_ms = delay_ms;
        b
    }

    /// Enable or disable logging.
    pub fn enable_logging(self, enable: bool) -> (res: Self)
        ensures
            res.spec_client_config() == (ClientConfig { enable_logging: enable, ..self.spec_client_config() }),
            res.spec_strategy_config() == self.spec_strategy_config(),
    {
        let mut b = self;
        b.client_config.enable_logging = enable;
        b
    }

    /// Add a custom header.
    pub fn header<K: Into<String>, V: Into<String>>(self, key: K, value: V) -> (res: Self)
        ensures
            res.spec_client_config().custom_headers@.len() == self.spec_client_config().custom_headers@.len() + 1,
            res.spec_client_config().custom_headers@.drop_last() == self.spec_client_config().custom_headers@,
            call_ensures(<K as Into<String>>::into, (key,), res.spec_client_config().custom_headers@.last().0),
            call_ensures(<V as Into<String>>::into, (value,), res.spec_client_config().custom_headers@.last().1),
            res.spec_client_config().user_agent == self.spec_client_config().user_agent,
            res.spec_client_config().timeout_seconds == self.spec_client_config().timeout_seconds,
            res.spec_client_config().max_retries == self.spec_client_config().max_retries,
            res.spec_client_config().retry_delay_ms == self.spec_client_config().retry_delay_ms,
            res.spec_client_config().enable_logging == self.spec_client_config().enable_logging,
            res.spec_strategy_config() == self.spec_strategy_config(),
    {
        let mut b = self;
        let k: String = key.into();
        let v: String = value.into();
        b.client_config.custom_headers.push((k, v));
        b
    }

    /// Set the random delay range for rate limiting.
    pub fn random_delay(self, min_ms: u64, max_ms: u64) -> (res: Self)
        ensures
            res.spec_client_config() == self.spec_client_config(),
            res.spec_strategy_config().random_delay_range == (min_ms, max_ms),
    {
        let mut b = self;
        b.strategy_config.random_delay_range = (min_ms, max_ms);
        b
    }

    /// The configurations a client is built from.
    pub fn into_configs(self) -> (res: (ClientConfig, StrategyConfig))
        ensures
            res == (self.spec_client_config(), self.spec_strategy_config()),
    {
        (self.client_config, self.strategy_config)
    }
}

impl Default for KickApiClientBuilder {
    fn default() -> (res: Self)
        ensures
            res.spec_client_config().timeout_seconds == 30,
            res.spec_client_config().max_retries == 3,
            res.spec_client_config().retry_delay_ms == 1000,
            res.spec_strategy_config().random_delay_range == (100u64, 500u64),
    {
        Self::new()
    }
}

#[verifier::external_type_specification]
#[verifier::external_body]
pub struct ExInstant(std::time::Instant);

/// The current instant of the monotonic clock, `Instant::now()`.
#[verifier::external_body]
fn instant_now() -> (res: std::time::Instant) {
    std::time::Instant::now()
}

/// The nanoseconds elapsed since `start`, `start.elapsed().as_nanos()`.
#[verifier::external_body]
fn nanos_since(start: &std::time::Instant) -> (res: u128) {
    start.elapsed().as_nanos()
}

/// Cached channel information with the time it was stored.
pub struct CachedChannel {
    channel: ChannelInfo,
    timestamp: std::time::Instant,
    ttl_nanos: u128,
}

impl CachedChannel {
    /// The cached channel.
    pub closed spec fn spec_channel(&self) -> ChannelInfo {
        self.channel
    }

    /// The cached channel.
    pub fn channel(&self) -> (res: &ChannelInfo)
        ensures
            *res == self.spec_channel(),
    {
        &self.channel
    }

    /// How long the entry stays fresh, in nanoseconds.
    pub closed spec fn spec_ttl_nanos(&self) -> u128 {
        self.ttl_nanos
    }

    /// Caches `channel` now, fresh for `ttl_ms` milliseconds.
    pub fn new(channel: ChannelInfo, ttl_ms: u64) -> (res: Self)
        ensures
            res.spec_channel() == channel,
            res.spec_ttl_nanos() == ttl_ms * 1_000_000,
    {
        let ttl_nanos: u128 = (ttl_ms as u128) * 1_000_000;
        CachedChannel { channel, timestamp: instant_now(), ttl_nanos }
    }

    /// Whether an entry that was stored `elapsed_nanos` ago has expired: it
    /// has once strictly more than its time to live has passed.
    pub fn is_expired_after(&self, elapsed_nanos: u128) -> (res: bool)
        ensures
            res == (elapsed_nanos > self.spec_ttl_nanos()),
    {
        elapsed_nanos > self.ttl_nanos
    }

    /// Whether the entry has expired by the monotonic clock: the answer of
    /// `is_expired_after` for the time the clock reports as elapsed.
    pub fn is_expired(&self) -> (res: bool) {
        let elapsed = nanos_since(&self.timestamp);
        self.is_expired_after(elapsed)
    }
}

/// What the client does next while fetching a channel.
#[derive(Debug)]
pub enum RetryStep {
    /// Make the numbered attempt.
    Fetch(u32),
    /// Wait this many milliseconds, then continue.
    Wait(u64),
    /// Stop with this result.
    Done(Result<ChannelInfo, FetchError>),
}

/// The retry schedule of a channel fetch: up to `max_retries` attempts, with
/// a growing delay after each failure that may be retried.
pub struct RetryLoop {
    pub max_retries: u32,
    pub retry_delay_ms: u64,
    /// The number of the attempt made last (0 before the first).
    pub attempt: u32,
    pub channel_name: String,
}

/// Errors after which fetching a channel is not retried.
pub open spec fn is_final_error(e: FetchError) -> bool {
    e is ChannelNotFound || e is AuthenticationRequired
}

/// Law: fetching a channel stops at once only when the channel is not found
/// or authentication is required; every other error (network, HTTP, JSON,
/// rate limit, invalid response, timeout) is retried while attempts remain.
pub proof fn law_only_missing_channel_and_authentication_stop_retries(m: String)
    ensures
        is_final_error(FetchError::ChannelNotFound(m)),
        is_final_error(FetchError::AuthenticationRequired),
        !is_final_error(FetchError::Network(m)),
        !is_final_error(FetchError::Http(m)),
        !is_final_error(FetchError::Json(m)),
        !is_final_error(FetchError::RateLimit),
        !is_final_error(FetchError::InvalidResponse),
        !is_final_error(FetchError::Timeout),
{
}

impl RetryLoop {
    /// A schedule for fetching `channel_name` with the retry settings of `config`.
    pub fn new(config: &ClientConfig, channel_name: &str) -> (res: Self)
        ensures
            res.max_retries == config.max_retries,
            res.retry_delay_ms == config.retry_delay_ms,
            res.attempt == 0,
            res.channel_name@ == channel_name@,
    {
        RetryLoop {
            max_retries: config.max_retries,
            retry_delay_ms: config.retry_delay_ms,
            attempt: 0,
            channel_name: String::from_str(channel_name),
        }
    }

    /// The first step: the first attempt, or, when no attempt is allowed, the
    /// error that all retries failed.
    pub fn start(&mut self) -> (res: RetryStep)
        requires
            old(self).attempt == 0,
        ensures
            final(self).max_retries == old(self).max_retries,
            final(self).retry_delay_ms == old(self).retry_delay_ms,
            final(self).channel_name == old(self).channel_name,
            old(self).max_retries == 0 ==> final(self).attempt == 0 && (res matches RetryStep::Done(Err(
                FetchError::ChannelNotFound(m),
            )) && m@ == "All retries failed for channel: "@ + old(self).channel_name@),
            old(self).max_retries > 0 ==> final(self).attempt == 1 && res == RetryStep::Fetch(1),
    {
        if self.max_retries == 0 {
            return RetryStep::Done(
                Err(FetchError::ChannelNotFound(prefixed("All retries failed for channel: ", self.channel_name.as_str()))),
            );
        }
        self.attempt = 1;
        RetryStep::Fetch(1)
    }

    /// The step after the outcome of the last attempt: a channel is returned
    /// at once; a final error, or any error on the last allowed attempt, is
    /// returned; otherwise wait `retry_delay_ms` times the attempt number.
    pub fn on_outcome(&mut self, outcome: Result<ChannelInfo, FetchError>) -> (res: RetryStep)
        requires
            1 <= old(self).attempt <= old(self).max_retries,
            old(self).attempt < old(self).max_retries ==> old(self).retry_delay_ms * old(self).attempt <= u64::MAX,
        ensures
            *final(self) == *old(self),
            (outcome matches Err(e) && !(e is ChannelNotFound) && !(e is AuthenticationRequired) && old(self).attempt
                < old(self).max_retries) ==> res == RetryStep::Wait((old(self).retry_delay_ms * old(self).attempt) as u64),
            match outcome {
                Ok(c) => res == RetryStep::Done(Ok::<ChannelInfo, FetchError>(c)),
                Err(e) => if is_final_error(e) || old(self).attempt == old(self).max_retries {
                    res == RetryStep::Done(Err::<ChannelInfo, FetchError>(e))
                } else {
                    res == RetryStep::Wait((old(self).retry_delay_ms * old(self).attempt) as u64)
                },
            },
    {
        match outcome {
            Ok(c) => RetryStep::Done(Ok(c)),
            Err(e) => {
                let stop = match &e {
                    FetchError::ChannelNotFound(_) => true,
                    FetchError::AuthenticationRequired => true,
                    _ => false,
                };
                if stop || self.attempt == self.max_retries {
                    RetryStep::Done(Err(e))
                } else {
                    RetryStep::Wait(self.retry_delay_ms * (self.attempt as u64))
                }
            },
        }
    }

    /// The step after a wait: the next attempt.
    pub fn after_wait(&mut self) -> (res: RetryStep)
        requires
            1 <= old(self).attempt < old(self).max_retries,
        ensures
            final(self).attempt == old(self).attempt + 1,
            final(self).max_retries == old(self).max_retries,
            final(self).retry_delay_ms == old(self).retry_delay_ms,
            final(self).channel_name == old(self).channel_name,
            res == RetryStep::Fetch(final(self).attempt),
            final(self).attempt <= final(self).max_retries,
    {
        self.attempt = self.attempt + 1;
        RetryStep::Fetch(self.attempt)
    }
}

/// The chatroom id of a fetched channel, needed to subscribe to its chat.
pub fn chatroom_id_of(channel: &ChannelInfo) -> (res: Result<u64, FetchError>)
    ensures
        match channel.chatroom {
            Some(c) => res == Ok::<u64, FetchError>(c.id),
            None => res matches Err(FetchError::InvalidResponse),
        },
{
    match &channel.chatroom {
        Some(c) => Ok(c.id),
        None => Err(FetchError::InvalidResponse),
    }
}

/// Whether a channel exists, from the outcome of fetching it: a channel means
/// yes, `ChannelNotFound` means no, other errors are passed on.
pub fn existence_of(outcome: Result<ChannelInfo, FetchError>) -> (res: Result<bool, FetchError>)
    ensures
        match outcome {
            Ok(_) => res == Ok::<bool, FetchError>(true),
            Err(FetchError::ChannelNotFound(_)) => res == Ok::<bool, FetchError>(false),
            Err(e) => res == Err::<bool, FetchError>(e),
        },
{
    match outcome {
        Ok(_) => Ok(true),
        Err(FetchError::ChannelNotFound(_)) => Ok(false),
        Err(e) => Err(e),
    }
}

/// The User-Agent the HTTP client is built with when the configuration
/// names none.
pub open spec fn fallback_http_user_agent() -> Seq<char> {
    "Mozilla/5.0 (Windows NT 10.0; Win64; x64) AppleWebKit/537.36 (KHTML, like Gecko) Chrome/120.0.0.0 Safari/537.36"@
}

/// The User-Agent the HTTP client is built with: the configured one, else
/// a Chrome 120 User-Agent.
pub fn http_user_agent(config: &ClientConfig) -> (res: String)
    ensures
        res@ == match config.user_agent {
            Some(u) => u@,
            None => fallback_http_user_agent(),
        },
{
    match &config.user_agent {
        Some(u) => u.clone(),
        None => String::from_str(
            "Mozilla/5.0 (Windows NT 10.0; Win64; x64) AppleWebKit/537.36 (KHTML, like Gecko) Chrome/120.0.0.0 Safari/537.36",
        ),
    }
}

} // verus!

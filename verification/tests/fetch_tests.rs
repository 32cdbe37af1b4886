use std::io::Write;

use kick_rust::fetch::client::{
    chatroom_id_of, existence_of, http_user_agent, CachedChannel, KickApiClientBuilder, RetryLoop,
    RetryStep,
};
use kick_rust::fetch::parsers::{HtmlParser, JsonParser};
use kick_rust::fetch::strategies::{decompress_brotli, decompress_gzip, CurlStrategy, StrategyRun, StrategyStep};
use kick_rust::fetch::types::{
    ChannelInfo, ChatroomInfo, ClientConfig, FetchError, FetchMetrics, RequestContext, StrategyConfig,
};
use kick_rust::types::KickError;

fn sample_channel(chatroom: Option<ChatroomInfo>) -> ChannelInfo {
    ChannelInfo {
        id: 12345,
        slug: "test".to_string(),
        title: Some("Test".to_string()),
        followers_count: None,
        subscribers_count: None,
        is_live: false,
        viewers_count: None,
        category: None,
        tags: None,
        language: None,
        user: None,
        chatroom,
    }
}

#[test]
fn test_curl_strategy() {
    let strategy = CurlStrategy::new();
    assert_eq!(strategy.name(), "curl");

    let config = StrategyConfig::default();
    assert!(strategy.is_enabled(&config));
}

#[test]
fn test_json_parser_valid_response() {
    let json = r#"
        {
            "id": 12345,
            "slug": "testchannel",
            "title": "Test Channel",
            "is_live": true,
            "viewers_count": 100,
            "user": {
                "id": 12345,
                "username": "testuser",
                "display_name": "Test User"
            },
            "chatroom": {
                "id": 54321,
                "channel_id": 12345,
                "name": "testchannel"
            }
        }
        "#;

    let result = JsonParser::parse_channel_response(json);
    assert!(result.is_ok());

    let channel = result.unwrap();
    assert_eq!(channel.id, 12345);
    assert_eq!(channel.slug, "testchannel");
    assert_eq!(channel.title, Some("Test Channel".to_string()));
    assert!(channel.is_live);
    assert_eq!(channel.viewers_count, Some(100));
}

#[test]
fn test_extract_channel_id() {
    let json = r#"{"id": 12345, "slug": "test"}"#;
    assert_eq!(JsonParser::extract_channel_id(json).unwrap(), 12345);

    let json = r#"{"data": {"id": 67890, "slug": "test"}}"#;
    assert_eq!(JsonParser::extract_channel_id(json).unwrap(), 67890);
}

#[test]
fn test_error_conversion() {
    let fetch_error = FetchError::ChannelNotFound("test".to_string());
    let kick_error: KickError = fetch_error.into();
    assert!(matches!(kick_error, KickError::ChannelNotFound(_)));
}

#[test]
fn every_fetch_error_converts() {
    let k: KickError = FetchError::Json("bad".to_string()).into();
    assert!(matches!(k, KickError::NetworkError(m) if m == "JSON error: bad"));
    let k: KickError = FetchError::RateLimit.into();
    assert!(matches!(k, KickError::NetworkError(m) if m == "Rate limit exceeded"));
    let k: KickError = FetchError::InvalidResponse.into();
    assert!(matches!(k, KickError::InvalidMessage(m) if m == "Invalid response format"));
    let k: KickError = FetchError::AuthenticationRequired.into();
    assert!(matches!(k, KickError::Connection(m) if m == "Authentication required"));
    let k: KickError = FetchError::Timeout.into();
    assert!(matches!(k, KickError::NetworkError(m) if m == "Request timeout"));
    let k: KickError = FetchError::Http("500".to_string()).into();
    assert!(matches!(k, KickError::NetworkError(m) if m == "HTTP error: 500"));
    assert_eq!(FetchError::RateLimit.message(), "Rate limit exceeded");
    assert_eq!(FetchError::ChannelNotFound("x".to_string()).message(), "Channel not found: x");
}

#[test]
fn test_cached_channel() {
    let channel = sample_channel(None);
    let cached = CachedChannel::new(channel.clone(), 60_000);
    assert!(!cached.is_expired());
    assert_eq!(cached.channel().id, 12345);

    let short = CachedChannel::new(channel, 1);
    assert!(!short.is_expired_after(1_000_000));
    assert!(short.is_expired_after(10_000_000));
    let start = std::time::Instant::now();
    while start.elapsed() < std::time::Duration::from_millis(10) {}
    assert!(short.is_expired());
}

#[test]
fn test_client_builder() {
    let (client, strategy) = KickApiClientBuilder::new()
        .timeout(60)
        .max_retries(5)
        .retry_delay(250)
        .enable_logging(true)
        .user_agent("UA/1")
        .header("X-Test", "1")
        .random_delay(10, 20)
        .into_configs();
    assert_eq!(client.timeout_seconds, 60);
    assert_eq!(client.max_retries, 5);
    assert_eq!(client.retry_delay_ms, 250);
    assert!(client.enable_logging);
    assert_eq!(client.user_agent, Some("UA/1".to_string()));
    assert_eq!(client.custom_headers, vec![("X-Test".to_string(), "1".to_string())]);
    assert_eq!(strategy.random_delay_range, (10, 20));
}

#[test]
fn test_metrics() {
    let mut metrics = FetchMetrics::default();
    assert_eq!(metrics.total_requests, 0);
    metrics.record_success();
    metrics.record_failure();
    metrics.record_failure();
    assert_eq!(metrics.total_requests, 3);
    assert_eq!(metrics.successful_requests, 1);
    assert_eq!(metrics.failed_requests, 2);
}

#[test]
fn http_user_agent_falls_back_to_chrome_120() {
    let mut config = ClientConfig::default();
    assert_eq!(http_user_agent(&config), kick_rust::fetch::useragent::get_latest_chrome_user_agent());
    config.user_agent = None;
    assert!(http_user_agent(&config).contains("Chrome/120.0.0.0"));
}

#[test]
fn request_context_starts_at_first_attempt() {
    let c = RequestContext::new("xqc", "auto");
    assert_eq!(c.channel_name, "xqc");
    assert_eq!(c.strategy, "auto");
    assert_eq!(c.attempt, 1);
    assert_eq!(c.user_agent, "unknown");
    assert!(c.timestamp > 0);
}

#[test]
fn retry_loop_waits_longer_each_time_then_gives_up() {
    let mut config = ClientConfig::default();
    config.max_retries = 3;
    config.retry_delay_ms = 100;
    let mut r = RetryLoop::new(&config, "chan");
    assert!(matches!(r.start(), RetryStep::Fetch(1)));
    assert!(matches!(r.on_outcome(Err(FetchError::Timeout)), RetryStep::Wait(100)));
    assert!(matches!(r.after_wait(), RetryStep::Fetch(2)));
    assert!(matches!(r.on_outcome(Err(FetchError::RateLimit)), RetryStep::Wait(200)));
    assert!(matches!(r.after_wait(), RetryStep::Fetch(3)));
    assert!(matches!(r.on_outcome(Err(FetchError::Timeout)), RetryStep::Done(Err(FetchError::Timeout))));
}

#[test]
fn retry_loop_stops_on_final_errors_and_success() {
    let config = ClientConfig::default();
    let mut r = RetryLoop::new(&config, "chan");
    r.start();
    assert!(matches!(
        r.on_outcome(Err(FetchError::ChannelNotFound("chan".to_string()))),
        RetryStep::Done(Err(FetchError::ChannelNotFound(_)))
    ));
    assert!(matches!(r.on_outcome(Err(FetchError::AuthenticationRequired)), RetryStep::Done(Err(_))));
    assert!(matches!(r.on_outcome(Ok(sample_channel(None))), RetryStep::Done(Ok(c)) if c.id == 12345));

    let mut none = ClientConfig::default();
    none.max_retries = 0;
    let mut r = RetryLoop::new(&none, "chan");
    assert!(matches!(
        r.start(),
        RetryStep::Done(Err(FetchError::ChannelNotFound(m))) if m == "All retries failed for channel: chan"
    ));
}

#[test]
fn strategy_run_tries_enabled_strategies_in_order() {
    let mut run = StrategyRun::new(vec![false, true, true], "chan");
    assert!(matches!(run.advance(), StrategyStep::Try(1)));
    assert!(matches!(run.on_outcome(Err(FetchError::Timeout)), StrategyStep::Wait(500)));
    assert!(matches!(run.advance(), StrategyStep::Try(2)));
    assert!(matches!(run.on_outcome(Err(FetchError::RateLimit)), StrategyStep::Wait(500)));
    assert!(matches!(run.advance(), StrategyStep::Done(Err(FetchError::RateLimit))));

    let mut run = StrategyRun::new(vec![true], "chan");
    assert!(matches!(run.advance(), StrategyStep::Try(0)));
    assert!(matches!(run.on_outcome(Ok(sample_channel(None))), StrategyStep::Done(Ok(_))));

    let mut empty = StrategyRun::new(vec![false], "chan");
    assert!(matches!(
        empty.advance(),
        StrategyStep::Done(Err(FetchError::ChannelNotFound(m))) if m == "No strategies succeeded for channel: chan"
    ));
}

#[test]
fn chatroom_and_existence() {
    let room = ChatroomInfo { id: 9, channel_id: 12345, name: "r".to_string(), chatroom_type: None, slow_mode: None };
    assert_eq!(chatroom_id_of(&sample_channel(Some(room))).unwrap(), 9);
    assert!(matches!(chatroom_id_of(&sample_channel(None)), Err(FetchError::InvalidResponse)));
    assert!(existence_of(Ok(sample_channel(None))).unwrap());
    assert!(!existence_of(Err(FetchError::ChannelNotFound("x".to_string()))).unwrap());
    assert!(matches!(existence_of(Err(FetchError::Timeout)), Err(FetchError::Timeout)));
}

#[test]
fn parse_channel_response_variants() {
    let wrapped = r#"{"data": {"id": 5, "slug": "s", "tags": ["a", 1, "b"], "user": {"id": 2}}}"#;
    let c = JsonParser::parse_channel_response(wrapped).unwrap();
    assert_eq!(c.id, 5);
    assert_eq!(c.tags, Some(vec!["a".to_string(), "b".to_string()]));
    assert_eq!(c.user.unwrap().username, "");
    assert!(!c.is_live);
    assert!(matches!(JsonParser::parse_channel_response(r#"{"slug": "s"}"#), Err(FetchError::InvalidResponse)));
    assert!(matches!(
        JsonParser::parse_channel_response(r#"{"id": 5, "user": {"username": "u"}}"#),
        Err(FetchError::InvalidResponse)
    ));
    assert!(matches!(
        JsonParser::parse_channel_response("not json"),
        Err(FetchError::Json(m)) if m.starts_with("Failed to parse JSON: ")
    ));
}

#[test]
fn extract_channel_id_fallbacks() {
    assert_eq!(JsonParser::extract_channel_id(r#"{"channel": {"id": 3}}"#).unwrap(), 3);
    assert!(matches!(JsonParser::extract_channel_id(r#"{"id": "7"}"#), Err(FetchError::InvalidResponse)));
    assert!(matches!(JsonParser::extract_channel_id("[1"), Err(FetchError::Json(_))));
}

#[test]
fn html_parser_patterns() {
    // The Nuxt-state pattern opens a group with `{`, which the regex crate
    // refuses, so the full parser cannot be built.
    assert!(matches!(
        HtmlParser::new(),
        Err(FetchError::Json(m)) if m.starts_with("Failed to compile JSON regex: ")
    ));
    // The fallback parser's channel pattern has no slug group, so no channel
    // is ever found by it.
    let parser = HtmlParser::default();
    let html = r#""id":42,"slug":"abc""#;
    assert!(matches!(
        parser.parse_channel_from_html(html),
        Err(FetchError::ChannelNotFound(m)) if m == "Could not extract channel ID"
    ));
    assert!(matches!(
        parser.parse_channel_from_html("<html></html>"),
        Err(FetchError::ChannelNotFound(m)) if m == "Could not extract channel ID"
    ));
}

#[test]
fn response_text_by_status() {
    let s = CurlStrategy::new();
    assert_eq!(s.response_text(200, b"{\"id\":1}".to_vec()).unwrap(), "{\"id\":1}");
    assert!(matches!(s.response_text(404, vec![]), Err(FetchError::ChannelNotFound(m)) if m == "Channel not found"));
    assert!(matches!(s.response_text(429, vec![]), Err(FetchError::RateLimit)));
    assert!(matches!(s.response_text(503, b"down".to_vec()), Err(FetchError::Http(m)) if m == "HTTP 503: down"));
    assert!(matches!(s.response_text(200, vec![0xff, 0xfe]), Err(FetchError::Network(m)) if m.starts_with("Invalid UTF-8 response: ")));
    assert_eq!(CurlStrategy::channel_api_url("xqc"), "https://kick.com/api/v2/channels/xqc");
}

#[test]
fn gzip_bodies_are_decompressed() {
    let mut enc = flate2::write::GzEncoder::new(Vec::new(), flate2::Compression::default());
    enc.write_all(b"{\"id\":2}").unwrap();
    let gz = enc.finish().unwrap();
    assert_eq!(decompress_gzip(&gz).unwrap(), b"{\"id\":2}".to_vec());
    let s = CurlStrategy::new();
    assert_eq!(s.response_text(200, gz).unwrap(), "{\"id\":2}");
    assert!(matches!(decompress_gzip(&[0x1f, 0x8b, 0, 1]), Err(FetchError::Network(_))));
}

#[test]
fn brotli_bodies_are_decompressed() {
    let mut out = Vec::new();
    {
        let mut w = brotli::CompressorWriter::new(&mut out, 4096, 5, 22);
        w.write_all(b"{\"id\":3}").unwrap();
    }
    assert_eq!(decompress_brotli(&out).unwrap(), b"{\"id\":3}".to_vec());
}

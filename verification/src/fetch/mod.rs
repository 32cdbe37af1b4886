//! Fetching channel data from the Kick API: the response parsers, the retry
//! and cache decisions, the metrics and the browser-like request headers.

pub mod client;
pub mod parsers;
pub mod strategies;
pub mod types;
pub mod useragent;

//! The curl fetching strategy: what it makes of a response.

use vstd::prelude::*;
use std::io::Read;
use vstd::utf8::{valid_utf8, decode_utf8};
use crate::fetch::parsers::JsonParser;
use crate::fetch::types::{ChannelInfo, FetchError, StrategyConfig};
use crate::text::{decimal, u64_to_decimal};
use crate::types::prefixed;

verus! {

/// Curl-based strategy for better Cloudflare compatibility.
pub struct CurlStrategy {
    _parser: JsonParser,
}

impl CurlStrategy {
    /// Create the strategy.
    pub fn new() -> (res: Self) {
        CurlStrategy { _parser: JsonParser }
    }

    /// The name of this strategy.
    pub fn name(&self) -> (res: &'static str)
        ensures
            res@ == "curl"@,
    {
        "curl"
    }

    /// Whether this strategy is enabled: always.
    pub fn is_enabled(&self, _config: &StrategyConfig) -> (res: bool)
        ensures
            res,
    {
        true
    }
}

/// What gzip decoding of `data` gives: the decoded bytes, or the text of the
/// I/O error the decoder reports.
pub uninterp spec fn gzip_decoded(data: Seq<u8>) -> Result<Seq<u8>, Seq<char>>;

/// What brotli decoding of `data` gives: the decoded bytes, or the text of the
/// I/O error the decoder reports.
pub uninterp spec fn brotli_decoded(data: Seq<u8>) -> Result<Seq<u8>, Seq<char>>;

/// The text of the error `String::from_utf8` reports for `data`.
pub uninterp spec fn utf8_error_text(data: Seq<u8>) -> Seq<char>;

/// Reads `data` to its end through `flate2::read::GzDecoder`.
#[verifier::external_body]
fn gunzip(data: &[u8]) -> (res: Result<Vec<u8>, String>)
    ensures
        match res {
            Ok(v) => gzip_decoded(data@) == Ok::<Seq<u8>, Seq<char>>(v@),
            Err(e) => gzip_decoded(data@) == Err::<Seq<u8>, Seq<char>>(e@),
        },
{
    let mut out = Vec::new();
    match flate2::read::GzDecoder::new(data).read_to_end(&mut out) {
        Ok(_) => Ok(out),
        Err(e) => Err(e.to_string()),
    }
}

/// Reads `data` to its end through `brotli::Decompressor` with a buffer of
/// 4096 bytes.
#[verifier::external_body]
fn unbrotli(data: &[u8]) -> (res: Result<Vec<u8>, String>)
    ensures
        match res {
            Ok(v) => brotli_decoded(data@) == Ok::<Seq<u8>, Seq<char>>(v@),
            Err(e) => brotli_decoded(data@) == Err::<Seq<u8>, Seq<char>>(e@),
        },
{
    let mut out = Vec::new();
    match brotli::Decompressor::new(data, 4096).read_to_end(&mut out) {
        Ok(_) => Ok(out),
        Err(e) => Err(e.to_string()),
    }
}

/// `String::from_utf8`: the text `data` encodes when it is valid UTF-8, else
/// the text of the error.
#[verifier::external_body]
fn utf8_text(data: Vec<u8>) -> (res: Result<String, String>)
    ensures
        match res {
            Ok(s) => valid_utf8(data@) && s@ == decode_utf8(data@),
            Err(e) => !valid_utf8(data@) && e@ == utf8_error_text(data@),
        },
{
    match String::from_utf8(data) {
        Ok(s) => Ok(s),
        Err(e) => Err(e.to_string()),
    }
}

/// Decompresses gzip data.
pub fn decompress_gzip(data: &[u8]) -> (res: Result<Vec<u8>, FetchError>)
    ensures
        match gzip_decoded(data@) {
            Ok(v) => res matches Ok(r) && r@ == v,
            Err(t) => res matches Err(FetchError::Network(m)) && m@ == "Gzip decompression failed: "@ + t,
        },
{
    match gunzip(data) {
        Ok(v) => Ok(v),
        Err(t) => Err(FetchError::Network(prefixed("Gzip decompression failed: ", t.as_str()))),
    }
}

/// Decompresses brotli data.
pub fn decompress_brotli(data: &[u8]) -> (res: Result<Vec<u8>, FetchError>)
    ensures
        match brotli_decoded(data@) {
            Ok(v) => res matches Ok(r) && r@ == v,
            Err(t) => res matches Err(FetchError::Network(m)) && m@ == "Brotli decompression failed: "@ + t,
        },
{
    match unbrotli(data) {
        Ok(v) => Ok(v),
        Err(t) => Err(FetchError::Network(prefixed("Brotli decompression failed: ", t.as_str()))),
    }
}

/// The bytes that open a gzip stream.
pub open spec fn has_gzip_magic(data: Seq<u8>) -> bool {
    data.len() >= 2 && data[0] == 0x1f && data[1] == 0x8b
}

/// The bytes that open a brotli stream, as the client recognises them.
pub open spec fn has_brotli_magic(data: Seq<u8>) -> bool {
    data.len() >= 6 && data.subrange(0, 6) == seq![0x8bu8, 0x02u8, 0x80u8, 0x00u8, 0x00u8, 0x00u8]
}

/// The body of a response once any compression is undone: by the magic
/// bytes when they are there, else gzip if that decodes, else brotli if that
/// decodes, else the bytes as they came; or the message of the failure.
pub open spec fn spec_decompress(data: Seq<u8>) -> Result<Seq<u8>, Seq<char>> {
    if has_gzip_magic(data) {
        match gzip_decoded(data) {
            Ok(v) => Ok(v),
            Err(t) => Err("Gzip decompression failed: "@ + t),
        }
    } else if has_brotli_magic(data) {
        match brotli_decoded(data) {
            Ok(v) => Ok(v),
            Err(t) => Err("Brotli decompression failed: "@ + t),
        }
    } else {
        match gzip_decoded(data) {
            Ok(v) => Ok(v),
            Err(_) => match brotli_decoded(data) {
                Ok(v) => Ok(v),
                Err(_) => Ok(data),
            },
        }
    }
}

impl CurlStrategy {
    /// Undoes the compression of a response body, if any.
    pub fn try_decompress(&self, data: &[u8]) -> (res: Result<Vec<u8>, FetchError>)
        ensures
            match spec_decompress(data@) {
                Ok(v) => res matches Ok(r) && r@ == v,
                Err(m) => res matches Err(FetchError::Network(e)) && e@ == m,
            },
    {
        if data.len() >= 2 {
            if data[0] == 0x1f && data[1] == 0x8b {
                return decompress_gzip(data);
            }
            if data.len() >= 6 && data[0] == 0x8b && data[1] == 0x02 && data[2] == 0x80 && data[3] == 0x00
                && data[4] == 0x00 && data[5] == 0x00 {
                assert(data@.subrange(0, 6) =~= seq![0x8bu8, 0x02u8, 0x80u8, 0x00u8, 0x00u8, 0x00u8]);
                return decompress_brotli(data);
            }
            if data.len() >= 6 {
                assert(!has_brotli_magic(data@)) by {
                    if has_brotli_magic(data@) {
                        assert(data@.subrange(0, 6)[0] == data@[0]);
                        assert(data@.subrange(0, 6)[1] == data@[1]);
                        assert(data@.subrange(0, 6)[2] == data@[2]);
                        assert(data@.subrange(0, 6)[3] == data@[3]);
                        assert(data@.subrange(0, 6)[4] == data@[4]);
                        assert(data@.subrange(0, 6)[5] == data@[5]);
                    }
                }
            }
        }
        if let Ok(v) = decompress_gzip(data) {
            return Ok(v);
        }
        if let Ok(v) = decompress_brotli(data) {
            return Ok(v);
        }
        let mut raw: Vec<u8> = Vec::new();
        let mut i: usize = 0;
        while i < data.len()
            invariant
                i <= data@.len(),
                raw@ == data@.subrange(0, i as int),
            decreases data.len() - i,
        {
            raw.push(data[i]);
            i = i + 1;
            assert(raw@ =~= data@.subrange(0, i as int));
        }
        assert(raw@ =~= data@);
        Ok(raw)
    }

    /// The address of a channel in the Kick API.
    pub fn channel_api_url(channel_name: &str) -> (res: String)
        ensures
            res@ == "https://kick.com/api/v2/channels/"@ + channel_name@,
    {
        prefixed("https://kick.com/api/v2/channels/", channel_name)
    }

    /// The text of a response with status `code` and body `data`: the
    /// decompressed body for 200, `ChannelNotFound` for 404, `RateLimit` for
    /// 429, and an HTTP error with the status and body otherwise.
    pub fn response_text(&self, code: u32, data: Vec<u8>) -> (res: Result<String, FetchError>)
        ensures
            code == 200 ==> match spec_decompress(data@) {
                Ok(v) => if valid_utf8(v) {
                    res matches Ok(s) && s@ == decode_utf8(v)
                } else {
                    res matches Err(FetchError::Network(m)) && m@ == "Invalid UTF-8 response: "@ + utf8_error_text(v)
                },
                Err(m) => res matches Err(FetchError::Network(e)) && e@ == m,
            },
            code == 404 ==> (res matches Err(FetchError::ChannelNotFound(m)) && m@ == "Channel not found"@),
            code == 429 ==> res matches Err(FetchError::RateLimit),
            code != 200 && code != 404 && code != 429 ==> (res matches Err(FetchError::Http(m)) && m@ == "HTTP "@
                + decimal(code as nat) + ": "@ + if valid_utf8(data@) {
                decode_utf8(data@)
            } else {
                Seq::empty()
            }),
    {
        if code == 200 {
            let decompressed = self.try_decompress(data.as_slice())?;
            match utf8_text(decompressed) {
                Ok(s) => Ok(s),
                Err(t) => Err(FetchError::Network(prefixed("Invalid UTF-8 response: ", t.as_str()))),
            }
        } else if code == 404 {
            Err(FetchError::ChannelNotFound(String::from_str("Channel not found")))
        } else if code == 429 {
            Err(FetchError::RateLimit)
        } else {
            let body = match utf8_text(data) {
                Ok(s) => s,
                Err(_) => String::new(),
            };
            let code_text = u64_to_decimal(code as u64);
            Err(FetchError::Http(String::from_str("HTTP ").concat(code_text.as_str()).concat(": ").concat(body.as_str())))
        }
    }
}

/// What the strategy manager does next while fetching a channel.
#[derive(Debug)]
pub enum StrategyStep {
    /// Fetch the channel with the strategy at this position.
    Try(usize),
    /// Wait this many milliseconds, then advance.
    Wait(u64),
    /// Stop with this result.
    Done(Result<ChannelInfo, FetchError>),
}

/// The position of the first enabled strategy at `from` or after it.
pub open spec fn first_enabled(enabled: Seq<bool>, from: int) -> Option<int>
    decreases enabled.len() - from,
{
    if from < 0 || from >= enabled.len() {
        None
    } else if enabled[from] {
        Some(from)
    } else {
        first_enabled(enabled, from + 1)
    }
}

/// Law: `first_enabled` finds the first enabled strategy at `from` or after
/// it, and finds none exactly when none of those is enabled.
pub proof fn law_first_enabled_is_first(enabled: Seq<bool>, from: int)
    requires
        0 <= from,
    ensures
        match first_enabled(enabled, from) {
            Some(i) => from <= i < enabled.len() && enabled[i] && forall|j: int| from <= j < i ==> !enabled[j],
            None => forall|j: int| from <= j < enabled.len() ==> !enabled[j],
        },
    decreases enabled.len() - from,
{
    if from < enabled.len() && !enabled[from] {
        law_first_enabled_is_first(enabled, from + 1);
    }
}

/// A run of the strategy manager over its strategies, in order: each enabled
/// strategy is tried until one gives the channel, with a pause after each
/// failure.
pub struct StrategyRun {
    /// Whether each strategy is enabled, in the manager's order.
    pub enabled: Vec<bool>,
    /// The position from which the next strategy is looked for.
    pub next: usize,
    /// The error of the strategy that failed last.
    pub last_error: Option<FetchError>,
    pub channel_name: String,
}

impl StrategyRun {
    /// A run over strategies that are enabled as `enabled` says.
    pub fn new(enabled: Vec<bool>, channel_name: &str) -> (res: Self)
        ensures
            res.enabled@ == enabled@,
            res.next == 0,
            res.last_error is None,
            res.channel_name@ == channel_name@,
    {
        StrategyRun { enabled, next: 0, last_error: None, channel_name: String::from_str(channel_name) }
    }

    /// The next enabled strategy to try, or, when none is left, the error of
    /// the one that failed last (`ChannelNotFound` when none was tried).
    pub fn advance(&mut self) -> (res: StrategyStep)
        requires
            old(self).next <= old(self).enabled@.len(),
        ensures
            final(self).enabled@ == old(self).enabled@,
            final(self).channel_name == old(self).channel_name,
            final(self).next <= final(self).enabled@.len(),
            match first_enabled(old(self).enabled@, old(self).next as int) {
                Some(i) => res == StrategyStep::Try(i as usize) && final(self).next == i + 1
                    && final(self).last_error == old(self).last_error,
                None => final(self).next == old(self).next && final(self).last_error is None && match old(self).last_error {
                    Some(e) => res == StrategyStep::Done(Err::<ChannelInfo, FetchError>(e)),
                    None => res matches StrategyStep::Done(Err(FetchError::ChannelNotFound(m)))
                        && m@ == "No strategies succeeded for channel: "@ + old(self).channel_name@,
                },
            },
    {
        let mut i = self.next;
        while i < self.enabled.len()
            invariant
                old(self).next <= i <= self.enabled@.len(),
                self.enabled@ == old(self).enabled@,
                self.next == old(self).next,
                self.last_error == old(self).last_error,
                self.channel_name == old(self).channel_name,
                first_enabled(self.enabled@, old(self).next as int) == first_enabled(self.enabled@, i as int),
            decreases self.enabled.len() - i,
        {
            if self.enabled[i] {
                self.next = i + 1;
                return StrategyStep::Try(i);
            }
            i = i + 1;
        }
        match self.last_error.take() {
            Some(e) => StrategyStep::Done(Err(e)),
            None => StrategyStep::Done(
                Err(FetchError::ChannelNotFound(prefixed("No strategies succeeded for channel: ", self.channel_name.as_str()))),
            ),
        }
    }

    /// The step after the strategy tried last gave `outcome`: the channel is
    /// returned at once; an error is kept, and a pause follows.
    pub fn on_outcome(&mut self, outcome: Result<ChannelInfo, FetchError>) -> (res: StrategyStep)
        ensures
            final(self).enabled == old(self).enabled,
            final(self).next == old(self).next,
            final(self).channel_name == old(self).channel_name,
            match outcome {
                Ok(c) => res == StrategyStep::Done(Ok::<ChannelInfo, FetchError>(c)) && final(self).last_error
                    == old(self).last_error,
                Err(e) => res == StrategyStep::Wait(500) && final(self).last_error == Some(e),
            },
    {
        match outcome {
            Ok(c) => StrategyStep::Done(Ok(c)),
            Err(e) => {
                self.last_error = Some(e);
                StrategyStep::Wait(500)
            },
        }
    }
}

} // verus!

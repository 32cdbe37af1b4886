//! Types and data structures for Kick WebSocket events.

use vstd::prelude::*;
use crate::json::JsonValue;
use crate::fetch::types::FetchError;

verus! {

/// Connection state of the WebSocket.
#[derive(Debug, Clone, Copy, PartialEq, Eq, Structural)]
pub enum ConnectionState {
    Disconnected,
    Connecting,
    Connected,
    Reconnecting,
    Error,
}

/// Event types that can be received from the Kick WebSocket.
#[derive(Debug, Clone, Copy, PartialEq, Eq, Hash, Structural)]
pub enum KickEventType {
    ChatMessage,
    MessageDeleted,
    UserBanned,
    UserUnbanned,
    Subscription,
    GiftedSubscriptions,
    PinnedMessageCreated,
    StreamHost,
    PollUpdate,
    PollDelete,
}

/// Configuration options for the WebSocket connection.
#[derive(Debug, Clone)]
pub struct KickWebSocketOptions {
    pub debug: bool,
    pub auto_reconnect: bool,
    pub reconnect_interval: u64,
    pub enable_buffer: bool,
    pub buffer_size: usize,
    pub filtered_events: Vec<KickEventType>,
    pub custom_user_agent: Option<String>,
    pub rotate_user_agent: bool,
}

impl Default for KickWebSocketOptions {
    fn default() -> (res: Self)
        ensures
            !res.debug,
            res.auto_reconnect,
            res.reconnect_interval == 5000,
            !res.enable_buffer,
            res.buffer_size == 1000,
            res.filtered_events@.len() == 0,
            res.custom_user_agent is None,
            res.rotate_user_agent,
    {
        KickWebSocketOptions {
            debug: false,
            auto_reconnect: true,
            reconnect_interval: 5000,
            enable_buffer: false,
            buffer_size: 1000,
            filtered_events: Vec::new(),
            custom_user_agent: None,
            rotate_user_agent: true,
        }
    }
}

/// Statistics for the message buffer; timestamps are Unix milliseconds.
#[derive(Debug, Clone)]
pub struct BufferStats {
    pub total: usize,
    pub by_type: Vec<(String, usize)>,
    pub oldest_timestamp: Option<i64>,
    pub newest_timestamp: Option<i64>,
}

/// Kick channel information.
#[derive(Debug, Clone)]
pub struct KickChannel {
    pub id: u64,
    pub slug: String,
    pub user: KickUser,
    pub chatroom: KickChatroom,
}

/// Kick user information.
#[derive(Debug, Clone)]
pub struct KickUser {
    pub id: u64,
    pub username: String,
    pub display_name: Option<String>,
    pub avatar_url: Option<String>,
}

/// Chat message event.
#[derive(Debug, Clone)]
pub struct ChatMessageEvent {
    pub id: String,
    pub content: String,
    pub message_type: String,
    pub created_at: String,
    pub sender: KickUser,
    pub chatroom: KickChatroom,
}

/// Message deleted event.
#[derive(Debug, Clone)]
pub struct MessageDeletedEvent {
    pub message_id: String,
    pub chatroom_id: u64,
    pub event_type: String,
}

/// User banned event.
#[derive(Debug, Clone)]
pub struct UserBannedEvent {
    pub username: String,
    pub event_type: String,
}

/// User unbanned event.
#[derive(Debug, Clone)]
pub struct UserUnbannedEvent {
    pub username: String,
    pub event_type: String,
}

/// Subscription event.
#[derive(Debug, Clone)]
pub struct SubscriptionEvent {
    pub username: String,
    pub months: Option<u32>,
    pub event_type: String,
}

/// Gifted subscriptions event.
#[derive(Debug, Clone)]
pub struct GiftedSubscriptionsEvent {
    pub gifted_by: String,
    pub recipients: Vec<String>,
    pub event_type: String,
}

/// Pinned message created event.
#[derive(Debug, Clone)]
pub struct PinnedMessageCreatedEvent {
    pub message: ChatMessageEvent,
    pub event_type: String,
}

/// Stream host event.
#[derive(Debug, Clone)]
pub struct StreamHostEvent {
    pub hoster: String,
    pub hosted_channel: String,
    pub event_type: String,
}

/// Poll update event.
#[derive(Debug, Clone)]
pub struct PollUpdateEvent {
    pub poll_id: String,
    pub question: String,
    pub options: Vec<PollOption>,
    pub event_type: String,
}

/// Poll option.
#[derive(Debug, Clone)]
pub struct PollOption {
    pub id: String,
    pub text: String,
    pub votes: u32,
}

/// Poll delete event.
#[derive(Debug, Clone)]
pub struct PollDeleteEvent {
    pub poll_id: String,
    pub event_type: String,
}

/// Kick chatroom information.
#[derive(Debug, Clone)]
pub struct KickChatroom {
    pub id: u64,
    pub channel_id: u64,
    pub name: String,
}

/// Raw WebSocket message structure.
#[derive(Debug, Clone)]
pub struct WebSocketMessage {
    pub event: String,
    pub data: JsonValue,
    pub channel: Option<String>,
}

/// Raw chat message data.
#[derive(Debug, Clone)]
pub struct RawChatMessageData {
    pub id: String,
    pub content: String,
    pub message_type: String,
    pub created_at: String,
    pub sender: KickUser,
    pub chatroom: KickChatroom,
}

/// Raw message deleted data.
#[derive(Debug, Clone)]
pub struct RawMessageDeletedData {
    pub message_id: String,
    pub chatroom_id: u64,
}

/// A received frame: its event name, the compact JSON text of its data, and
/// the whole frame.
#[derive(Debug, Clone)]
pub struct RawMessage {
    pub event_type: String,
    pub data: String,
    pub raw_json: String,
}

/// Simple message structure for easy chat message handling.
#[derive(Debug, Clone)]
pub struct SimpleMessage {
    pub id: String,
    pub username: String,
    pub content: String,
    pub created_at: String,
}

impl SimpleMessage {
    /// The id, sender name, content and time of a chat message.
    pub fn from_chat_message(chat_msg: &ChatMessageEvent) -> (res: SimpleMessage)
        ensures
            res.id == chat_msg.id,
            res.username == chat_msg.sender.username,
            res.content == chat_msg.content,
            res.created_at == chat_msg.created_at,
    {
        SimpleMessage {
            id: chat_msg.id.clone(),
            username: chat_msg.sender.username.clone(),
            content: chat_msg.content.clone(),
            created_at: chat_msg.created_at.clone(),
        }
    }
}

/// Raw user banned data.
#[derive(Debug, Clone)]
pub struct RawUserBannedData {
    pub username: Option<String>,
    pub banned_username: Option<String>,
}

/// Raw user unbanned data.
#[derive(Debug, Clone)]
pub struct RawUserUnbannedData {
    pub username: Option<String>,
}

/// Raw subscription data.
#[derive(Debug, Clone)]
pub struct RawSubscriptionData {
    pub username: String,
    pub months: Option<u32>,
}

/// Raw gifted subscriptions data.
#[derive(Debug, Clone)]
pub struct RawGiftedSubscriptionsData {
    pub gifted_by: Option<String>,
    pub gifter: Option<JsonValue>,
    pub recipients: Vec<JsonValue>,
}

/// Raw pinned message created data.
#[derive(Debug, Clone)]
pub struct RawPinnedMessageCreatedData {
    pub message: RawChatMessageData,
}

/// Raw stream host data.
#[derive(Debug, Clone)]
pub struct RawStreamHostData {
    pub hoster: JsonValue,
    pub hosted_channel: JsonValue,
}

/// Raw poll update data.
#[derive(Debug, Clone)]
pub struct RawPollUpdateData {
    pub id: String,
    pub question: String,
    pub options: Vec<RawPollOption>,
}

/// Raw poll option.
#[derive(Debug, Clone)]
pub struct RawPollOption {
    pub id: String,
    pub text: String,
    pub votes: Option<u32>,
}

/// Raw poll delete data.
#[derive(Debug, Clone)]
pub struct RawPollDeleteData {
    pub id: String,
}

/// Event data for all possible event types.
#[derive(Debug, Clone)]
pub enum KickEventData {
    ChatMessage(ChatMessageEvent),
    MessageDeleted(MessageDeletedEvent),
    UserBanned(UserBannedEvent),
    UserUnbanned(UserUnbannedEvent),
    Subscription(SubscriptionEvent),
    GiftedSubscriptions(GiftedSubscriptionsEvent),
    PinnedMessageCreated(PinnedMessageCreatedEvent),
    StreamHost(StreamHostEvent),
    PollUpdate(PollUpdateEvent),
    PollDelete(PollDeleteEvent),
}

/// The event type that belongs to each kind of event data.
pub open spec fn data_event_type(data: KickEventData) -> KickEventType {
    match data {
        KickEventData::ChatMessage(_) => KickEventType::ChatMessage,
        KickEventData::MessageDeleted(_) => KickEventType::MessageDeleted,
        KickEventData::UserBanned(_) => KickEventType::UserBanned,
        KickEventData::UserUnbanned(_) => KickEventType::UserUnbanned,
        KickEventData::Subscription(_) => KickEventType::Subscription,
        KickEventData::GiftedSubscriptions(_) => KickEventType::GiftedSubscriptions,
        KickEventData::PinnedMessageCreated(_) => KickEventType::PinnedMessageCreated,
        KickEventData::StreamHost(_) => KickEventType::StreamHost,
        KickEventData::PollUpdate(_) => KickEventType::PollUpdate,
        KickEventData::PollDelete(_) => KickEventType::PollDelete,
    }
}

/// Parsed message with event type and data.
#[derive(Debug, Clone)]
pub struct ParsedMessage {
    pub event_type: KickEventType,
    pub data: KickEventData,
}

/// Error types for the WebSocket client. Errors of outside libraries are held
/// by the text they display.
#[derive(Debug, Clone)]
pub enum KickError {
    WebSocket(String),
    Json(String),
    Http(String),
    Fetch(FetchError),
    InvalidMessage(String),
    ChannelNotFound(String),
    Connection(String),
    UnknownEventType(String),
    UrlParse(String),
    NetworkError(String),
}

/// `prefix` followed by `s`.
pub fn prefixed(prefix: &str, s: &str) -> (res: String)
    ensures
        res@ == prefix@ + s@,
{
    String::from_str(prefix).concat(s)
}

impl KickError {
    /// The error's message, as the error displays itself.
    pub fn message(&self) -> (res: String)
        ensures
            res@ == match self {
                KickError::WebSocket(s) => "WebSocket error: "@ + s@,
                KickError::Json(s) => "JSON serialization/deserialization error: "@ + s@,
                KickError::Http(s) => "HTTP request error: "@ + s@,
                KickError::Fetch(e) => "Fetch error: "@ + e.spec_message(),
                KickError::InvalidMessage(s) => "Invalid message format: "@ + s@,
                KickError::ChannelNotFound(s) => "Channel not found: "@ + s@,
                KickError::Connection(s) => "Connection error: "@ + s@,
                KickError::UnknownEventType(s) => "Unknown event type: "@ + s@,
                KickError::UrlParse(s) => "URL parse error: "@ + s@,
                KickError::NetworkError(s) => "Network error: "@ + s@,
            },
    {
        match self {
            KickError::WebSocket(s) => prefixed("WebSocket error: ", s.as_str()),
            KickError::Json(s) => prefixed("JSON serialization/deserialization error: ", s.as_str()),
            KickError::Http(s) => prefixed("HTTP request error: ", s.as_str()),
            KickError::Fetch(e) => {
                let m = e.message();
                prefixed("Fetch error: ", m.as_str())
            },
            KickError::InvalidMessage(s) => prefixed("Invalid message format: ", s.as_str()),
            KickError::ChannelNotFound(s) => prefixed("Channel not found: ", s.as_str()),
            KickError::Connection(s) => prefixed("Connection error: ", s.as_str()),
            KickError::UnknownEventType(s) => prefixed("Unknown event type: ", s.as_str()),
            KickError::UrlParse(s) => prefixed("URL parse error: ", s.as_str()),
            KickError::NetworkError(s) => prefixed("Network error: ", s.as_str()),
        }
    }
}

/// How a fetch error is carried into a client error.
pub open spec fn fetch_error_conversion(error: FetchError, res: KickError) -> bool {
    match error {
        FetchError::Network(msg) => res == KickError::NetworkError(msg),
        FetchError::ChannelNotFound(name) => res == KickError::ChannelNotFound(name),
        FetchError::Json(msg) => res matches KickError::NetworkError(m) && m@ == "JSON error: "@ + msg@,
        FetchError::Http(msg) => res matches KickError::NetworkError(m) && m@ == "HTTP error: "@ + msg@,
        FetchError::RateLimit => res matches KickError::NetworkError(m) && m@ == "Rate limit exceeded"@,
        FetchError::InvalidResponse => res matches KickError::InvalidMessage(m) && m@ == "Invalid response format"@,
        FetchError::Timeout => res matches KickError::NetworkError(m) && m@ == "Request timeout"@,
        FetchError::AuthenticationRequired => res matches KickError::Connection(m) && m@ == "Authentication required"@,
    }
}

/// The conversion builds new message strings, which a spec function cannot
/// name exactly; `from` states `fetch_error_conversion` in its own `ensures`.
impl vstd::std_specs::convert::FromSpecImpl<FetchError> for KickError {
    open spec fn obeys_from_spec() -> bool {
        false
    }

    open spec fn from_spec(v: FetchError) -> KickError {
        choose|r: KickError| fetch_error_conversion(v, r)
    }
}

impl From<FetchError> for KickError {
    fn from(error: FetchError) -> (res: KickError)
        ensures
            fetch_error_conversion(error, res),
    {
        match error {
            FetchError::Network(msg) => KickError::NetworkError(msg),
            FetchError::ChannelNotFound(name) => KickError::ChannelNotFound(name),
            FetchError::Json(msg) => KickError::NetworkError(prefixed("JSON error: ", msg.as_str())),
            FetchError::Http(msg) => KickError::NetworkError(prefixed("HTTP error: ", msg.as_str())),
            FetchError::RateLimit => KickError::NetworkError(String::from_str("Rate limit exceeded")),
            FetchError::InvalidResponse => KickError::InvalidMessage(String::from_str("Invalid response format")),
            FetchError::Timeout => KickError::NetworkError(String::from_str("Request timeout")),
            FetchError::AuthenticationRequired => KickError::Connection(String::from_str("Authentication required")),
        }
    }
}

} // verus!

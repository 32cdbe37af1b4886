//! Kick.com chat events: parsing, event classification, buffering and the
//! pure decisions of the WebSocket and HTTP clients, with their contracts.

pub mod decode;
pub mod fetch;
pub mod json;
pub mod message_parser;
pub mod pattern;
pub mod text;
pub mod types;
pub mod websocket;

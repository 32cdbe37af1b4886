use kick_rust::fetch::useragent::get_rotating_user_agent;
use kick_rust::types::{ConnectionState, KickError, KickEventData, KickEventType, KickWebSocketOptions};
use kick_rust::websocket::{
    should_connect, websocket_request_headers, ConnectionSettings, IncomingFrame, MessageBuffer,
    PusherSession, SessionAction,
};

const CHAT: &str = r#"{"event":"App\\Events\\ChatMessageEvent","data":{"id":"1","content":"yo","type":"message","created_at":"t","sender":{"id":1,"username":"u"},"chatroom":{"id":2,"channel_id":3,"name":"n"}}}"#;
const DELETED: &str = r#"{"event":"App\\Events\\MessageDeletedEvent","data":{"message_id":"m","chatroom_id":2}}"#;

fn frame(event: &str) -> String {
    format!("{{\"event\":\"{}\",\"data\":{{}}}}", event)
}

#[test]
fn buffer_drops_oldest_when_full() {
    let mut b = MessageBuffer::new();
    for i in 0..5 {
        b.push(format!("m{}", i), 3);
    }
    assert_eq!(b.len(), 3);
    assert_eq!(b.export_raw_messages(), vec!["m2".to_string(), "m3".to_string(), "m4".to_string()]);
    assert_eq!(b.get_buffer_stats().total, 3);
}

#[test]
fn buffer_with_zero_capacity_keeps_the_newest() {
    let mut b = MessageBuffer::new();
    b.push("a".to_string(), 0);
    b.push("b".to_string(), 0);
    assert_eq!(b.export_raw_messages(), vec!["b".to_string()]);
}

#[test]
fn buffer_exports_by_type_and_range() {
    let mut b = MessageBuffer::new();
    b.push(CHAT.to_string(), 10);
    b.push(DELETED.to_string(), 10);
    b.push(frame("ChatMessage"), 10);
    b.push("not json".to_string(), 10);
    assert_eq!(b.export_raw_messages_by_event_type(KickEventType::ChatMessage), vec![CHAT.to_string()]);
    assert_eq!(b.export_raw_messages_by_event_type(KickEventType::MessageDeleted), vec![DELETED.to_string()]);
    assert_eq!(b.export_raw_messages_in_range(1, Some(3)), vec![DELETED.to_string(), frame("ChatMessage")]);
    assert_eq!(b.export_raw_messages_in_range(3, None), vec!["not json".to_string()]);
    assert_eq!(b.export_raw_messages_in_range(7, Some(9)), Vec::<String>::new());
}

#[test]
fn buffer_clears_frames_of_an_event_type() {
    let mut b = MessageBuffer::new();
    b.push(CHAT.to_string(), 10);
    b.push(frame("ChatMessage"), 10);
    b.push(DELETED.to_string(), 10);
    b.push(CHAT.to_string(), 10);
    assert!(b.clear_raw_messages_by_event_type(KickEventType::ChatMessage).is_ok());
    assert_eq!(b.export_raw_messages(), vec![frame("ChatMessage"), DELETED.to_string()]);
    assert!(b.export_raw_messages_by_event_type(KickEventType::ChatMessage).is_empty());
}

#[test]
fn session_handshake() {
    let options = KickWebSocketOptions::default();
    let mut buffer = MessageBuffer::new();
    let mut s = PusherSession::new(668);
    assert_eq!(
        s.subscription_message(),
        r#"{"data":{"auth":"","channel":"chatrooms.668.v2"},"event":"pusher:subscribe"}"#
    );

    let acts = s.handle_frame(IncomingFrame::Text(frame("pusher:connection_established")), &options, &mut buffer);
    assert_eq!(acts.len(), 1);
    assert!(matches!(&acts[0], SessionAction::SendText(t) if t.contains("chatrooms.668.v2")));
    assert!(s.connection_established);

    let acts = s.handle_frame(
        IncomingFrame::Text(frame("pusher_internal:subscription_succeeded")),
        &options,
        &mut buffer,
    );
    assert!(matches!(acts[0], SessionAction::SetState(ConnectionState::Connected)));
    assert!(matches!(acts[1], SessionAction::EmitReady));
    assert!(s.subscription_succeeded);

    // A second handshake frame is only handed to the raw handlers.
    let acts = s.handle_frame(IncomingFrame::Text(frame("pusher:connection_established")), &options, &mut buffer);
    assert_eq!(acts.len(), 1);
    assert!(matches!(&acts[0], SessionAction::EmitRaw(r) if r.event_type == "pusher:connection_established"));
}

#[test]
fn session_dispatches_and_buffers() {
    let mut options = KickWebSocketOptions::default();
    options.enable_buffer = true;
    options.buffer_size = 2;
    let mut buffer = MessageBuffer::new();
    let mut s = PusherSession::new(1);

    let acts = s.handle_frame(IncomingFrame::Text(CHAT.to_string()), &options, &mut buffer);
    assert_eq!(acts.len(), 2);
    match &acts[0] {
        SessionAction::EmitRaw(r) => {
            assert_eq!(r.event_type, "App\\Events\\ChatMessageEvent");
            assert_eq!(r.raw_json, CHAT);
            assert!(r.data.contains("\"content\":\"yo\""));
        }
        other => panic!("unexpected action {:?}", other),
    }
    assert!(matches!(&acts[1], SessionAction::Dispatch(KickEventData::ChatMessage(m)) if m.content == "yo"));
    assert_eq!(buffer.len(), 1);

    options.filtered_events = vec![KickEventType::ChatMessage];
    let acts = s.handle_frame(IncomingFrame::Text(CHAT.to_string()), &options, &mut buffer);
    assert_eq!(acts.len(), 1);
    assert_eq!(buffer.len(), 2);

    let acts = s.handle_frame(IncomingFrame::Text("garbage".to_string()), &options, &mut buffer);
    assert!(acts.is_empty());
    assert_eq!(buffer.export_raw_messages(), vec![CHAT.to_string(), "garbage".to_string()]);
}

#[test]
fn session_other_frames() {
    let options = KickWebSocketOptions::default();
    let mut buffer = MessageBuffer::new();
    let mut s = PusherSession::new(1);
    let acts = s.handle_frame(IncomingFrame::Ping(vec![1, 2]), &options, &mut buffer);
    assert!(matches!(&acts[0], SessionAction::SendPong(p) if p == &vec![1u8, 2u8]));
    let acts = s.handle_frame(IncomingFrame::Failure("reset".to_string()), &options, &mut buffer);
    assert!(matches!(&acts[0], SessionAction::EmitError(KickError::Connection(m)) if m == "reset"));
    assert!(matches!(acts[1], SessionAction::Stop));
    let acts = s.handle_frame(IncomingFrame::Close, &options, &mut buffer);
    assert!(matches!(acts[0], SessionAction::Stop));
    assert!(s.handle_frame(IncomingFrame::Other, &options, &mut buffer).is_empty());
    let mut no_reconnect = KickWebSocketOptions::default();
    no_reconnect.auto_reconnect = false;
    let acts = s.finish(&no_reconnect, false);
    assert_eq!(acts.len(), 2);
    assert!(matches!(acts[0], SessionAction::SetState(ConnectionState::Disconnected)));
    assert!(matches!(acts[1], SessionAction::EmitDisconnected));
}

#[test]
fn session_end_reconnects_unless_asked_to_disconnect() {
    let mut options = KickWebSocketOptions::default();
    options.reconnect_interval = 2500;
    let mut s = PusherSession::new(668);
    let acts = s.finish(&options, false);
    assert_eq!(acts.len(), 4);
    assert!(matches!(acts[0], SessionAction::SetState(ConnectionState::Disconnected)));
    assert!(matches!(acts[1], SessionAction::EmitDisconnected));
    assert!(matches!(acts[2], SessionAction::Wait(2500)));
    assert!(matches!(acts[3], SessionAction::Reconnect(668)));
    assert_eq!(s.finish(&options, true).len(), 2);
}

#[test]
fn buffer_keeps_the_last_frames_of_a_run() {
    let mut options = KickWebSocketOptions::default();
    options.enable_buffer = true;
    options.buffer_size = 3;
    let mut buffer = MessageBuffer::new();
    let mut s = PusherSession::new(1);
    for i in 0..7 {
        s.handle_frame(IncomingFrame::Text(format!("f{}", i)), &options, &mut buffer);
        assert!(buffer.get_buffer_stats().total <= 3);
    }
    assert_eq!(buffer.export_raw_messages(), vec!["f4".to_string(), "f5".to_string(), "f6".to_string()]);
}

#[test]
fn settings_build_the_default_url() {
    let settings = ConnectionSettings::new(KickWebSocketOptions::default());
    let url = settings.build_websocket_url().unwrap();
    assert_eq!(
        url.text,
        "wss://ws-us2.pusher.com/app/32cbd69e4b950bf97679?protocol=7&client=js&version=8.4.0&flash=false"
    );
    assert_eq!(url.host, Some("ws-us2.pusher.com".to_string()));
    assert_eq!(url.port, None);
}

#[test]
fn settings_custom_url_params_and_reset() {
    let mut settings = ConnectionSettings::new(KickWebSocketOptions::default());
    settings.set_websocket_url("wss://example.com:8443/ws".to_string());
    settings.set_websocket_params(vec![("a b".to_string(), "c&d".to_string())]);
    let params = settings.websocket_params();
    assert_eq!(params.len(), 5);
    assert_eq!(params[0], ("protocol".to_string(), "7".to_string()));
    let url = settings.build_websocket_url().unwrap();
    assert_eq!(url.text, "wss://example.com:8443/ws?protocol=7&client=js&version=8.4.0&flash=false&a+b=c%26d");
    assert_eq!(url.port, Some(8443));

    settings.set_websocket_url("not a url".to_string());
    assert!(matches!(settings.build_websocket_url(), Err(KickError::UrlParse(_))));

    settings.reset_websocket_config();
    assert!(settings.custom_websocket_url.is_none());
    assert_eq!(settings.websocket_params().len(), 4);
}

#[test]
fn settings_user_agent() {
    let mut settings = ConnectionSettings::new(KickWebSocketOptions::default());
    assert_eq!(settings.get_user_agent_config(), (None, true));
    settings.set_custom_user_agent("UA".to_string());
    settings.set_user_agent_rotation(false);
    assert_eq!(settings.get_user_agent_config(), (Some("UA".to_string()), false));
    settings.reset_user_agent();
    assert_eq!(settings.get_user_agent_config(), (None, true));
}

#[test]
fn request_headers() {
    let settings = ConnectionSettings::new(KickWebSocketOptions::default());
    let url = settings.build_websocket_url().unwrap();
    let mut options = KickWebSocketOptions::default();
    let headers = websocket_request_headers(&url, &options, 0, 5, "KEY==");
    assert_eq!(headers.len(), 18);
    assert_eq!(headers[0], ("Host".to_string(), "ws-us2.pusher.com:443".to_string()));
    assert_eq!(headers[1], ("User-Agent".to_string(), get_rotating_user_agent(5).to_string()));
    assert_eq!(headers[8], ("Sec-Ch-Ua-Platform".to_string(), "\"Windows\"".to_string()));
    assert_eq!(headers[16], ("Sec-WebSocket-Key".to_string(), "KEY==".to_string()));
    assert_eq!(headers[17], ("Sec-WebSocket-Version".to_string(), "13".to_string()));

    options.rotate_user_agent = false;
    let headers = websocket_request_headers(&url, &options, 3, 5, "K");
    assert_eq!(headers[1].1, get_rotating_user_agent(3));
    options.custom_user_agent = Some("Mine".to_string());
    let headers = websocket_request_headers(&url, &options, 3, 5, "K");
    assert_eq!(headers[1].1, "Mine");
}

#[test]
fn connect_only_when_idle() {
    assert!(should_connect(ConnectionState::Disconnected));
    assert!(should_connect(ConnectionState::Error));
    assert!(should_connect(ConnectionState::Reconnecting));
    assert!(!should_connect(ConnectionState::Connected));
    assert!(!should_connect(ConnectionState::Connecting));
}

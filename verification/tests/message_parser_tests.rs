use kick_rust::json::JsonValue;
use kick_rust::message_parser::{extract_field, is_pusher_event_name, MessageParser};
use kick_rust::types::{KickError, KickEventData, KickEventType, RawMessage, WebSocketMessage};

const CHAT_FRAME: &str = r#"{"event":"App\\Events\\ChatMessageEvent","data":"{\"id\":\"m1\",\"content\":\"hi [emote:37226:KEKW] there\",\"type\":\"message\",\"created_at\":\"2023-01-01T00:00:00Z\",\"sender\":{\"id\":5,\"username\":\"bob\",\"display_name\":null},\"chatroom\":{\"id\":7,\"channel_id\":8,\"name\":\"room\"}}","channel":"chatrooms.7.v2"}"#;

#[test]
fn test_clean_emotes() {
    let content = "Hello [emote:123:wave] world [emote:456:heart]!";
    let cleaned = MessageParser::clean_emotes(content);
    assert_eq!(cleaned, "Hello wave world heart!");
}

#[test]
fn test_empty_content() {
    let cleaned = MessageParser::clean_emotes("");
    assert_eq!(cleaned, "");
}

#[test]
fn test_is_valid_message() {
    let valid_json = r#"{"event":"test","data":{"key":"value"}}"#;
    let invalid_json = r#"{"event":"test"}"#;
    let empty = "";

    assert!(MessageParser::is_valid_message(valid_json));
    assert!(!MessageParser::is_valid_message(invalid_json));
    assert!(!MessageParser::is_valid_message(empty));
}

#[test]
fn test_extract_event_type() {
    let message = r#"{"event":"App\\Events\\ChatMessageEvent","data":{}}"#;
    let event_type = MessageParser::extract_event_type(message).unwrap();
    assert_eq!(event_type, "App\\Events\\ChatMessageEvent");

    let pusher_message = r#"{"event":"pusher:connection_established","data":"{}"}"#;
    let result = MessageParser::parse_message(pusher_message);
    assert!(result.is_ok());
    assert!(result.unwrap().is_none());
}

#[test]
fn test_map_kick_event_to_standard() {
    assert_eq!(
        MessageParser::map_kick_event_to_standard("App\\Events\\ChatMessageEvent"),
        Some(KickEventType::ChatMessage)
    );
    assert_eq!(MessageParser::map_kick_event_to_standard("UnknownEvent"), None);
}

#[test]
fn test_utility_functions() {
    let raw_msg = RawMessage {
        event_type: "test_event".to_string(),
        data: r#"{"user": {"name": "test", "id": 123}}"#.to_string(),
        raw_json: r#"{"event": "test_event", "data": {"user": {"name": "test", "id": 123}}}"#.to_string(),
    };

    let name = extract_field(&raw_msg, "data.user.name");
    assert!(name.is_some());
    assert_eq!(name.unwrap().as_str().unwrap(), "test");

    let invalid = extract_field(&raw_msg, "data.invalid.path");
    assert!(invalid.is_none());

    let malformed_msg = RawMessage {
        event_type: "test".to_string(),
        data: "invalid".to_string(),
        raw_json: "{invalid json}".to_string(),
    };
    let result = extract_field(&malformed_msg, "any.path");
    assert!(result.is_none());
}

#[test]
fn extract_field_reads_numbers_and_array_elements() {
    let raw_msg = RawMessage {
        event_type: "e".to_string(),
        data: "{}".to_string(),
        raw_json: r#"{"data": {"list": [10, {"k": "v"}], "n": 42}}"#.to_string(),
    };
    assert_eq!(extract_field(&raw_msg, "data.n").unwrap().as_u64(), Some(42));
    assert_eq!(extract_field(&raw_msg, "data.list.0").unwrap().as_u64(), Some(10));
    assert_eq!(extract_field(&raw_msg, "data.list.1.k").unwrap().as_str(), Some("v"));
    assert!(extract_field(&raw_msg, "data.list.2").is_none());
    assert_eq!(extract_field(&raw_msg, "data.n.x"), None);
}

#[test]
fn every_kick_event_name_maps_to_its_type() {
    let names = [
        ("App\\Events\\ChatMessageEvent", KickEventType::ChatMessage),
        ("App\\Events\\MessageDeletedEvent", KickEventType::MessageDeleted),
        ("App\\Events\\UserBannedEvent", KickEventType::UserBanned),
        ("App\\Events\\UserUnbannedEvent", KickEventType::UserUnbanned),
        ("App\\Events\\SubscriptionEvent", KickEventType::Subscription),
        ("App\\Events\\GiftedSubscriptionsEvent", KickEventType::GiftedSubscriptions),
        ("App\\Events\\PinnedMessageCreatedEvent", KickEventType::PinnedMessageCreated),
        ("App\\Events\\StreamHostEvent", KickEventType::StreamHost),
        ("App\\Events\\PollUpdateEvent", KickEventType::PollUpdate),
        ("App\\Events\\PollDeleteEvent", KickEventType::PollDelete),
    ];
    for (name, t) in names.iter() {
        assert_eq!(MessageParser::map_kick_event_to_standard(name), Some(*t));
        assert!(!is_pusher_event_name(name));
    }
    assert_eq!(MessageParser::map_kick_event_to_standard("ChatMessage"), None);
}

#[test]
fn pusher_event_names() {
    assert!(is_pusher_event_name("pusher:ping"));
    assert!(is_pusher_event_name("pusher_internal:subscription_succeeded"));
    assert!(!is_pusher_event_name("pusher"));
}

#[test]
fn parse_chat_message_frame() {
    let parsed = MessageParser::parse_message(CHAT_FRAME).unwrap().unwrap();
    assert_eq!(parsed.event_type, KickEventType::ChatMessage);
    match parsed.data {
        KickEventData::ChatMessage(m) => {
            assert_eq!(m.id, "m1");
            assert_eq!(m.content, "hi KEKW there");
            assert_eq!(m.message_type, "message");
            assert_eq!(m.created_at, "2023-01-01T00:00:00Z");
            assert_eq!(m.sender.id, 5);
            assert_eq!(m.sender.username, "bob");
            assert_eq!(m.sender.display_name, None);
            assert_eq!(m.chatroom.id, 7);
            assert_eq!(m.chatroom.channel_id, 8);
            assert_eq!(m.chatroom.name, "room");
        }
        other => panic!("unexpected event {:?}", other),
    }
}

#[test]
fn parse_message_with_object_data() {
    let frame = r#"{"event":"App\\Events\\UserBannedEvent","data":{"username":"mod","banned_username":"troll"}}"#;
    let parsed = MessageParser::parse_message(frame).unwrap().unwrap();
    assert_eq!(parsed.event_type, KickEventType::UserBanned);
    match parsed.data {
        KickEventData::UserBanned(e) => {
            assert_eq!(e.username, "mod");
            assert_eq!(e.event_type, "user_banned");
        }
        other => panic!("unexpected event {:?}", other),
    }
}

#[test]
fn parse_message_deleted_and_poll_delete() {
    let frame = r#"{"event":"App\\Events\\MessageDeletedEvent","data":"{\"message_id\":\"abc\",\"chatroom_id\":9}"}"#;
    match MessageParser::parse_message(frame).unwrap().unwrap().data {
        KickEventData::MessageDeleted(e) => {
            assert_eq!(e.message_id, "abc");
            assert_eq!(e.chatroom_id, 9);
        }
        other => panic!("unexpected event {:?}", other),
    }
    let frame = r#"{"event":"App\\Events\\PollDeleteEvent","data":{"id":"p1"}}"#;
    match MessageParser::parse_message(frame).unwrap().unwrap().data {
        KickEventData::PollDelete(e) => assert_eq!(e.poll_id, "p1"),
        other => panic!("unexpected event {:?}", other),
    }
}

#[test]
fn parse_gifted_subscriptions_names() {
    let frame = r#"{"event":"App\\Events\\GiftedSubscriptionsEvent","data":{"gifted_by":"alice","recipients":[{"username":"x"},"y",3]}}"#;
    match MessageParser::parse_message(frame).unwrap().unwrap().data {
        KickEventData::GiftedSubscriptions(e) => {
            assert_eq!(e.gifted_by, "alice");
            assert_eq!(e.recipients, vec!["x".to_string(), "y".to_string(), "unknown".to_string()]);
        }
        other => panic!("unexpected event {:?}", other),
    }
}

#[test]
fn parse_message_errors() {
    assert!(matches!(MessageParser::parse_message("   "), Err(KickError::InvalidMessage(m)) if m == "Empty message"));
    assert!(matches!(MessageParser::parse_message("{not json"), Err(KickError::Json(_))));
    assert!(matches!(
        MessageParser::parse_message(r#"{"event":"","data":{}}"#),
        Err(KickError::InvalidMessage(m)) if m == "Empty event"
    ));
    assert!(matches!(
        MessageParser::parse_message(r#"{"event":"Other","data":{}}"#),
        Err(KickError::UnknownEventType(e)) if e == "Other"
    ));
    assert!(matches!(
        MessageParser::parse_message(r#"{"event":"App\\Events\\PollDeleteEvent","data":{"x":1}}"#),
        Err(KickError::InvalidMessage(_))
    ));
}

#[test]
fn is_kick_event_and_extract_event_type_agree() {
    let kick = r#"{"event":"App\\Events\\ChatMessageEvent","data":{}}"#;
    let pusher = r#"{"event":"pusher:pong","data":{}}"#;
    assert!(MessageParser::is_kick_event(kick));
    assert!(MessageParser::extract_event_type(kick).is_ok());
    assert!(!MessageParser::is_kick_event(pusher));
    assert!(matches!(
        MessageParser::extract_event_type(pusher),
        Err(KickError::InvalidMessage(m)) if m == "Pusher system event: pusher:pong"
    ));
    assert!(!MessageParser::is_kick_event("nope"));
}

#[test]
fn error_messages() {
    assert_eq!(KickError::UnknownEventType("X".to_string()).message(), "Unknown event type: X");
    assert_eq!(KickError::InvalidMessage("m".to_string()).message(), "Invalid message format: m");
}

#[test]
fn json_value_accessors() {
    let v = JsonValue::Object(vec![("a".to_string(), "\"s\"".to_string()), ("b".to_string(), "7".to_string())]);
    assert_eq!(v.get("a"), Some("\"s\"".to_string()));
    assert_eq!(v.member_str("a"), Some("s".to_string()));
    assert_eq!(v.member_u64("b"), Some(7));
    assert_eq!(v.member_u64("a"), None);
    assert!(JsonValue::Null.is_null());
}

#[test]
fn parse_websocket_message_reads_decoded_frames() {
    let message = WebSocketMessage {
        event: "App\\Events\\PollDeleteEvent".to_string(),
        data: JsonValue::String("{\"id\":\"p9\"}".to_string()),
        channel: None,
    };
    match MessageParser::parse_websocket_message(message).unwrap().unwrap().data {
        KickEventData::PollDelete(e) => assert_eq!(e.poll_id, "p9"),
        other => panic!("unexpected event {:?}", other),
    }
    let pusher = WebSocketMessage { event: "pusher:ping".to_string(), data: JsonValue::Null, channel: None };
    assert!(MessageParser::parse_websocket_message(pusher).unwrap().is_none());
    let bad = WebSocketMessage {
        event: "App\\Events\\PollDeleteEvent".to_string(),
        data: JsonValue::Bool(true),
        channel: None,
    };
    assert!(matches!(
        MessageParser::parse_websocket_message(bad),
        Err(KickError::InvalidMessage(m)) if m == "Data is neither a string nor an object"
    ));
}

#[test]
fn banned_user_falls_back_to_banned_username() {
    let frame = r#"{"event":"App\\Events\\UserBannedEvent","data":{"banned_username":"troll"}}"#;
    match MessageParser::parse_message(frame).unwrap().unwrap().data {
        KickEventData::UserBanned(e) => assert_eq!(e.username, "troll"),
        other => panic!("unexpected event {:?}", other),
    }
}

#[test]
fn blank_frames_are_neither_kick_events_nor_event_types() {
    for blank in ["", " ", "\t\n", "\u{3000}"] {
        assert!(!MessageParser::is_kick_event(blank));
        assert!(MessageParser::extract_event_type(blank).is_err());
        assert!(matches!(MessageParser::parse_message(blank), Err(KickError::InvalidMessage(m)) if m == "Empty message"));
    }
}

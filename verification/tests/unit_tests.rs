use chat_reader::base::{BaseMetadata, Subscription, Transport};
use chat_reader::chat::NotificationEvent;
use chat_reader::classify::{classify_value, EventMessage};
use chat_reader::notification::{NotificationMessage, NotificationPayload};
use chat_reader::chat::MessageType;
use chat_reader::config::UserConfig;
use chat_reader::ids::MessageId;
use chat_reader::json::Json;
use chat_reader::keepalive::{KeepaliveMessage, KeepalivePayload};
use chat_reader::revocation::{RevocationMessage, RevocationPayload};
use chat_reader::router::{EventType, Router};
use chat_reader::subscriber::subscription_request_body;
use chat_reader::time::Timestamp;
use chat_reader::welcome::{WelcomeMessage, WelcomePayload, WelcomeSession};

fn text(s: &str) -> Json {
    Json::Text(s.to_string())
}

fn obj(members: Vec<(&str, Json)>) -> Json {
    Json::Obj(members.into_iter().map(|(k, v)| (k.to_string(), v)).collect())
}

#[test]
fn message_type_names_round_trip() {
    let all = [
        MessageType::Text,
        MessageType::ChannelPointsHighlighted,
        MessageType::ChannelPointsSubOnly,
        MessageType::UserIntro,
        MessageType::PowerUpsMessageEffect,
        MessageType::PowerUpsGigantifiedEmote,
    ];
    for t in all {
        assert_eq!(MessageType::from_str_snake_case(t.as_str()).unwrap(), t);
    }
    assert_eq!(MessageType::Text.as_str(), "text");
    assert_eq!(
        MessageType::PowerUpsGigantifiedEmote.as_str(),
        "power_ups_gigantified_emote"
    );
    assert!(MessageType::from_str_snake_case("shout").is_err());
}

#[test]
fn message_type_camel_and_pascal() {
    assert_eq!(
        MessageType::from_str_camel_case("channelPointsHighlighted").unwrap(),
        MessageType::ChannelPointsHighlighted
    );
    assert_eq!(
        MessageType::from_str_camel_case("text").unwrap(),
        MessageType::Text
    );
    assert!(MessageType::from_str_camel_case("channel_points_highlighted").is_err());
    assert_eq!(
        MessageType::from_str_pascal_case("UserIntro").unwrap(),
        MessageType::UserIntro
    );
    assert!(MessageType::from_str_pascal_case("userIntro").is_err());
}

#[test]
fn timestamp_reads_rfc3339() {
    assert_eq!(
        Timestamp::from_rfc3339("2024-01-01T00:00:00Z").unwrap().millis,
        1_704_067_200_000
    );
    assert_eq!(
        Timestamp::from_rfc3339("2024-01-01T00:00:00.250Z").unwrap().millis,
        1_704_067_200_250
    );
    assert_eq!(
        Timestamp::from_rfc3339("2024-01-01T01:00:00+01:00").unwrap().millis,
        1_704_067_200_000
    );
    assert!(Timestamp::from_rfc3339("yesterday").is_none());
    assert!(Timestamp::from_rfc3339("").is_none());
}

#[test]
fn message_id_classifies_uuid_and_legacy_text() {
    // A UUID in any accepted notation is kept canonically.
    match MessageId::from_string("550E8400-E29B-41D4-A716-446655440000".to_string()) {
        MessageId::UuidId(c) => assert_eq!(c, "550e8400-e29b-41d4-a716-446655440000"),
        other => panic!("expected a UUID identifier, got {:?}", other),
    }
    match MessageId::from_string("not-a-uuid".to_string()) {
        MessageId::StringId(s) => assert_eq!(s, "not-a-uuid"),
        other => panic!("expected an opaque identifier, got {:?}", other),
    }
    let id = MessageId::from_string("550e8400e29b41d4a716446655440000".to_string());
    match &id {
        MessageId::UuidId(c) => assert_eq!(c, "550e8400-e29b-41d4-a716-446655440000"),
        other => panic!("expected a UUID identifier, got {:?}", other),
    }
    assert_eq!(id.to_text(), "550e8400-e29b-41d4-a716-446655440000");
}

#[test]
fn router_keeps_one_handler_per_category() {
    let mut r: Router<u32> = Router::new();
    assert_eq!(r.dispatch_target(EventType::ChatMessage), None);
    r.register(EventType::ChatMessage, 1);
    r.register(EventType::Bits, 2);
    assert_eq!(r.dispatch_target(EventType::ChatMessage), Some(&1));
    assert_eq!(r.dispatch_target(EventType::Bits), Some(&2));
    assert_eq!(r.dispatch_target(EventType::Subscription), None);
    // A later registration replaces the earlier one.
    r.register(EventType::ChatMessage, 9);
    assert_eq!(r.dispatch_target(EventType::ChatMessage), Some(&9));
    assert_eq!(EventType::ChatMessage.as_str(), "chat_message");
    assert_eq!(EventType::Bits.as_str(), "bits");
}

#[test]
fn user_config_broadcaster_updates() {
    let c = UserConfig {
        client_id: "cid".to_string(),
        user_token: "tok".to_string(),
        broadcaster_id: "old".to_string(),
        user_id: "uid".to_string(),
    };
    let c = c.with_broadcaster_id("new".to_string());
    assert_eq!(c.broadcaster_id, "new");
    assert_eq!(c.client_id, "cid");
    let mut c = c;
    c.change_broadcaster_id("newer".to_string());
    assert_eq!(c.broadcaster_id, "newer");
    assert_eq!(c.user_id, "uid");
    let d = UserConfig::default();
    assert_eq!(d.client_id, "");
    assert_eq!(d.user_token, "");
}

#[test]
fn subscription_body_carries_credentials_and_session() {
    let c = UserConfig {
        client_id: "cid".to_string(),
        user_token: "tok".to_string(),
        broadcaster_id: "4145994".to_string(),
        user_id: "1971641".to_string(),
    };
    let body = subscription_request_body("AgoQgttk", &c);
    match &body {
        Json::Obj(members) => {
            assert_eq!(members.len(), 4);
            assert_eq!(members[0].0, "type");
            assert!(matches!(&members[0].1, Json::Text(t) if t == "channel.chat.message"));
            assert!(matches!(&members[1].1, Json::Text(t) if t == "1"));
            match &members[2].1 {
                Json::Obj(cond) => {
                    assert!(matches!(&cond[0].1, Json::Text(t) if t == "4145994"));
                    assert!(matches!(&cond[1].1, Json::Text(t) if t == "1971641"));
                }
                other => panic!("expected the condition object, got {:?}", other),
            }
            match &members[3].1 {
                Json::Obj(tr) => {
                    assert!(matches!(&tr[0].1, Json::Text(t) if t == "websocket"));
                    assert!(matches!(&tr[1].1, Json::Text(t) if t == "AgoQgttk"));
                }
                other => panic!("expected the transport object, got {:?}", other),
            }
        }
        other => panic!("expected the body object, got {:?}", other),
    }
}

#[test]
fn json_accessors_read_members() {
    let j = obj(vec![
        ("name", text("verity")),
        ("count", Json::UInt(3)),
        ("deep", obj(vec![("flag", Json::Bool(true))])),
        ("nothing", Json::Null),
    ]);
    assert_eq!(j.get_text("name").unwrap(), "verity");
    assert_eq!(j.get_u32("count"), Some(3));
    assert_eq!(j.get_u32("name"), None);
    assert!(j.get_field("missing").is_none());
    assert!(matches!(j.get_field("deep"), Some(Json::Obj(_))));
    assert_eq!(j.get_opt_text("nothing"), Some(None));
    assert_eq!(j.get_opt_text("missing"), Some(None));
    assert_eq!(j.get_opt_text("count"), None);
    let copy = j.duplicate();
    assert_eq!(copy.get_text("name").unwrap(), "verity");
    assert_eq!(copy.get_u32("count"), Some(3));
}

#[test]
fn json_rejects_out_of_range_counts() {
    let j = obj(vec![
        ("big", Json::UInt(5_000_000_000)),
        ("neg", Json::Int(-2)),
        ("frac", Json::Frac),
    ]);
    assert_eq!(j.get_u32("big"), None);
    assert_eq!(j.get_u32("neg"), None);
    assert_eq!(j.get_u32("frac"), None);
    assert_eq!(j.get_opt_u32("missing"), Some(None));
}

#[test]
fn from_base_narrows_metadata() {
    let md = BaseMetadata {
        message_id: MessageId::from_string("legacy".to_string()),
        message_type: "session_welcome".to_string(),
        message_timestamp: Timestamp { millis: 5 },
        subscription_type: None,
        subscription_version: None,
    };
    let w = WelcomeMessage::from_base(
        md,
        WelcomePayload {
            session: Some(WelcomeSession {
                connected_at: Timestamp { millis: 5 },
                id: "S1".to_string(),
                keepalive_timeout_seconds: 10,
                reconnect_url: None,
                recovery_url: None,
                status: "connected".to_string(),
            }),
        },
    );
    assert_eq!(w.metadata.message_type, "session_welcome");
    assert_eq!(w.metadata.message_timestamp.millis, 5);
    assert_eq!(w.payload.session.unwrap().id, "S1");

    let md = BaseMetadata {
        message_id: MessageId::from_string("legacy".to_string()),
        message_type: "session_keepalive".to_string(),
        message_timestamp: Timestamp { millis: 6 },
        subscription_type: None,
        subscription_version: None,
    };
    let k = KeepaliveMessage::from_base(md, KeepalivePayload { session: None });
    assert_eq!(k.metadata.message_timestamp.millis, 6);
    assert!(k.payload.session.is_none());
}

#[test]
fn revocation_from_base_demands_subscription_members() {
    let payload = || RevocationPayload {
        subscription: Subscription {
            id: "f1c2a387-161a-49f9-a165-0f21d7a4e1c4".to_string(),
            status: "authorization_revoked".to_string(),
            sub_type: "channel.chat.message".to_string(),
            version: "1".to_string(),
            cost: 1,
            condition: Json::Obj(Vec::new()),
            transport: Transport {
                method: "websocket".to_string(),
                session_id: "AgoQgttk".to_string(),
            },
            created_at: Timestamp { millis: 0 },
        },
    };
    let complete = BaseMetadata {
        message_id: MessageId::from_string("legacy".to_string()),
        message_type: "revocation".to_string(),
        message_timestamp: Timestamp { millis: 7 },
        subscription_type: Some("channel.chat.message".to_string()),
        subscription_version: Some("1".to_string()),
    };
    let m = RevocationMessage::from_base(complete, payload()).unwrap();
    assert_eq!(m.metadata.subscription_type, "channel.chat.message");

    let incomplete = BaseMetadata {
        message_id: MessageId::from_string("legacy".to_string()),
        message_type: "revocation".to_string(),
        message_timestamp: Timestamp { millis: 7 },
        subscription_type: None,
        subscription_version: Some("1".to_string()),
    };
    assert!(RevocationMessage::from_base(incomplete, payload()).is_err());
}

#[test]
fn notification_from_base_narrows_metadata() {
    let md = BaseMetadata {
        message_id: MessageId::from_string("legacy".to_string()),
        message_type: "notification".to_string(),
        message_timestamp: Timestamp { millis: 8 },
        subscription_type: Some("channel.chat.message".to_string()),
        subscription_version: Some("1".to_string()),
    };
    let payload = NotificationPayload {
        subscription: Subscription {
            id: "f1c2a387-161a-49f9-a165-0f21d7a4e1c4".to_string(),
            status: "enabled".to_string(),
            sub_type: "channel.chat.message".to_string(),
            version: "1".to_string(),
            cost: 0,
            condition: Json::Obj(Vec::new()),
            transport: Transport {
                method: "websocket".to_string(),
                session_id: "AgoQgttk".to_string(),
            },
            created_at: Timestamp { millis: 0 },
        },
        event: NotificationEvent::Other(Json::Null),
    };
    let n = NotificationMessage::from_base(md, payload);
    assert_eq!(n.metadata.subscription_type, "channel.chat.message");
    assert_eq!(n.metadata.subscription_version, "1");
    assert_eq!(n.metadata.message_timestamp.millis, 8);
    assert!(matches!(n.payload.event, NotificationEvent::Other(Json::Null)));
}

#[test]
fn classify_value_takes_a_built_document() {
    let metadata = obj(vec![
        ("message_id", text("legacy-7")),
        ("message_type", text("session_surprise")),
        ("message_timestamp", text("2024-01-01T00:00:00Z")),
    ]);
    let doc = obj(vec![("metadata", metadata), ("payload", obj(vec![]))]);
    match classify_value(&doc) {
        Ok(EventMessage::Unrecognized) => {}
        other => panic!("expected the unrecognized frame, got {:?}", other),
    }
    let bad = obj(vec![("metadata", Json::Null), ("payload", Json::Null)]);
    assert!(classify_value(&bad).is_err());
}

use chat_reader::classify::{classify, EventMessage};
use chat_reader::errors::{DecodeError, MessageKind};
use chat_reader::chat::{MessageType, NotificationEvent};
use chat_reader::ids::MessageId;
use chat_reader::json::Json;

fn welcome_raw(session: &str) -> String {
    format!(
        "{{\"metadata\":{{\"message_id\":\"96a3f3b5-5dec-4eed-908e-e11ee657416c\",\"message_type\":\"session_welcome\",\"message_timestamp\":\"2024-01-01T00:00:00Z\"}},\"payload\":{{\"session\":{}}}}}",
        session
    )
}

fn session_obj(id: &str) -> String {
    format!(
        "{{\"id\":\"{}\",\"status\":\"connected\",\"connected_at\":\"2024-01-01T00:00:00Z\",\"keepalive_timeout_seconds\":10,\"reconnect_url\":null,\"recovery_url\":null}}",
        id
    )
}

fn notification_raw(sub_type: &str, event: &str) -> String {
    format!(
        "{{\"metadata\":{{\"message_id\":\"befa7b53-d79d-478f-86b9-120f112b044e\",\"message_type\":\"notification\",\"message_timestamp\":\"2024-01-01T00:00:01Z\",\"subscription_type\":\"{st}\",\"subscription_version\":\"1\"}},\"payload\":{{\"subscription\":{{\"id\":\"f1c2a387-161a-49f9-a165-0f21d7a4e1c4\",\"status\":\"enabled\",\"type\":\"{st}\",\"version\":\"1\",\"cost\":0,\"condition\":{{\"broadcaster_user_id\":\"12826\"}},\"transport\":{{\"method\":\"websocket\",\"session_id\":\"AgoQgttk\"}},\"created_at\":\"2024-01-01T00:00:00Z\"}},\"event\":{ev}}}}}",
        st = sub_type,
        ev = event
    )
}

fn chat_event(text: &str, chatter: &str) -> String {
    format!(
        "{{\"broadcaster_user_id\":\"1971641\",\"broadcaster_user_name\":\"streamer\",\"broadcaster_user_login\":\"streamer\",\"chatter_user_id\":\"4145994\",\"chatter_user_name\":\"{ch}\",\"chatter_user_login\":\"{ch}\",\"message_id\":\"cc106a89-1814-919d-454c-f4f2f970aae7\",\"message\":{{\"text\":\"{tx}\",\"fragments\":[{{\"type\":\"text\",\"text\":\"{tx}\",\"cheermote\":null,\"emote\":null,\"mention\":null}}]}},\"message_type\":\"text\",\"badges\":[{{\"set_id\":\"moderator\",\"id\":\"1\",\"info\":\"\"}}],\"reply\":null,\"channel_points_custom_reward_id\":null,\"source_broadcaster_user_id\":null,\"source_broadcaster_user_name\":null,\"source_broadcaster_user_login\":null,\"source_message_id\":null,\"source_badges\":null,\"is_source_only\":null}}",
        ch = chatter,
        tx = text
    )
}

#[test]
fn classify_welcome_valid() {
    let raw = welcome_raw(&session_obj("AQoQILE98gtqShGmLD7AM6yJThAB"));
    match classify(&raw) {
        Ok(EventMessage::Welcome(w)) => {
            let s = w.payload.session.expect("session present");
            assert_eq!(s.id, "AQoQILE98gtqShGmLD7AM6yJThAB");
            assert_eq!(s.status, "connected");
            assert_eq!(s.keepalive_timeout_seconds, 10);
            assert!(s.reconnect_url.is_none());
            assert!(s.recovery_url.is_none());
            assert_eq!(s.connected_at.millis, 1_704_067_200_000);
            assert_eq!(w.metadata.message_timestamp.millis, 1_704_067_200_000);
            match &w.metadata.message_id {
                MessageId::UuidId(u) => {
                    assert_eq!(u, "96a3f3b5-5dec-4eed-908e-e11ee657416c")
                }
                other => panic!("expected a UUID identifier, got {:?}", other),
            }
        }
        other => panic!("expected a welcome frame, got {:?}", other),
    }
}

#[test]
fn classify_welcome_null_session() {
    let raw = welcome_raw("null");
    match classify(&raw) {
        Ok(EventMessage::Welcome(w)) => assert!(w.payload.session.is_none()),
        other => panic!("expected a welcome frame, got {:?}", other),
    }
}

#[test]
fn classify_welcome_malformed_session() {
    // The session object lacks its mandatory id member.
    let raw = welcome_raw(
        "{\"status\":\"connected\",\"connected_at\":\"2024-01-01T00:00:00Z\",\"keepalive_timeout_seconds\":10}",
    );
    match classify(&raw) {
        Err(DecodeError::Malformed(MessageKind::Welcome, _)) => {}
        other => panic!("expected a malformed-welcome error, got {:?}", other),
    }
}

#[test]
fn classify_keepalive() {
    let raw = "{\"metadata\":{\"message_id\":\"84c1e79a-2a4b-4c13-ba0b-4312293e9308\",\"message_type\":\"session_keepalive\",\"message_timestamp\":\"2024-01-01T00:00:10Z\"},\"payload\":{}}";
    match classify(raw) {
        Ok(EventMessage::Keepalive(k)) => assert!(k.payload.session.is_none()),
        other => panic!("expected a keepalive frame, got {:?}", other),
    }
}

#[test]
fn classify_keepalive_malformed() {
    let raw = "{\"metadata\":{\"message_id\":\"84c1e79a-2a4b-4c13-ba0b-4312293e9308\",\"message_type\":\"session_keepalive\",\"message_timestamp\":\"2024-01-01T00:00:10Z\"},\"payload\":{\"session\":5}}";
    match classify(raw) {
        Err(DecodeError::Malformed(MessageKind::Keepalive, _)) => {}
        other => panic!("expected a malformed-keepalive error, got {:?}", other),
    }
}

#[test]
fn classify_notification_chat_message() {
    let raw = notification_raw("channel.chat.message", &chat_event("hello", "alice"));
    match classify(&raw) {
        Ok(EventMessage::Notification(n)) => {
            assert_eq!(n.metadata.subscription_type, "channel.chat.message");
            assert_eq!(n.metadata.subscription_version, "1");
            assert_eq!(n.payload.subscription.sub_type, "channel.chat.message");
            assert_eq!(n.payload.subscription.cost, 0);
            assert_eq!(
                n.payload.subscription.id,
                "f1c2a387-161a-49f9-a165-0f21d7a4e1c4"
            );
            assert_eq!(n.payload.subscription.transport.method, "websocket");
            match n.payload.event {
                NotificationEvent::ChannelChatMessage(c) => {
                    assert_eq!(c.chatter_user_name, "alice");
                    assert_eq!(c.message.text, "hello");
                    assert_eq!(c.message_type, MessageType::Text);
                    assert_eq!(c.badges.len(), 1);
                    assert_eq!(c.badges[0].set_id, "moderator");
                    assert_eq!(c.message.fragments.len(), 1);
                    assert_eq!(c.message.fragments[0].ftype, "text");
                    assert_eq!(c.message.fragments[0].text, "hello");
                    assert!(c.message.fragments[0].cheermote.is_none());
                    assert!(c.reply.is_none());
                    assert!(c.is_source_only.is_none());
                }
                other => panic!("expected a chat-message event, got {:?}", other),
            }
        }
        other => panic!("expected a notification frame, got {:?}", other),
    }
}

#[test]
fn classify_notification_other_category_kept_opaque() {
    let raw = notification_raw(
        "channel.follow",
        "{\"user_id\":\"1234\",\"followed_at\":\"2024-01-01T00:00:00Z\"}",
    );
    match classify(&raw) {
        Ok(EventMessage::Notification(n)) => match &n.payload.event {
            NotificationEvent::Other(raw_event) => {
                assert!(matches!(raw_event, Json::Obj(members) if members.len() == 2));
                assert_eq!(raw_event.get_text("user_id").unwrap(), "1234");
                assert_eq!(
                    raw_event.get_text("followed_at").unwrap(),
                    "2024-01-01T00:00:00Z"
                );
            }
            other => panic!("expected the raw event value, got {:?}", other),
        },
        other => panic!("expected a notification frame, got {:?}", other),
    }
}

#[test]
fn classify_notification_without_subscription_members() {
    let raw = "{\"metadata\":{\"message_id\":\"befa7b53-d79d-478f-86b9-120f112b044e\",\"message_type\":\"notification\",\"message_timestamp\":\"2024-01-01T00:00:01Z\"},\"payload\":{\"subscription\":{},\"event\":{}}}";
    match classify(raw) {
        Err(DecodeError::Malformed(MessageKind::Notification, _)) => {}
        other => panic!("expected a malformed-notification error, got {:?}", other),
    }
}

#[test]
fn classify_notification_bad_chat_event() {
    // The chat category demands a fully shaped event.
    let raw = notification_raw("channel.chat.message", "{\"text\":\"hi\"}");
    match classify(&raw) {
        Err(DecodeError::Malformed(MessageKind::Notification, _)) => {}
        other => panic!("expected a malformed-notification error, got {:?}", other),
    }
}

#[test]
fn classify_reconnect() {
    let raw = "{\"metadata\":{\"message_id\":\"84c1e79a-2a4b-4c13-ba0b-4312293e9308\",\"message_type\":\"session_reconnect\",\"message_timestamp\":\"2024-01-01T00:00:20Z\"},\"payload\":{\"session\":{\"id\":\"AQoQexAWVYKSTIu4ec_2VAxyuhAB\",\"status\":\"reconnecting\",\"keepalive_timeout_seconds\":null,\"reconnect_url\":\"wss://eventsub.wss.twitch.tv?edge=new\",\"connected_at\":\"2024-01-01T00:00:00Z\"}}}";
    match classify(raw) {
        Ok(EventMessage::Reconnect(r)) => {
            assert_eq!(
                r.payload.session.reconnect_url,
                "wss://eventsub.wss.twitch.tv?edge=new"
            );
            assert_eq!(r.payload.session.status, "reconnecting");
            assert!(r.payload.session.keepalive_timeout_seconds.is_none());
        }
        other => panic!("expected a reconnect frame, got {:?}", other),
    }
}

#[test]
fn classify_revocation() {
    let raw = "{\"metadata\":{\"message_id\":\"84c1e79a-2a4b-4c13-ba0b-4312293e9308\",\"message_type\":\"revocation\",\"message_timestamp\":\"2024-01-01T00:00:30Z\",\"subscription_type\":\"channel.chat.message\",\"subscription_version\":\"1\"},\"payload\":{\"subscription\":{\"id\":\"f1c2a387-161a-49f9-a165-0f21d7a4e1c4\",\"status\":\"authorization_revoked\",\"type\":\"channel.chat.message\",\"version\":\"1\",\"cost\":1,\"condition\":{\"broadcaster_user_id\":\"12826\"},\"transport\":{\"method\":\"websocket\",\"session_id\":\"AgoQgttk\"},\"created_at\":\"2024-01-01T00:00:00Z\"}}}";
    match classify(raw) {
        Ok(EventMessage::Revocation(r)) => {
            assert_eq!(r.metadata.subscription_type, "channel.chat.message");
            assert_eq!(r.payload.subscription.status, "authorization_revoked");
            assert_eq!(r.payload.subscription.cost, 1);
        }
        other => panic!("expected a revocation frame, got {:?}", other),
    }
}

#[test]
fn classify_revocation_without_subscription_members() {
    let raw = "{\"metadata\":{\"message_id\":\"84c1e79a-2a4b-4c13-ba0b-4312293e9308\",\"message_type\":\"revocation\",\"message_timestamp\":\"2024-01-01T00:00:30Z\"},\"payload\":{\"subscription\":{\"id\":\"f1c2a387-161a-49f9-a165-0f21d7a4e1c4\",\"status\":\"authorization_revoked\",\"type\":\"channel.chat.message\",\"version\":\"1\",\"cost\":1,\"condition\":{},\"transport\":{\"method\":\"websocket\",\"session_id\":\"AgoQgttk\"},\"created_at\":\"2024-01-01T00:00:00Z\"}}}";
    match classify(raw) {
        Err(DecodeError::Malformed(MessageKind::Revocation, _)) => {}
        other => panic!("expected a malformed-revocation error, got {:?}", other),
    }
}

#[test]
fn classify_unrecognized_discriminator_never_errs() {
    let raw = "{\"metadata\":{\"message_id\":\"legacy-0001\",\"message_type\":\"session_surprise\",\"message_timestamp\":\"2024-01-01T00:00:40Z\"},\"payload\":{\"whatever\":[1,2,{\"deep\":false}]}}";
    match classify(raw) {
        Ok(EventMessage::Unrecognized) => {}
        other => panic!("expected the unrecognized frame, got {:?}", other),
    }
}

#[test]
fn classify_rejects_bad_json() {
    match classify("this is not json") {
        Err(DecodeError::Syntax) => {}
        other => panic!("expected a syntax error, got {:?}", other),
    }
}

#[test]
fn classify_rejects_bad_timestamp() {
    let raw = "{\"metadata\":{\"message_id\":\"84c1e79a-2a4b-4c13-ba0b-4312293e9308\",\"message_type\":\"session_keepalive\",\"message_timestamp\":\"yesterday\"},\"payload\":{}}";
    match classify(raw) {
        Err(DecodeError::Envelope(_)) => {}
        other => panic!("expected an envelope error, got {:?}", other),
    }
}

#[test]
fn classify_keeps_legacy_identifier() {
    let raw = "{\"metadata\":{\"message_id\":\"legacy-id-1\",\"message_type\":\"session_keepalive\",\"message_timestamp\":\"2024-01-01T00:00:10Z\"},\"payload\":{}}";
    match classify(raw) {
        Ok(EventMessage::Keepalive(k)) => match &k.metadata.message_id {
            MessageId::StringId(s) => assert_eq!(s, "legacy-id-1"),
            other => panic!("expected an opaque identifier, got {:?}", other),
        },
        other => panic!("expected a keepalive frame, got {:?}", other),
    }
}

#[test]
fn classify_chat_message_with_full_fragments() {
    let event = "{\"broadcaster_user_id\":\"1971641\",\"broadcaster_user_name\":\"streamer\",\"broadcaster_user_login\":\"streamer\",\"chatter_user_id\":\"4145994\",\"chatter_user_name\":\"carol\",\"chatter_user_login\":\"carol\",\"message_id\":\"cc106a89-1814-919d-454c-f4f2f970aae7\",\"message\":{\"text\":\"Cheer100 hi @dan partyHat\",\"fragments\":[{\"type\":\"cheermote\",\"text\":\"Cheer100\",\"cheermote\":{\"prefix\":\"cheer\",\"bits\":100,\"tier\":1},\"emote\":null,\"mention\":null},{\"type\":\"mention\",\"text\":\"@dan\",\"cheermote\":null,\"emote\":null,\"mention\":{\"user_id\":\"991\",\"user_name\":\"dan\",\"user_login\":\"dan\"}},{\"type\":\"emote\",\"text\":\"partyHat\",\"cheermote\":null,\"emote\":{\"id\":\"e77\",\"emote_set_id\":\"s3\",\"owner_id\":\"1971641\",\"format\":[\"static\",\"animated\"]},\"mention\":null}]},\"message_type\":\"channel_points_highlighted\",\"badges\":[],\"reply\":{\"parent_message_id\":\"p1\",\"parent_message_body\":\"hello there\",\"parent_user_id\":\"u1\",\"parent_user_name\":\"erin\",\"parent_user_login\":\"erin\",\"thread_message_id\":\"t1\",\"thread_user_id\":\"u2\",\"thread_user_name\":\"frank\",\"thread_user_login\":\"frank\"},\"channel_points_custom_reward_id\":\"rw1\",\"source_broadcaster_user_id\":\"777\",\"source_broadcaster_user_name\":\"origin\",\"source_broadcaster_user_login\":\"origin\",\"source_message_id\":\"sm1\",\"source_badges\":[{\"set_id\":\"vip\",\"id\":\"1\",\"info\":\"x\"}],\"is_source_only\":true}";
    let raw = notification_raw("channel.chat.message", event);
    match classify(&raw) {
        Ok(EventMessage::Notification(n)) => match n.payload.event {
            NotificationEvent::ChannelChatMessage(c) => {
                assert_eq!(c.message_type, MessageType::ChannelPointsHighlighted);
                assert_eq!(c.message.fragments.len(), 3);
                let ch = c.message.fragments[0].cheermote.as_ref().unwrap();
                assert_eq!(ch.prefix, "cheer");
                assert_eq!(ch.bits, 100);
                assert_eq!(ch.tier, 1);
                let me = c.message.fragments[1].mention.as_ref().unwrap();
                assert_eq!(me.name, "dan");
                assert_eq!(me.login, "dan");
                let em = c.message.fragments[2].emote.as_ref().unwrap();
                assert_eq!(em.set_id, "s3");
                assert_eq!(em.format, vec!["static".to_string(), "animated".to_string()]);
                let rp = c.reply.as_ref().unwrap();
                assert_eq!(rp.parent_message_body, "hello there");
                assert_eq!(rp.thread_user_name, "frank");
                assert_eq!(
                    c.channel_points_custom_reward_id.as_deref(),
                    Some("rw1")
                );
                let sb = c.source_badges.as_ref().unwrap();
                assert_eq!(sb.len(), 1);
                assert_eq!(sb[0].set_id, "vip");
                assert_eq!(c.is_source_only, Some(true));
            }
            other => panic!("expected a chat-message event, got {:?}", other),
        },
        other => panic!("expected a notification frame, got {:?}", other),
    }
}

#[test]
fn classify_welcome_rejects_oversized_timeout() {
    // keepalive_timeout_seconds must fit in a u32.
    let raw = welcome_raw(
        "{\"id\":\"S9\",\"status\":\"connected\",\"connected_at\":\"2024-01-01T00:00:00Z\",\"keepalive_timeout_seconds\":5000000000}",
    );
    match classify(&raw) {
        Err(DecodeError::Malformed(MessageKind::Welcome, _)) => {}
        other => panic!("expected a malformed-welcome error, got {:?}", other),
    }
}

#[test]
fn decode_error_describe_names_bad_syntax() {
    let e = classify("{{{").unwrap_err();
    assert!(matches!(e, DecodeError::Syntax));
    assert_eq!(e.describe(), "frame text is not well-formed JSON");
}

#[test]
fn classify_resolves_duplicate_keys_to_the_last_value() {
    // The parser resolves a duplicated member before the tree is built.
    let raw = welcome_raw(
        "{\"id\":\"OLD\",\"id\":\"NEW\",\"status\":\"connected\",\"connected_at\":\"2024-01-01T00:00:00Z\",\"keepalive_timeout_seconds\":10}",
    );
    match classify(&raw) {
        Ok(EventMessage::Welcome(w)) => {
            assert_eq!(w.payload.session.unwrap().id, "NEW");
        }
        other => panic!("expected a welcome frame, got {:?}", other),
    }
}

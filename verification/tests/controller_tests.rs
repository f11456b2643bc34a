use chat_reader::chat::NotificationEvent;
use chat_reader::config::UserConfig;
use chat_reader::controller::{Action, Controller, Phase};
use chat_reader::router::EventType;

fn config() -> UserConfig {
    UserConfig {
        client_id: "cid".to_string(),
        user_token: "tok".to_string(),
        broadcaster_id: "bid".to_string(),
        user_id: "uid".to_string(),
    }
}

fn welcome_raw(id: &str) -> String {
    format!(
        "{{\"metadata\":{{\"message_id\":\"96a3f3b5-5dec-4eed-908e-e11ee657416c\",\"message_type\":\"session_welcome\",\"message_timestamp\":\"2024-01-01T00:00:00Z\"}},\"payload\":{{\"session\":{{\"id\":\"{}\",\"status\":\"connected\",\"connected_at\":\"2024-01-01T00:00:00Z\",\"keepalive_timeout_seconds\":10}}}}}}",
        id
    )
}

fn keepalive_raw() -> String {
    "{\"metadata\":{\"message_id\":\"84c1e79a-2a4b-4c13-ba0b-4312293e9308\",\"message_type\":\"session_keepalive\",\"message_timestamp\":\"2024-01-01T00:00:10Z\"},\"payload\":{}}"
    .to_string()
}

fn reconnect_raw(url: &str) -> String {
    format!(
        "{{\"metadata\":{{\"message_id\":\"84c1e79a-2a4b-4c13-ba0b-4312293e9308\",\"message_type\":\"session_reconnect\",\"message_timestamp\":\"2024-01-01T00:00:20Z\"}},\"payload\":{{\"session\":{{\"id\":\"AQoQex\",\"status\":\"reconnecting\",\"keepalive_timeout_seconds\":null,\"reconnect_url\":\"{}\",\"connected_at\":\"2024-01-01T00:00:00Z\"}}}}}}",
        url
    )
}

fn chat_notification_raw(text: &str, chatter: &str) -> String {
    format!(
        "{{\"metadata\":{{\"message_id\":\"befa7b53-d79d-478f-86b9-120f112b044e\",\"message_type\":\"notification\",\"message_timestamp\":\"2024-01-01T00:00:01Z\",\"subscription_type\":\"channel.chat.message\",\"subscription_version\":\"1\"}},\"payload\":{{\"subscription\":{{\"id\":\"f1c2a387-161a-49f9-a165-0f21d7a4e1c4\",\"status\":\"enabled\",\"type\":\"channel.chat.message\",\"version\":\"1\",\"cost\":0,\"condition\":{{\"broadcaster_user_id\":\"12826\"}},\"transport\":{{\"method\":\"websocket\",\"session_id\":\"AgoQgttk\"}},\"created_at\":\"2024-01-01T00:00:00Z\"}},\"event\":{{\"broadcaster_user_id\":\"1971641\",\"broadcaster_user_name\":\"streamer\",\"broadcaster_user_login\":\"streamer\",\"chatter_user_id\":\"4145994\",\"chatter_user_name\":\"{ch}\",\"chatter_user_login\":\"{ch}\",\"message_id\":\"cc106a89-1814-919d-454c-f4f2f970aae7\",\"message\":{{\"text\":\"{tx}\",\"fragments\":[]}},\"message_type\":\"text\",\"badges\":[]}}}}}}",
        ch = chatter,
        tx = text
    )
}

fn notification_without_handler_raw() -> String {
    chat_notification_raw("ping", "bob")
}

#[test]
fn round_trip_single_subscription() {
    // A welcome, a notification, a reconnect handshake and the welcome on the
    // new transport: exactly one subscription request, carrying the first
    // session identifier.
    let mut c: Controller<u32> = Controller::new(config());
    let mut subscriptions: Vec<String> = Vec::new();

    match c.handle_raw(&welcome_raw("S1")).unwrap() {
        Action::Subscribe { session_id } => subscriptions.push(session_id),
        other => panic!("expected a subscription request, got {:?}", other),
    }
    assert_eq!(c.phase, Phase::Active);
    assert_eq!(c.session.get().unwrap(), "S1");

    match c.handle_raw(&chat_notification_raw("hi", "alice")).unwrap() {
        Action::Dispatch { .. } => {}
        other => panic!("expected a dispatch, got {:?}", other),
    }

    match c.handle_raw(&reconnect_raw("wss://x")).unwrap() {
        Action::OpenTransport { url } => assert_eq!(url, "wss://x"),
        other => panic!("expected a transport move, got {:?}", other),
    }
    assert_eq!(c.phase, Phase::Reconnecting);

    match c.handle_raw(&welcome_raw("S2")).unwrap() {
        Action::Continue => {}
        other => panic!("expected no action on the reconnect welcome, got {:?}", other),
    }
    assert_eq!(c.phase, Phase::Active);
    assert_eq!(c.session.get().unwrap(), "S2");
    assert_eq!(subscriptions, vec!["S1".to_string()]);
}

#[test]
fn keepalive_changes_nothing() {
    let mut c: Controller<u32> = Controller::new(config());
    assert!(matches!(c.handle_raw(&welcome_raw("S1")).unwrap(), Action::Subscribe { .. }));
    let phase_before = c.phase;
    let session_before = c.session.get().unwrap().clone();
    assert!(matches!(c.handle_raw(&keepalive_raw()).unwrap(), Action::Continue));
    assert!(matches!(c.handle_raw(&keepalive_raw()).unwrap(), Action::Continue));
    assert_eq!(c.phase, phase_before);
    assert_eq!(c.session.get().unwrap(), &session_before);
}

#[test]
fn reconnect_scenario_ends_active_without_resubscription() {
    let mut c: Controller<u32> = Controller::new(config());
    assert!(matches!(c.handle_raw(&welcome_raw("S1")).unwrap(), Action::Subscribe { .. }));

    match c.handle_raw(&reconnect_raw("wss://x")).unwrap() {
        Action::OpenTransport { url } => assert_eq!(url, "wss://x"),
        other => panic!("expected a transport move, got {:?}", other),
    }
    match c.handle_raw(&welcome_raw("S2")).unwrap() {
        Action::Subscribe { .. } => panic!("a second subscription must not happen"),
        Action::Continue => {}
        other => panic!("expected no action, got {:?}", other),
    }
    assert_eq!(c.phase, Phase::Active);
    assert_eq!(c.session.get().unwrap(), "S2");
}

#[test]
fn registered_handler_receives_event_once() {
    let mut c: Controller<u32> = Controller::new(config());
    c.register_callback(EventType::ChatMessage, 7);
    assert!(matches!(c.handle_raw(&welcome_raw("S1")).unwrap(), Action::Subscribe { .. }));

    let mut invocations: Vec<(String, String)> = Vec::new();
    match c.handle_raw(&chat_notification_raw("hello", "alice")).unwrap() {
        Action::Dispatch { category, event, timestamp } => {
            assert_eq!(category, EventType::ChatMessage);
            assert_eq!(timestamp.millis, 1_704_067_201_000);
            assert_eq!(c.dispatch_target(category), Some(&7));
            match event {
                NotificationEvent::ChannelChatMessage(ccm) => {
                    invocations.push((ccm.message.text.clone(), ccm.chatter_user_name.clone()));
                }
                other => panic!("expected a chat-message event, got {:?}", other),
            }
        }
        other => panic!("expected a dispatch, got {:?}", other),
    }
    assert_eq!(invocations, vec![("hello".to_string(), "alice".to_string())]);
}

#[test]
fn unregistered_category_is_not_an_error() {
    let mut c: Controller<u32> = Controller::new(config());
    assert!(matches!(c.handle_raw(&welcome_raw("S1")).unwrap(), Action::Subscribe { .. }));
    match c.handle_raw(&notification_without_handler_raw()).unwrap() {
        Action::Dispatch { category, .. } => {
            assert_eq!(c.dispatch_target(category), None);
        }
        other => panic!("expected a dispatch decision, got {:?}", other),
    }
    // The loop goes on: the next frame is still handled.
    assert!(matches!(c.handle_raw(&keepalive_raw()).unwrap(), Action::Continue));
}

#[test]
fn welcome_without_session_is_reported_and_skipped() {
    let mut c: Controller<u32> = Controller::new(config());
    let raw = "{\"metadata\":{\"message_id\":\"96a3f3b5-5dec-4eed-908e-e11ee657416c\",\"message_type\":\"session_welcome\",\"message_timestamp\":\"2024-01-01T00:00:00Z\"},\"payload\":{\"session\":null}}";
    match c.handle_raw(raw).unwrap() {
        Action::MalformedWelcome => {}
        other => panic!("expected the malformed-welcome report, got {:?}", other),
    }
    assert_eq!(c.phase, Phase::Connecting);
    assert!(c.session.get().is_none());
    // The controller proceeds to await, and handle, the next frame.
    assert!(matches!(c.handle_raw(&welcome_raw("S1")).unwrap(), Action::Subscribe { .. }));
}

#[test]
fn decode_error_leaves_state_untouched() {
    let mut c: Controller<u32> = Controller::new(config());
    assert!(c.handle_raw("{\"metadata\":3}").is_err());
    assert_eq!(c.phase, Phase::Connecting);
    assert!(c.session.get().is_none());
}

#[test]
fn closed_controller_ignores_frames() {
    let mut c: Controller<u32> = Controller::new(config());
    assert!(matches!(c.handle_raw(&welcome_raw("S1")).unwrap(), Action::Subscribe { .. }));
    c.handle_close();
    assert_eq!(c.phase, Phase::Closed);
    assert!(matches!(c.handle_raw(&welcome_raw("S2")).unwrap(), Action::Continue));
    assert_eq!(c.session.get().unwrap(), "S1");
}

#[test]
fn revocation_is_log_only() {
    let mut c: Controller<u32> = Controller::new(config());
    assert!(matches!(c.handle_raw(&welcome_raw("S1")).unwrap(), Action::Subscribe { .. }));
    let raw = "{\"metadata\":{\"message_id\":\"84c1e79a-2a4b-4c13-ba0b-4312293e9308\",\"message_type\":\"revocation\",\"message_timestamp\":\"2024-01-01T00:00:30Z\",\"subscription_type\":\"channel.chat.message\",\"subscription_version\":\"1\"},\"payload\":{\"subscription\":{\"id\":\"f1c2a387-161a-49f9-a165-0f21d7a4e1c4\",\"status\":\"authorization_revoked\",\"type\":\"channel.chat.message\",\"version\":\"1\",\"cost\":1,\"condition\":{},\"transport\":{\"method\":\"websocket\",\"session_id\":\"AgoQgttk\"},\"created_at\":\"2024-01-01T00:00:00Z\"}}}";
    match c.handle_raw(raw).unwrap() {
        Action::Revoked { subscription_type, subscription_version } => {
            assert_eq!(subscription_type, "channel.chat.message");
            assert_eq!(subscription_version, "1");
        }
        other => panic!("expected the revocation report, got {:?}", other),
    }
    assert_eq!(c.phase, Phase::Active);
    assert_eq!(c.session.get().unwrap(), "S1");
}

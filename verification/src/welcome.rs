//! The welcome frame: issued once per connection to hand out the session
//! identifier, and again, with a fresh identifier, after a reconnect
//! handshake.

use vstd::prelude::*;

use crate::base::{BaseMetadata, BaseMetadataV};
use crate::ids::{MessageId, MessageIdV};
use crate::json::{field_of, opt_text_field, opt_text_view, opt_u32_field, text_field, Json, JsonV};
use crate::time::{rfc3339_millis, Timestamp};

verus! {

/// Metadata of a welcome frame.
#[derive(Debug)]
pub struct WelcomeMetadata {
    pub message_id: MessageId,
    pub message_type: String,
    pub message_timestamp: Timestamp,
}

/// Model of [`WelcomeMetadata`].
pub struct WelcomeMetadataV {
    pub message_id: MessageIdV,
    pub message_type: Seq<char>,
    pub message_timestamp: Timestamp,
}

impl View for WelcomeMetadata {
    type V = WelcomeMetadataV;

    open spec fn view(&self) -> WelcomeMetadataV {
        WelcomeMetadataV {
            message_id: self.message_id@,
            message_type: self.message_type@,
            message_timestamp: self.message_timestamp,
        }
    }
}

impl From<BaseMetadata> for WelcomeMetadata {
    fn from(metadata: BaseMetadata) -> (r: Self) {
        WelcomeMetadata {
            message_id: metadata.message_id,
            message_type: metadata.message_type,
            message_timestamp: metadata.message_timestamp,
        }
    }
}

impl vstd::std_specs::convert::FromSpecImpl<BaseMetadata> for WelcomeMetadata {
    open spec fn obeys_from_spec() -> bool {
        true
    }

    open spec fn from_spec(m: BaseMetadata) -> Self {
        WelcomeMetadata {
            message_id: m.message_id,
            message_type: m.message_type,
            message_timestamp: m.message_timestamp,
        }
    }
}

/// The session block of a welcome payload.
#[derive(Debug)]
pub struct WelcomeSession {
    pub connected_at: Timestamp,
    pub id: String,
    pub keepalive_timeout_seconds: u32,
    pub reconnect_url: Option<String>,
    pub recovery_url: Option<String>,
    pub status: String,
}

/// Model of [`WelcomeSession`].
pub struct WelcomeSessionV {
    pub connected_at: Timestamp,
    pub id: Seq<char>,
    pub keepalive_timeout_seconds: u32,
    pub reconnect_url: Option<Seq<char>>,
    pub recovery_url: Option<Seq<char>>,
    pub status: Seq<char>,
}

impl View for WelcomeSession {
    type V = WelcomeSessionV;

    open spec fn view(&self) -> WelcomeSessionV {
        WelcomeSessionV {
            connected_at: self.connected_at,
            id: self.id@,
            keepalive_timeout_seconds: self.keepalive_timeout_seconds,
            reconnect_url: opt_text_view(self.reconnect_url),
            recovery_url: opt_text_view(self.recovery_url),
            status: self.status@,
        }
    }
}

/// A welcome session object is well-shaped when its creation time reads as
/// RFC 3339, its identifier and status are text, its keepalive timeout fits
/// in a `u32`, and its two URL members, where present, are text.
pub open spec fn welcome_session_ok(s: JsonV) -> bool {
    &&& text_field(s, "connected_at"@) is Some
    &&& rfc3339_millis(text_field(s, "connected_at"@)->Some_0) is Some
    &&& text_field(s, "id"@) is Some
    &&& field_of(s, "keepalive_timeout_seconds"@) is Some
    &&& opt_u32_field(s, "keepalive_timeout_seconds"@) matches Some(Some(_))
    &&& opt_text_field(s, "reconnect_url"@) is Some
    &&& opt_text_field(s, "recovery_url"@) is Some
    &&& text_field(s, "status"@) is Some
}

/// The session a well-shaped welcome session object denotes.
pub open spec fn welcome_session_of(s: JsonV) -> WelcomeSessionV {
    WelcomeSessionV {
        connected_at: Timestamp {
            millis: rfc3339_millis(text_field(s, "connected_at"@)->Some_0)->Some_0,
        },
        id: text_field(s, "id"@)->Some_0,
        keepalive_timeout_seconds: opt_u32_field(s, "keepalive_timeout_seconds"@)->Some_0->Some_0,
        reconnect_url: opt_text_field(s, "reconnect_url"@)->Some_0,
        recovery_url: opt_text_field(s, "recovery_url"@)->Some_0,
        status: text_field(s, "status"@)->Some_0,
    }
}

impl WelcomeSession {
    /// Reads a welcome session block out of its JSON object.
    pub fn decode(s: &Json) -> (r: Option<WelcomeSession>)
        ensures
            r is Some <==> welcome_session_ok(s@),
            r matches Some(x) ==> x@ == welcome_session_of(s@),
    {
        let ca_text = match s.get_text("connected_at") {
            Some(t) => t,
            None => return None,
        };
        let connected_at = match Timestamp::from_rfc3339(ca_text.as_str()) {
            Some(t) => t,
            None => return None,
        };
        let id = match s.get_text("id") {
            Some(t) => t.clone(),
            None => return None,
        };
        if s.get_field("keepalive_timeout_seconds").is_none() {
            return None;
        }
        let keepalive_timeout_seconds = match s.get_opt_u32("keepalive_timeout_seconds") {
            Some(Some(n)) => n,
            _ => return None,
        };
        let reconnect_url = match s.get_opt_text("reconnect_url") {
            Some(o) => o,
            None => return None,
        };
        let recovery_url = match s.get_opt_text("recovery_url") {
            Some(o) => o,
            None => return None,
        };
        let status = match s.get_text("status") {
            Some(t) => t.clone(),
            None => return None,
        };
        Some(WelcomeSession {
            connected_at,
            id,
            keepalive_timeout_seconds,
            reconnect_url,
            recovery_url,
            status,
        })
    }
}

/// Payload of a welcome frame.  A payload whose session member is absent or
/// null decodes, but carries no session to store.
#[derive(Debug)]
pub struct WelcomePayload {
    pub session: Option<WelcomeSession>,
}

/// Model of [`WelcomePayload`].
pub struct WelcomePayloadV {
    pub session: Option<WelcomeSessionV>,
}

impl View for WelcomePayload {
    type V = WelcomePayloadV;

    open spec fn view(&self) -> WelcomePayloadV {
        WelcomePayloadV {
            session: match self.session {
                Some(s) => Some(s@),
                None => None,
            },
        }
    }
}

/// A welcome payload is well-shaped when it is an object whose session
/// member, where present and not null, is a well-shaped session block.
pub open spec fn welcome_payload_ok(p: JsonV) -> bool {
    &&& p is Obj
    &&& match field_of(p, "session"@) {
        None => true,
        Some(JsonV::Null) => true,
        Some(s) => welcome_session_ok(s),
    }
}

/// The payload a well-shaped welcome payload object denotes.
pub open spec fn welcome_payload_of(p: JsonV) -> WelcomePayloadV {
    WelcomePayloadV {
        session: match field_of(p, "session"@) {
            None => None,
            Some(JsonV::Null) => None,
            Some(s) => Some(welcome_session_of(s)),
        },
    }
}

impl WelcomePayload {
    /// Reads a welcome payload out of its JSON object.
    pub fn decode(p: &Json) -> (r: Option<WelcomePayload>)
        ensures
            r is Some <==> welcome_payload_ok(p@),
            r matches Some(x) ==> x@ == welcome_payload_of(p@),
    {
        match p {
            Json::Obj(_) => {}
            _ => return None,
        }
        let session = match p.get_field("session") {
            None => None,
            Some(Json::Null) => None,
            Some(s) => match WelcomeSession::decode(s) {
                Some(x) => Some(x),
                None => return None,
            },
        };
        Some(WelcomePayload { session })
    }
}

/// A welcome frame.
#[derive(Debug)]
pub struct WelcomeMessage {
    pub metadata: WelcomeMetadata,
    pub payload: WelcomePayload,
}

/// Model of [`WelcomeMessage`].
pub struct WelcomeMessageV {
    pub metadata: WelcomeMetadataV,
    pub payload: WelcomePayloadV,
}

impl View for WelcomeMessage {
    type V = WelcomeMessageV;

    open spec fn view(&self) -> WelcomeMessageV {
        WelcomeMessageV { metadata: self.metadata@, payload: self.payload@ }
    }
}

/// The welcome metadata a frame's base metadata narrows to.
pub open spec fn welcome_metadata_of(m: BaseMetadataV) -> WelcomeMetadataV {
    WelcomeMetadataV {
        message_id: m.message_id,
        message_type: m.message_type,
        message_timestamp: m.message_timestamp,
    }
}

impl WelcomeMessage {
    /// Joins envelope metadata with a decoded welcome payload.
    pub fn from_base(metadata: BaseMetadata, payload: WelcomePayload) -> (r: Self)
        ensures
            r.metadata@ == welcome_metadata_of(metadata@),
            r.payload == payload,
    {
        WelcomeMessage { metadata: WelcomeMetadata::from(metadata), payload }
    }
}

} // verus!

//! The reconnect frame: an upstream instruction to move the session to a new
//! transport without interrupting delivery.

use vstd::prelude::*;

use crate::base::{BaseMetadata, BaseMetadataV};
use crate::ids::{MessageId, MessageIdV};
use crate::json::{field_of, opt_u32_field, text_field, Json, JsonV};
use crate::time::{rfc3339_millis, Timestamp};

verus! {

/// Metadata of a reconnect frame.
#[derive(Debug)]
pub struct ReconnectMetadata {
    pub message_id: MessageId,
    pub message_type: String,
    pub message_timestamp: Timestamp,
}

/// Model of [`ReconnectMetadata`].
pub struct ReconnectMetadataV {
    pub message_id: MessageIdV,
    pub message_type: Seq<char>,
    pub message_timestamp: Timestamp,
}

impl View for ReconnectMetadata {
    type V = ReconnectMetadataV;

    open spec fn view(&self) -> ReconnectMetadataV {
        ReconnectMetadataV {
            message_id: self.message_id@,
            message_type: self.message_type@,
            message_timestamp: self.message_timestamp,
        }
    }
}

impl From<BaseMetadata> for ReconnectMetadata {
    fn from(metadata: BaseMetadata) -> (r: Self) {
        ReconnectMetadata {
            message_id: metadata.message_id,
            message_type: metadata.message_type,
            message_timestamp: metadata.message_timestamp,
        }
    }
}

impl vstd::std_specs::convert::FromSpecImpl<BaseMetadata> for ReconnectMetadata {
    open spec fn obeys_from_spec() -> bool {
        true
    }

    open spec fn from_spec(m: BaseMetadata) -> Self {
        ReconnectMetadata {
            message_id: m.message_id,
            message_type: m.message_type,
            message_timestamp: m.message_timestamp,
        }
    }
}

/// The session block of a reconnect payload.  `reconnect_url` is the address
/// the controller must move to, used as given.
#[derive(Debug)]
pub struct ReconnectSession {
    pub id: String,
    pub status: String,
    pub keepalive_timeout_seconds: Option<u32>,
    pub reconnect_url: String,
    pub connected_at: Timestamp,
}

/// Model of [`ReconnectSession`].
pub struct ReconnectSessionV {
    pub id: Seq<char>,
    pub status: Seq<char>,
    pub keepalive_timeout_seconds: Option<u32>,
    pub reconnect_url: Seq<char>,
    pub connected_at: Timestamp,
}

impl View for ReconnectSession {
    type V = ReconnectSessionV;

    open spec fn view(&self) -> ReconnectSessionV {
        ReconnectSessionV {
            id: self.id@,
            status: self.status@,
            keepalive_timeout_seconds: self.keepalive_timeout_seconds,
            reconnect_url: self.reconnect_url@,
            connected_at: self.connected_at,
        }
    }
}

/// A reconnect session object is well-shaped when its identifier, status and
/// reconnect address are text, its keepalive timeout, where present, fits in
/// a `u32`, and its creation time reads as RFC 3339.
pub open spec fn reconnect_session_ok(s: JsonV) -> bool {
    &&& text_field(s, "id"@) is Some
    &&& text_field(s, "status"@) is Some
    &&& opt_u32_field(s, "keepalive_timeout_seconds"@) is Some
    &&& text_field(s, "reconnect_url"@) is Some
    &&& text_field(s, "connected_at"@) is Some
    &&& rfc3339_millis(text_field(s, "connected_at"@)->Some_0) is Some
}

/// The session a well-shaped reconnect session object denotes.
pub open spec fn reconnect_session_of(s: JsonV) -> ReconnectSessionV {
    ReconnectSessionV {
        id: text_field(s, "id"@)->Some_0,
        status: text_field(s, "status"@)->Some_0,
        keepalive_timeout_seconds: opt_u32_field(s, "keepalive_timeout_seconds"@)->Some_0,
        reconnect_url: text_field(s, "reconnect_url"@)->Some_0,
        connected_at: Timestamp {
            millis: rfc3339_millis(text_field(s, "connected_at"@)->Some_0)->Some_0,
        },
    }
}

impl ReconnectSession {
    /// Reads a reconnect session block out of its JSON object.
    pub fn decode(s: &Json) -> (r: Option<ReconnectSession>)
        ensures
            r is Some <==> reconnect_session_ok(s@),
            r matches Some(x) ==> x@ == reconnect_session_of(s@),
    {
        let id = match s.get_text("id") {
            Some(t) => t.clone(),
            None => return None,
        };
        let status = match s.get_text("status") {
            Some(t) => t.clone(),
            None => return None,
        };
        let keepalive_timeout_seconds = match s.get_opt_u32("keepalive_timeout_seconds") {
            Some(o) => o,
            None => return None,
        };
        let reconnect_url = match s.get_text("reconnect_url") {
            Some(t) => t.clone(),
            None => return None,
        };
        let ca_text = match s.get_text("connected_at") {
            Some(t) => t,
            None => return None,
        };
        let connected_at = match Timestamp::from_rfc3339(ca_text.as_str()) {
            Some(t) => t,
            None => return None,
        };
        Some(ReconnectSession { id, status, keepalive_timeout_seconds, reconnect_url, connected_at })
    }
}

/// Payload of a reconnect frame; the session block is mandatory.
#[derive(Debug)]
pub struct ReconnectPayload {
    pub session: ReconnectSession,
}

/// Model of [`ReconnectPayload`].
pub struct ReconnectPayloadV {
    pub session: ReconnectSessionV,
}

impl View for ReconnectPayload {
    type V = ReconnectPayloadV;

    open spec fn view(&self) -> ReconnectPayloadV {
        ReconnectPayloadV { session: self.session@ }
    }
}

/// A reconnect payload is well-shaped when it carries a well-shaped session
/// block.
pub open spec fn reconnect_payload_ok(p: JsonV) -> bool {
    &&& field_of(p, "session"@) is Some
    &&& reconnect_session_ok(field_of(p, "session"@)->Some_0)
}

/// The payload a well-shaped reconnect payload object denotes.
pub open spec fn reconnect_payload_of(p: JsonV) -> ReconnectPayloadV {
    ReconnectPayloadV { session: reconnect_session_of(field_of(p, "session"@)->Some_0) }
}

impl ReconnectPayload {
    /// Reads a reconnect payload out of its JSON object.
    pub fn decode(p: &Json) -> (r: Option<ReconnectPayload>)
        ensures
            r is Some <==> reconnect_payload_ok(p@),
            r matches Some(x) ==> x@ == reconnect_payload_of(p@),
    {
        let s = match p.get_field("session") {
            Some(v) => v,
            None => return None,
        };
        let session = match ReconnectSession::decode(s) {
            Some(x) => x,
            None => return None,
        };
        Some(ReconnectPayload { session })
    }
}

/// A reconnect frame.
#[derive(Debug)]
pub struct ReconnectMessage {
    pub metadata: ReconnectMetadata,
    pub payload: ReconnectPayload,
}

/// Model of [`ReconnectMessage`].
pub struct ReconnectMessageV {
    pub metadata: ReconnectMetadataV,
    pub payload: ReconnectPayloadV,
}

impl View for ReconnectMessage {
    type V = ReconnectMessageV;

    open spec fn view(&self) -> ReconnectMessageV {
        ReconnectMessageV { metadata: self.metadata@, payload: self.payload@ }
    }
}

/// The reconnect metadata a frame's base metadata narrows to.
pub open spec fn reconnect_metadata_of(m: BaseMetadataV) -> ReconnectMetadataV {
    ReconnectMetadataV {
        message_id: m.message_id,
        message_type: m.message_type,
        message_timestamp: m.message_timestamp,
    }
}

impl ReconnectMessage {
    /// Joins envelope metadata with a decoded reconnect payload.
    pub fn from_base(metadata: BaseMetadata, payload: ReconnectPayload) -> (r: Self)
        ensures
            r.metadata@ == reconnect_metadata_of(metadata@),
            r.payload == payload,
    {
        ReconnectMessage { metadata: ReconnectMetadata::from(metadata), payload }
    }
}

} // verus!

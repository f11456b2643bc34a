//! The keepalive frame: a heartbeat with no payload of interest.

use vstd::prelude::*;

use crate::base::{BaseMetadata, BaseMetadataV};
use crate::ids::{MessageId, MessageIdV};
use crate::json::{field_of, Json, JsonV};
use crate::time::Timestamp;

verus! {

/// The (empty) session block a keepalive payload may carry.
#[derive(Clone, Copy, PartialEq, Eq, Structural, Debug)]
pub struct KeepaliveSession {}

/// Metadata of a keepalive frame.
#[derive(Debug)]
pub struct KeepaliveMetadata {
    pub message_id: MessageId,
    pub message_type: String,
    pub message_timestamp: Timestamp,
}

/// Model of [`KeepaliveMetadata`].
pub struct KeepaliveMetadataV {
    pub message_id: MessageIdV,
    pub message_type: Seq<char>,
    pub message_timestamp: Timestamp,
}

impl View for KeepaliveMetadata {
    type V = KeepaliveMetadataV;

    open spec fn view(&self) -> KeepaliveMetadataV {
        KeepaliveMetadataV {
            message_id: self.message_id@,
            message_type: self.message_type@,
            message_timestamp: self.message_timestamp,
        }
    }
}

impl From<BaseMetadata> for KeepaliveMetadata {
    fn from(metadata: BaseMetadata) -> (r: Self) {
        KeepaliveMetadata {
            message_id: metadata.message_id,
            message_type: metadata.message_type,
            message_timestamp: metadata.message_timestamp,
        }
    }
}

impl vstd::std_specs::convert::FromSpecImpl<BaseMetadata> for KeepaliveMetadata {
    open spec fn obeys_from_spec() -> bool {
        true
    }

    open spec fn from_spec(m: BaseMetadata) -> Self {
        KeepaliveMetadata {
            message_id: m.message_id,
            message_type: m.message_type,
            message_timestamp: m.message_timestamp,
        }
    }
}

/// Payload of a keepalive frame.
#[derive(Debug)]
pub struct KeepalivePayload {
    pub session: Option<KeepaliveSession>,
}

/// Model of [`KeepalivePayload`].
pub struct KeepalivePayloadV {
    pub session: Option<KeepaliveSession>,
}

impl View for KeepalivePayload {
    type V = KeepalivePayloadV;

    open spec fn view(&self) -> KeepalivePayloadV {
        KeepalivePayloadV { session: self.session }
    }
}

/// A keepalive payload is well-shaped when it is an object whose session
/// member, where present and not null, is an object (its contents are of no
/// interest).
pub open spec fn keepalive_payload_ok(p: JsonV) -> bool {
    &&& p is Obj
    &&& match field_of(p, "session"@) {
        None => true,
        Some(JsonV::Null) => true,
        Some(s) => s is Obj,
    }
}

/// The payload a well-shaped keepalive payload object denotes.
pub open spec fn keepalive_payload_of(p: JsonV) -> KeepalivePayloadV {
    KeepalivePayloadV {
        session: match field_of(p, "session"@) {
            None => None,
            Some(JsonV::Null) => None,
            Some(_) => Some(KeepaliveSession {}),
        },
    }
}

impl KeepalivePayload {
    /// Reads a keepalive payload out of its JSON object.
    pub fn decode(p: &Json) -> (r: Option<KeepalivePayload>)
        ensures
            r is Some <==> keepalive_payload_ok(p@),
            r matches Some(x) ==> x@ == keepalive_payload_of(p@),
    {
        match p {
            Json::Obj(_) => {}
            _ => return None,
        }
        let session = match p.get_field("session") {
            None => None,
            Some(Json::Null) => None,
            Some(Json::Obj(_)) => Some(KeepaliveSession {}),
            Some(_) => return None,
        };
        Some(KeepalivePayload { session })
    }
}

/// A keepalive frame.
#[derive(Debug)]
pub struct KeepaliveMessage {
    pub metadata: KeepaliveMetadata,
    pub payload: KeepalivePayload,
}

/// Model of [`KeepaliveMessage`].
pub struct KeepaliveMessageV {
    pub metadata: KeepaliveMetadataV,
    pub payload: KeepalivePayloadV,
}

impl View for KeepaliveMessage {
    type V = KeepaliveMessageV;

    open spec fn view(&self) -> KeepaliveMessageV {
        KeepaliveMessageV { metadata: self.metadata@, payload: self.payload@ }
    }
}

/// The keepalive metadata a frame's base metadata narrows to.
pub open spec fn keepalive_metadata_of(m: BaseMetadataV) -> KeepaliveMetadataV {
    KeepaliveMetadataV {
        message_id: m.message_id,
        message_type: m.message_type,
        message_timestamp: m.message_timestamp,
    }
}

impl KeepaliveMessage {
    /// Joins envelope metadata with a decoded keepalive payload.
    pub fn from_base(metadata: BaseMetadata, payload: KeepalivePayload) -> (r: Self)
        ensures
            r.metadata@ == keepalive_metadata_of(metadata@),
            r.payload == payload,
    {
        KeepaliveMessage { metadata: KeepaliveMetadata::from(metadata), payload }
    }
}

} // verus!

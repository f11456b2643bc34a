//! The outer envelope shared by every frame: a metadata block and a deferred
//! payload, plus the subscription record some payloads embed.

use vstd::prelude::*;

use crate::ids::{message_id_spec, uuid_canonical, MessageId, MessageIdV};
use crate::json::{
    field_of, opt_text_field, opt_text_view, text_field, u32_field, Json, JsonV,
};
use crate::time::{rfc3339_millis, Timestamp};

verus! {

/// The metadata block every frame carries.  The two subscription members are
/// present only on notification and revocation frames.
#[derive(Debug)]
pub struct BaseMetadata {
    pub message_id: MessageId,
    pub message_type: String,
    pub message_timestamp: Timestamp,
    pub subscription_type: Option<String>,
    pub subscription_version: Option<String>,
}

/// Model of [`BaseMetadata`].
pub struct BaseMetadataV {
    pub message_id: MessageIdV,
    pub message_type: Seq<char>,
    pub message_timestamp: Timestamp,
    pub subscription_type: Option<Seq<char>>,
    pub subscription_version: Option<Seq<char>>,
}

impl View for BaseMetadata {
    type V = BaseMetadataV;

    open spec fn view(&self) -> BaseMetadataV {
        BaseMetadataV {
            message_id: self.message_id@,
            message_type: self.message_type@,
            message_timestamp: self.message_timestamp,
            subscription_type: opt_text_view(self.subscription_type),
            subscription_version: opt_text_view(self.subscription_version),
        }
    }
}

/// A metadata object is well-shaped when its identifier, discriminator and
/// timestamp are text, the timestamp reads as RFC 3339, and the subscription
/// members, where present, are text.
pub open spec fn metadata_ok(m: JsonV) -> bool {
    &&& text_field(m, "message_id"@) is Some
    &&& text_field(m, "message_type"@) is Some
    &&& text_field(m, "message_timestamp"@) is Some
    &&& rfc3339_millis(text_field(m, "message_timestamp"@)->Some_0) is Some
    &&& opt_text_field(m, "subscription_type"@) is Some
    &&& opt_text_field(m, "subscription_version"@) is Some
}

/// The metadata a well-shaped metadata object denotes.
pub open spec fn metadata_of(m: JsonV) -> BaseMetadataV {
    BaseMetadataV {
        message_id: message_id_spec(text_field(m, "message_id"@)->Some_0),
        message_type: text_field(m, "message_type"@)->Some_0,
        message_timestamp: Timestamp {
            millis: rfc3339_millis(text_field(m, "message_timestamp"@)->Some_0)->Some_0,
        },
        subscription_type: opt_text_field(m, "subscription_type"@)->Some_0,
        subscription_version: opt_text_field(m, "subscription_version"@)->Some_0,
    }
}

impl BaseMetadata {
    /// Reads the metadata block out of its JSON object.
    pub fn decode(m: &Json) -> (r: Option<BaseMetadata>)
        ensures
            r is Some <==> metadata_ok(m@),
            r matches Some(md) ==> md@ == metadata_of(m@),
    {
        let id = match m.get_text("message_id") {
            Some(s) => s.clone(),
            None => return None,
        };
        let mt = match m.get_text("message_type") {
            Some(s) => s.clone(),
            None => return None,
        };
        let ts_text = match m.get_text("message_timestamp") {
            Some(s) => s,
            None => return None,
        };
        let ts = match Timestamp::from_rfc3339(ts_text.as_str()) {
            Some(t) => t,
            None => return None,
        };
        let st = match m.get_opt_text("subscription_type") {
            Some(o) => o,
            None => return None,
        };
        let sv = match m.get_opt_text("subscription_version") {
            Some(o) => o,
            None => return None,
        };
        Some(BaseMetadata {
            message_id: MessageId::from_string(id),
            message_type: mt,
            message_timestamp: ts,
            subscription_type: st,
            subscription_version: sv,
        })
    }
}

/// A frame as first decoded: its metadata, and a payload whose decoding is
/// deferred until the discriminator is known.
#[derive(Debug)]
pub struct BaseEventMessage<T> {
    pub metadata: BaseMetadata,
    pub payload: T,
}

/// An envelope is well-shaped when it carries a well-shaped metadata object
/// and a payload member of any shape.
pub open spec fn envelope_ok(j: JsonV) -> bool {
    &&& field_of(j, "metadata"@) is Some
    &&& metadata_ok(field_of(j, "metadata"@)->Some_0)
    &&& field_of(j, "payload"@) is Some
}

/// The metadata of a well-shaped envelope.
pub open spec fn envelope_metadata(j: JsonV) -> BaseMetadataV {
    metadata_of(field_of(j, "metadata"@)->Some_0)
}

/// The deferred payload of a well-shaped envelope.
pub open spec fn envelope_payload(j: JsonV) -> JsonV {
    field_of(j, "payload"@)->Some_0
}

impl BaseEventMessage<Json> {
    /// First decode phase: reads the envelope, leaving the payload untyped.
    pub fn decode(j: &Json) -> (r: Option<BaseEventMessage<Json>>)
        ensures
            r is Some <==> envelope_ok(j@),
            r matches Some(env) ==> env.metadata@ == envelope_metadata(j@)
                && env.payload@ == envelope_payload(j@),
    {
        let m = match j.get_field("metadata") {
            Some(v) => v,
            None => return None,
        };
        let md = match BaseMetadata::decode(m) {
            Some(x) => x,
            None => return None,
        };
        let p = match j.get_field("payload") {
            Some(v) => v,
            None => return None,
        };
        Some(BaseEventMessage { metadata: md, payload: p.duplicate() })
    }
}

/// The transport block of a subscription record.
#[derive(Debug)]
pub struct Transport {
    pub method: String,
    pub session_id: String,
}

/// Model of [`Transport`].
pub struct TransportV {
    pub method: Seq<char>,
    pub session_id: Seq<char>,
}

impl View for Transport {
    type V = TransportV;

    open spec fn view(&self) -> TransportV {
        TransportV { method: self.method@, session_id: self.session_id@ }
    }
}

/// A transport object is well-shaped when both its members are text.
pub open spec fn transport_ok(t: JsonV) -> bool {
    &&& text_field(t, "method"@) is Some
    &&& text_field(t, "session_id"@) is Some
}

/// The transport a well-shaped transport object denotes.
pub open spec fn transport_of(t: JsonV) -> TransportV {
    TransportV {
        method: text_field(t, "method"@)->Some_0,
        session_id: text_field(t, "session_id"@)->Some_0,
    }
}

impl Transport {
    /// Reads a transport block out of its JSON object.
    pub fn decode(t: &Json) -> (r: Option<Transport>)
        ensures
            r is Some <==> transport_ok(t@),
            r matches Some(x) ==> x@ == transport_of(t@),
    {
        let method = match t.get_text("method") {
            Some(s) => s.clone(),
            None => return None,
        };
        let session_id = match t.get_text("session_id") {
            Some(s) => s.clone(),
            None => return None,
        };
        Some(Transport { method, session_id })
    }
}

/// The subscription record embedded in notification and revocation payloads.
/// `id` is kept in canonical UUID form; `condition` is kept as the raw
/// structured value it arrived as.
#[derive(Debug)]
pub struct Subscription {
    pub id: String,
    pub status: String,
    pub sub_type: String,
    pub version: String,
    pub cost: u32,
    pub condition: Json,
    pub transport: Transport,
    pub created_at: Timestamp,
}

/// Model of [`Subscription`].
pub struct SubscriptionV {
    pub id: Seq<char>,
    pub status: Seq<char>,
    pub sub_type: Seq<char>,
    pub version: Seq<char>,
    pub cost: u32,
    pub condition: JsonV,
    pub transport: TransportV,
    pub created_at: Timestamp,
}

impl View for Subscription {
    type V = SubscriptionV;

    open spec fn view(&self) -> SubscriptionV {
        SubscriptionV {
            id: self.id@,
            status: self.status@,
            sub_type: self.sub_type@,
            version: self.version@,
            cost: self.cost,
            condition: self.condition@,
            transport: self.transport@,
            created_at: self.created_at,
        }
    }
}

/// A subscription object is well-shaped when its identifier is a UUID text,
/// its `type` member names the event category, its cost fits in a `u32`, a
/// condition of any shape is present, its transport block is well-shaped, and
/// its creation time reads as RFC 3339.
pub open spec fn subscription_ok(s: JsonV) -> bool {
    &&& text_field(s, "id"@) is Some
    &&& uuid_canonical(text_field(s, "id"@)->Some_0) is Some
    &&& text_field(s, "status"@) is Some
    &&& text_field(s, "type"@) is Some
    &&& text_field(s, "version"@) is Some
    &&& u32_field(s, "cost"@) is Some
    &&& field_of(s, "condition"@) is Some
    &&& field_of(s, "transport"@) is Some
    &&& transport_ok(field_of(s, "transport"@)->Some_0)
    &&& text_field(s, "created_at"@) is Some
    &&& rfc3339_millis(text_field(s, "created_at"@)->Some_0) is Some
}

/// The record a well-shaped subscription object denotes.
pub open spec fn subscription_of(s: JsonV) -> SubscriptionV {
    SubscriptionV {
        id: uuid_canonical(text_field(s, "id"@)->Some_0)->Some_0,
        status: text_field(s, "status"@)->Some_0,
        sub_type: text_field(s, "type"@)->Some_0,
        version: text_field(s, "version"@)->Some_0,
        cost: u32_field(s, "cost"@)->Some_0,
        condition: field_of(s, "condition"@)->Some_0,
        transport: transport_of(field_of(s, "transport"@)->Some_0),
        created_at: Timestamp {
            millis: rfc3339_millis(text_field(s, "created_at"@)->Some_0)->Some_0,
        },
    }
}

impl Subscription {
    /// Reads a subscription record out of its JSON object.
    pub fn decode(s: &Json) -> (r: Option<Subscription>)
        ensures
            r is Some <==> subscription_ok(s@),
            r matches Some(x) ==> x@ == subscription_of(s@),
    {
        let id_text = match s.get_text("id") {
            Some(t) => t,
            None => return None,
        };
        let id = match MessageId::from_string(id_text.clone()) {
            MessageId::UuidId(c) => c,
            MessageId::StringId(_) => return None,
        };
        let status = match s.get_text("status") {
            Some(t) => t.clone(),
            None => return None,
        };
        let sub_type = match s.get_text("type") {
            Some(t) => t.clone(),
            None => return None,
        };
        let version = match s.get_text("version") {
            Some(t) => t.clone(),
            None => return None,
        };
        let cost = match s.get_u32("cost") {
            Some(c) => c,
            None => return None,
        };
        let condition = match s.get_field("condition") {
            Some(c) => c.duplicate(),
            None => return None,
        };
        let transport = match s.get_field("transport") {
            Some(t) => match Transport::decode(t) {
                Some(x) => x,
                None => return None,
            },
            None => return None,
        };
        let ca_text = match s.get_text("created_at") {
            Some(t) => t,
            None => return None,
        };
        let created_at = match Timestamp::from_rfc3339(ca_text.as_str()) {
            Some(t) => t,
            None => return None,
        };
        Some(Subscription { id, status, sub_type, version, cost, condition, transport, created_at })
    }
}

} // verus!

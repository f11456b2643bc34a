//! The revocation frame: notice that a previously granted subscription is no
//! longer active.  Log-level information; no state changes follow from it.

use vstd::prelude::*;

use crate::base::{
    subscription_of, subscription_ok, BaseMetadata, BaseMetadataV, Subscription, SubscriptionV,
};
use crate::errors::{DecodeError, DecodeErrorV, MessageKind};
use crate::ids::{MessageId, MessageIdV};
use crate::json::{field_of, Json, JsonV};
use crate::time::Timestamp;

verus! {

/// Metadata of a revocation frame; the subscription members are mandatory
/// here.
#[derive(Debug)]
pub struct RevocationMetadata {
    pub message_id: MessageId,
    pub message_type: String,
    pub message_timestamp: Timestamp,
    pub subscription_type: String,
    pub subscription_version: String,
}

/// Model of [`RevocationMetadata`].
pub struct RevocationMetadataV {
    pub message_id: MessageIdV,
    pub message_type: Seq<char>,
    pub message_timestamp: Timestamp,
    pub subscription_type: Seq<char>,
    pub subscription_version: Seq<char>,
}

impl View for RevocationMetadata {
    type V = RevocationMetadataV;

    open spec fn view(&self) -> RevocationMetadataV {
        RevocationMetadataV {
            message_id: self.message_id@,
            message_type: self.message_type@,
            message_timestamp: self.message_timestamp,
            subscription_type: self.subscription_type@,
            subscription_version: self.subscription_version@,
        }
    }
}

/// Payload of a revocation frame.
#[derive(Debug)]
pub struct RevocationPayload {
    pub subscription: Subscription,
}

/// Model of [`RevocationPayload`].
pub struct RevocationPayloadV {
    pub subscription: SubscriptionV,
}

impl View for RevocationPayload {
    type V = RevocationPayloadV;

    open spec fn view(&self) -> RevocationPayloadV {
        RevocationPayloadV { subscription: self.subscription@ }
    }
}

/// A revocation payload is well-shaped when it carries a well-shaped
/// subscription record.
pub open spec fn revocation_payload_ok(p: JsonV) -> bool {
    &&& field_of(p, "subscription"@) is Some
    &&& subscription_ok(field_of(p, "subscription"@)->Some_0)
}

/// The payload a well-shaped revocation payload object denotes.
pub open spec fn revocation_payload_of(p: JsonV) -> RevocationPayloadV {
    RevocationPayloadV { subscription: subscription_of(field_of(p, "subscription"@)->Some_0) }
}

impl RevocationPayload {
    /// Reads a revocation payload out of its JSON object.
    pub fn decode(p: &Json) -> (r: Option<RevocationPayload>)
        ensures
            r is Some <==> revocation_payload_ok(p@),
            r matches Some(x) ==> x@ == revocation_payload_of(p@),
    {
        let s = match p.get_field("subscription") {
            Some(v) => v,
            None => return None,
        };
        let subscription = match Subscription::decode(s) {
            Some(x) => x,
            None => return None,
        };
        Some(RevocationPayload { subscription })
    }
}

/// A revocation frame.
#[derive(Debug)]
pub struct RevocationMessage {
    pub metadata: RevocationMetadata,
    pub payload: RevocationPayload,
}

/// Model of [`RevocationMessage`].
pub struct RevocationMessageV {
    pub metadata: RevocationMetadataV,
    pub payload: RevocationPayloadV,
}

impl View for RevocationMessage {
    type V = RevocationMessageV;

    open spec fn view(&self) -> RevocationMessageV {
        RevocationMessageV { metadata: self.metadata@, payload: self.payload@ }
    }
}

/// Whether base metadata carries the subscription members a revocation frame
/// requires.
pub open spec fn revocation_metadata_ok(m: BaseMetadataV) -> bool {
    &&& m.subscription_type is Some
    &&& m.subscription_version is Some
}

/// The revocation metadata well-carrying base metadata narrows to.
pub open spec fn revocation_metadata_of(m: BaseMetadataV) -> RevocationMetadataV {
    RevocationMetadataV {
        message_id: m.message_id,
        message_type: m.message_type,
        message_timestamp: m.message_timestamp,
        subscription_type: m.subscription_type->Some_0,
        subscription_version: m.subscription_version->Some_0,
    }
}

impl RevocationMessage {
    /// Joins envelope metadata with a decoded revocation payload; fails when
    /// the metadata lacks either subscription member.
    pub fn from_base(metadata: BaseMetadata, payload: RevocationPayload) -> (r: Result<
        Self,
        DecodeError,
    >)
        ensures
            r is Ok <==> revocation_metadata_ok(metadata@),
            r matches Ok(m) ==> m.metadata@ == revocation_metadata_of(metadata@)
                && m.payload == payload,
            r matches Err(e) ==> e@ == DecodeErrorV::Malformed(MessageKind::Revocation),
    {
        let subscription_type = match metadata.subscription_type {
            Some(s) => s,
            None => {
                return Err(DecodeError::Malformed(
                    MessageKind::Revocation,
                    "revocation metadata lacks subscription_type".to_owned(),
                ));
            }
        };
        let subscription_version = match metadata.subscription_version {
            Some(s) => s,
            None => {
                return Err(DecodeError::Malformed(
                    MessageKind::Revocation,
                    "revocation metadata lacks subscription_version".to_owned(),
                ));
            }
        };
        Ok(RevocationMessage {
            metadata: RevocationMetadata {
                message_id: metadata.message_id,
                message_type: metadata.message_type,
                message_timestamp: metadata.message_timestamp,
                subscription_type,
                subscription_version,
            },
            payload,
        })
    }
}

} // verus!

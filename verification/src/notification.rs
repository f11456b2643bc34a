//! The notification frame: a subscription record plus the event it delivers.
//! The event is decoded by its category; events of categories this library
//! does not model are preserved opaquely, never rejected.

use vstd::prelude::*;

pub use crate::base::{Subscription, Transport};

use crate::base::{subscription_of, subscription_ok, BaseMetadata, BaseMetadataV, SubscriptionV};
use crate::chat::{ChannelChatMessage, NotificationEvent, NotificationEventV};
use crate::chat_decode::{ccm_of, ccm_ok};
use crate::ids::{MessageId, MessageIdV};
use crate::json::{field_of, str_eq, Json, JsonV};
use crate::time::Timestamp;

verus! {

/// Metadata of a notification frame; the subscription members are mandatory
/// here.
#[derive(Debug)]
pub struct NotificationMetadata {
    pub message_id: MessageId,
    pub message_type: String,
    pub message_timestamp: Timestamp,
    pub subscription_type: String,
    pub subscription_version: String,
}

/// Model of [`NotificationMetadata`].
pub struct NotificationMetadataV {
    pub message_id: MessageIdV,
    pub message_type: Seq<char>,
    pub message_timestamp: Timestamp,
    pub subscription_type: Seq<char>,
    pub subscription_version: Seq<char>,
}

impl View for NotificationMetadata {
    type V = NotificationMetadataV;

    open spec fn view(&self) -> NotificationMetadataV {
        NotificationMetadataV {
            message_id: self.message_id@,
            message_type: self.message_type@,
            message_timestamp: self.message_timestamp,
            subscription_type: self.subscription_type@,
            subscription_version: self.subscription_version@,
        }
    }
}

/// Whether base metadata carries the subscription members a notification
/// frame requires.
pub open spec fn notification_metadata_ok(m: BaseMetadataV) -> bool {
    &&& m.subscription_type is Some
    &&& m.subscription_version is Some
}

/// The notification metadata well-carrying base metadata narrows to.
pub open spec fn notification_metadata_of(m: BaseMetadataV) -> NotificationMetadataV {
    NotificationMetadataV {
        message_id: m.message_id,
        message_type: m.message_type,
        message_timestamp: m.message_timestamp,
        subscription_type: m.subscription_type->Some_0,
        subscription_version: m.subscription_version->Some_0,
    }
}

/// The category whose events this library decodes in full.
pub open spec fn chat_category() -> Seq<char> {
    "channel.chat.message"@
}

/// The event a raw event value denotes under a subscription category: the
/// fully decoded chat message for the chat category, the raw value otherwise.
pub open spec fn event_spec(sub_type: Seq<char>, e: JsonV) -> Option<NotificationEventV> {
    if sub_type == chat_category() {
        if ccm_ok(e) {
            Some(NotificationEventV::ChannelChatMessage(ccm_of(e)))
        } else {
            None
        }
    } else {
        Some(NotificationEventV::Other(e))
    }
}

/// Payload of a notification frame.
#[derive(Debug)]
pub struct NotificationPayload {
    pub subscription: Subscription,
    pub event: NotificationEvent,
}

/// Model of [`NotificationPayload`].
pub struct NotificationPayloadV {
    pub subscription: SubscriptionV,
    pub event: NotificationEventV,
}

impl View for NotificationPayload {
    type V = NotificationPayloadV;

    open spec fn view(&self) -> NotificationPayloadV {
        NotificationPayloadV { subscription: self.subscription@, event: self.event@ }
    }
}

/// A notification payload is well-shaped when it carries a well-shaped
/// subscription record and an event member that decodes under the record's
/// category.
pub open spec fn notification_payload_ok(p: JsonV) -> bool {
    &&& field_of(p, "subscription"@) is Some
    &&& subscription_ok(field_of(p, "subscription"@)->Some_0)
    &&& field_of(p, "event"@) is Some
    &&& event_spec(
        subscription_of(field_of(p, "subscription"@)->Some_0).sub_type,
        field_of(p, "event"@)->Some_0,
    ) is Some
}

/// The payload a well-shaped notification payload object denotes.
pub open spec fn notification_payload_of(p: JsonV) -> NotificationPayloadV {
    NotificationPayloadV {
        subscription: subscription_of(field_of(p, "subscription"@)->Some_0),
        event: event_spec(
            subscription_of(field_of(p, "subscription"@)->Some_0).sub_type,
            field_of(p, "event"@)->Some_0,
        )->Some_0,
    }
}

impl NotificationPayload {
    /// Second decode phase for notifications: reads the subscription record,
    /// then the event under the record's category.
    pub fn decode(p: &Json) -> (r: Option<NotificationPayload>)
        ensures
            r is Some <==> notification_payload_ok(p@),
            r matches Some(x) ==> x@ == notification_payload_of(p@),
    {
        let s = match p.get_field("subscription") {
            Some(v) => v,
            None => return None,
        };
        let subscription = match Subscription::decode(s) {
            Some(x) => x,
            None => return None,
        };
        let e = match p.get_field("event") {
            Some(v) => v,
            None => return None,
        };
        let event = if str_eq(subscription.sub_type.as_str(), "channel.chat.message") {
            match ChannelChatMessage::decode(e) {
                Some(c) => NotificationEvent::ChannelChatMessage(Box::new(c)),
                None => return None,
            }
        } else {
            NotificationEvent::Other(e.duplicate())
        };
        Some(NotificationPayload { subscription, event })
    }
}

/// A notification frame.
#[derive(Debug)]
pub struct NotificationMessage {
    pub metadata: NotificationMetadata,
    pub payload: NotificationPayload,
}

/// Model of [`NotificationMessage`].
pub struct NotificationMessageV {
    pub metadata: NotificationMetadataV,
    pub payload: NotificationPayloadV,
}

impl View for NotificationMessage {
    type V = NotificationMessageV;

    open spec fn view(&self) -> NotificationMessageV {
        NotificationMessageV { metadata: self.metadata@, payload: self.payload@ }
    }
}

impl NotificationMessage {
    /// Joins envelope metadata with a decoded notification payload.  The
    /// metadata must carry both subscription members; the classifier checks
    /// this before building the frame.
    pub fn from_base(metadata: BaseMetadata, payload: NotificationPayload) -> (r: Self)
        requires
            metadata@.subscription_type is Some,
            metadata@.subscription_version is Some,
        ensures
            r.metadata@ == notification_metadata_of(metadata@),
            r.payload == payload,
    {
        let subscription_type = match metadata.subscription_type {
            Some(s) => s,
            None => unreached(),
        };
        let subscription_version = match metadata.subscription_version {
            Some(s) => s,
            None => unreached(),
        };
        NotificationMessage {
            metadata: NotificationMetadata {
                message_id: metadata.message_id,
                message_type: metadata.message_type,
                message_timestamp: metadata.message_timestamp,
                subscription_type,
                subscription_version,
            },
            payload,
        }
    }
}

} // verus!

//! The message classifier: one raw text frame in, one typed frame out.
//!
//! Classification dispatches on the `message_type` discriminator.  The five
//! recognized discriminators decode to their variants, and a structurally
//! invalid payload under any of them is an error; any other discriminator
//! yields [`EventMessage::Unrecognized`], never an error, whatever its
//! payload holds.

use vstd::prelude::*;

use crate::base::{envelope_metadata, envelope_ok, envelope_payload, BaseEventMessage};
use crate::errors::{DecodeError, DecodeErrorV, MessageKind};
use crate::json::{json_text, parse_json, str_eq, Json, JsonV};
use crate::keepalive::{
    keepalive_metadata_of, keepalive_payload_of, keepalive_payload_ok, KeepaliveMessage,
    KeepaliveMessageV, KeepalivePayload,
};
use crate::notification::{
    notification_metadata_of, notification_metadata_ok, notification_payload_of,
    notification_payload_ok, NotificationMessage, NotificationMessageV, NotificationPayload,
};
use crate::reconnect::{
    reconnect_metadata_of, reconnect_payload_of, reconnect_payload_ok, ReconnectMessage,
    ReconnectMessageV, ReconnectPayload,
};
use crate::revocation::{
    revocation_metadata_of, revocation_metadata_ok, revocation_payload_of, revocation_payload_ok,
    RevocationMessage, RevocationMessageV, RevocationPayload,
};
use crate::welcome::{
    welcome_metadata_of, welcome_payload_of, welcome_payload_ok, WelcomeMessage, WelcomeMessageV,
    WelcomePayload,
};

verus! {

/// A classified frame: one of the five recognized kinds, or the catch-all
/// for a discriminator outside the closed set.
#[derive(Debug)]
pub enum EventMessage {
    Welcome(WelcomeMessage),
    Keepalive(KeepaliveMessage),
    Notification(NotificationMessage),
    Reconnect(ReconnectMessage),
    Revocation(RevocationMessage),
    Unrecognized,
}

/// Model of [`EventMessage`].
pub enum EventMessageV {
    Welcome(WelcomeMessageV),
    Keepalive(KeepaliveMessageV),
    Notification(NotificationMessageV),
    Reconnect(ReconnectMessageV),
    Revocation(RevocationMessageV),
    Unrecognized,
}

impl View for EventMessage {
    type V = EventMessageV;

    open spec fn view(&self) -> EventMessageV {
        match self {
            EventMessage::Welcome(m) => EventMessageV::Welcome(m@),
            EventMessage::Keepalive(m) => EventMessageV::Keepalive(m@),
            EventMessage::Notification(m) => EventMessageV::Notification(m@),
            EventMessage::Reconnect(m) => EventMessageV::Reconnect(m@),
            EventMessage::Revocation(m) => EventMessageV::Revocation(m@),
            EventMessage::Unrecognized => EventMessageV::Unrecognized,
        }
    }
}

/// The discriminator of welcome frames.
pub open spec fn welcome_type() -> Seq<char> {
    "session_welcome"@
}

/// The discriminator of keepalive frames.
pub open spec fn keepalive_type() -> Seq<char> {
    "session_keepalive"@
}

/// The discriminator of notification frames.
pub open spec fn notification_type() -> Seq<char> {
    "notification"@
}

/// The discriminator of reconnect frames.
pub open spec fn reconnect_type() -> Seq<char> {
    "session_reconnect"@
}

/// The discriminator of revocation frames.
pub open spec fn revocation_type() -> Seq<char> {
    "revocation"@
}

/// The frame a JSON document classifies to: the full decision function of
/// the classifier, for every document.
pub open spec fn classify_spec(j: JsonV) -> Result<EventMessageV, DecodeErrorV> {
    if !envelope_ok(j) {
        Err(DecodeErrorV::Envelope)
    } else {
        let md = envelope_metadata(j);
        let p = envelope_payload(j);
        if md.message_type == welcome_type() {
            if welcome_payload_ok(p) {
                Ok(
                    EventMessageV::Welcome(
                        WelcomeMessageV {
                            metadata: welcome_metadata_of(md),
                            payload: welcome_payload_of(p),
                        },
                    ),
                )
            } else {
                Err(DecodeErrorV::Malformed(MessageKind::Welcome))
            }
        } else if md.message_type == keepalive_type() {
            if keepalive_payload_ok(p) {
                Ok(
                    EventMessageV::Keepalive(
                        KeepaliveMessageV {
                            metadata: keepalive_metadata_of(md),
                            payload: keepalive_payload_of(p),
                        },
                    ),
                )
            } else {
                Err(DecodeErrorV::Malformed(MessageKind::Keepalive))
            }
        } else if md.message_type == notification_type() {
            if notification_metadata_ok(md) && notification_payload_ok(p) {
                Ok(
                    EventMessageV::Notification(
                        NotificationMessageV {
                            metadata: notification_metadata_of(md),
                            payload: notification_payload_of(p),
                        },
                    ),
                )
            } else {
                Err(DecodeErrorV::Malformed(MessageKind::Notification))
            }
        } else if md.message_type == reconnect_type() {
            if reconnect_payload_ok(p) {
                Ok(
                    EventMessageV::Reconnect(
                        ReconnectMessageV {
                            metadata: reconnect_metadata_of(md),
                            payload: reconnect_payload_of(p),
                        },
                    ),
                )
            } else {
                Err(DecodeErrorV::Malformed(MessageKind::Reconnect))
            }
        } else if md.message_type == revocation_type() {
            if revocation_metadata_ok(md) && revocation_payload_ok(p) {
                Ok(
                    EventMessageV::Revocation(
                        RevocationMessageV {
                            metadata: revocation_metadata_of(md),
                            payload: revocation_payload_of(p),
                        },
                    ),
                )
            } else {
                Err(DecodeErrorV::Malformed(MessageKind::Revocation))
            }
        } else {
            Ok(EventMessageV::Unrecognized)
        }
    }
}

/// Classifies an already parsed frame.
pub fn classify_value(v: &Json) -> (r: Result<EventMessage, DecodeError>)
    ensures
        r matches Ok(m) ==> classify_spec(v@) == Ok::<EventMessageV, DecodeErrorV>(m@),
        r matches Err(e) ==> classify_spec(v@) == Err::<EventMessageV, DecodeErrorV>(e@),
{
    let env = match BaseEventMessage::decode(v) {
        Some(e) => e,
        None => {
            return Err(
                DecodeError::Envelope("frame lacks a well-shaped metadata or payload member".to_owned()),
            );
        }
    };
    let md = env.metadata;
    let p = env.payload;
    if str_eq(md.message_type.as_str(), "session_welcome") {
        match WelcomePayload::decode(&p) {
            Some(wp) => Ok(EventMessage::Welcome(WelcomeMessage::from_base(md, wp))),
            None => Err(
                DecodeError::Malformed(MessageKind::Welcome, "ill-shaped welcome payload".to_owned()),
            ),
        }
    } else if str_eq(md.message_type.as_str(), "session_keepalive") {
        match KeepalivePayload::decode(&p) {
            Some(kp) => Ok(EventMessage::Keepalive(KeepaliveMessage::from_base(md, kp))),
            None => Err(
                DecodeError::Malformed(
                    MessageKind::Keepalive,
                    "ill-shaped keepalive payload".to_owned(),
                ),
            ),
        }
    } else if str_eq(md.message_type.as_str(), "notification") {
        if md.subscription_type.is_none() || md.subscription_version.is_none() {
            return Err(
                DecodeError::Malformed(
                    MessageKind::Notification,
                    "notification metadata lacks a subscription member".to_owned(),
                ),
            );
        }
        match NotificationPayload::decode(&p) {
            Some(np) => Ok(EventMessage::Notification(NotificationMessage::from_base(md, np))),
            None => Err(
                DecodeError::Malformed(
                    MessageKind::Notification,
                    "ill-shaped notification payload".to_owned(),
                ),
            ),
        }
    } else if str_eq(md.message_type.as_str(), "session_reconnect") {
        match ReconnectPayload::decode(&p) {
            Some(rp) => Ok(EventMessage::Reconnect(ReconnectMessage::from_base(md, rp))),
            None => Err(
                DecodeError::Malformed(
                    MessageKind::Reconnect,
                    "ill-shaped reconnect payload".to_owned(),
                ),
            ),
        }
    } else if str_eq(md.message_type.as_str(), "revocation") {
        match RevocationPayload::decode(&p) {
            Some(rp) => match RevocationMessage::from_base(md, rp) {
                Ok(m) => Ok(EventMessage::Revocation(m)),
                Err(e) => Err(e),
            },
            None => Err(
                DecodeError::Malformed(
                    MessageKind::Revocation,
                    "ill-shaped revocation payload".to_owned(),
                ),
            ),
        }
    } else {
        Ok(EventMessage::Unrecognized)
    }
}

/// Classifies a raw text frame: parses the text, then classifies the
/// document.  A text that is not well-formed JSON is a syntax error.
pub fn classify(raw: &str) -> (r: Result<EventMessage, DecodeError>)
    ensures
        json_text(raw@) is None ==> (r matches Err(e) && e@ == DecodeErrorV::Syntax),
        json_text(raw@) matches Some(j) ==> match r {
            Ok(m) => classify_spec(j) == Ok::<EventMessageV, DecodeErrorV>(m@),
            Err(e) => classify_spec(j) == Err::<EventMessageV, DecodeErrorV>(e@),
        },
{
    match parse_json(raw) {
        Some(v) => classify_value(&v),
        None => Err(DecodeError::Syntax),
    }
}

/// For every document whose envelope is well-shaped and whose discriminator
/// is one of the five recognized ones, if the payload (and, for notification
/// and revocation frames, the metadata) has the valid shape, classification
/// yields exactly the matching variant, with every field populated from the
/// document.
pub proof fn lemma_classify_recognized_valid(j: JsonV)
    requires
        envelope_ok(j),
    ensures
        envelope_metadata(j).message_type == welcome_type() && welcome_payload_ok(
            envelope_payload(j),
        ) ==> classify_spec(j) == Ok::<EventMessageV, DecodeErrorV>(
            EventMessageV::Welcome(
                WelcomeMessageV {
                    metadata: welcome_metadata_of(envelope_metadata(j)),
                    payload: welcome_payload_of(envelope_payload(j)),
                },
            ),
        ),
        envelope_metadata(j).message_type == keepalive_type() && keepalive_payload_ok(
            envelope_payload(j),
        ) ==> classify_spec(j) == Ok::<EventMessageV, DecodeErrorV>(
            EventMessageV::Keepalive(
                KeepaliveMessageV {
                    metadata: keepalive_metadata_of(envelope_metadata(j)),
                    payload: keepalive_payload_of(envelope_payload(j)),
                },
            ),
        ),
        envelope_metadata(j).message_type == notification_type() && notification_metadata_ok(
            envelope_metadata(j),
        ) && notification_payload_ok(envelope_payload(j)) ==> classify_spec(j) == Ok::<
            EventMessageV,
            DecodeErrorV,
        >(
            EventMessageV::Notification(
                NotificationMessageV {
                    metadata: notification_metadata_of(envelope_metadata(j)),
                    payload: notification_payload_of(envelope_payload(j)),
                },
            ),
        ),
        envelope_metadata(j).message_type == reconnect_type() && reconnect_payload_ok(
            envelope_payload(j),
        ) ==> classify_spec(j) == Ok::<EventMessageV, DecodeErrorV>(
            EventMessageV::Reconnect(
                ReconnectMessageV {
                    metadata: reconnect_metadata_of(envelope_metadata(j)),
                    payload: reconnect_payload_of(envelope_payload(j)),
                },
            ),
        ),
        envelope_metadata(j).message_type == revocation_type() && revocation_metadata_ok(
            envelope_metadata(j),
        ) && revocation_payload_ok(envelope_payload(j)) ==> classify_spec(j) == Ok::<
            EventMessageV,
            DecodeErrorV,
        >(
            EventMessageV::Revocation(
                RevocationMessageV {
                    metadata: revocation_metadata_of(envelope_metadata(j)),
                    payload: revocation_payload_of(envelope_payload(j)),
                },
            ),
        ),
{
    reveal_strlit("session_welcome");
    reveal_strlit("session_keepalive");
    reveal_strlit("notification");
    reveal_strlit("session_reconnect");
    reveal_strlit("revocation");
    assert(welcome_type() == "session_welcome"@);
    assert(keepalive_type() == "session_keepalive"@);
    assert(notification_type() == "notification"@);
    assert(reconnect_type() == "session_reconnect"@);
    assert(revocation_type() == "revocation"@);
    assert(keepalive_type()[8] == 'k' && reconnect_type()[8] == 'r');
    assert(keepalive_type() != reconnect_type());
}

/// For every document whose envelope is well-shaped and whose discriminator
/// lies outside the recognized set, classification yields the catch-all
/// variant, whatever the payload holds: an unrecognized discriminator is
/// never an error.
pub proof fn lemma_classify_unrecognized(j: JsonV)
    requires
        envelope_ok(j),
        envelope_metadata(j).message_type != welcome_type(),
        envelope_metadata(j).message_type != keepalive_type(),
        envelope_metadata(j).message_type != notification_type(),
        envelope_metadata(j).message_type != reconnect_type(),
        envelope_metadata(j).message_type != revocation_type(),
    ensures
        classify_spec(j) == Ok::<EventMessageV, DecodeErrorV>(EventMessageV::Unrecognized),
{
}

/// For every document whose envelope is well-shaped and whose discriminator
/// is recognized, a structurally invalid payload (or, for notification and
/// revocation frames, metadata without the subscription members) classifies
/// to a decode error naming that kind — and to nothing worse: classification
/// is a total function, so no input makes it panic.
pub proof fn lemma_classify_recognized_invalid(j: JsonV)
    requires
        envelope_ok(j),
    ensures
        envelope_metadata(j).message_type == welcome_type() && !welcome_payload_ok(
            envelope_payload(j),
        ) ==> classify_spec(j) == Err::<EventMessageV, DecodeErrorV>(
            DecodeErrorV::Malformed(MessageKind::Welcome),
        ),
        envelope_metadata(j).message_type == keepalive_type() && !keepalive_payload_ok(
            envelope_payload(j),
        ) ==> classify_spec(j) == Err::<EventMessageV, DecodeErrorV>(
            DecodeErrorV::Malformed(MessageKind::Keepalive),
        ),
        envelope_metadata(j).message_type == notification_type() && !(notification_metadata_ok(
            envelope_metadata(j),
        ) && notification_payload_ok(envelope_payload(j))) ==> classify_spec(j) == Err::<
            EventMessageV,
            DecodeErrorV,
        >(DecodeErrorV::Malformed(MessageKind::Notification)),
        envelope_metadata(j).message_type == reconnect_type() && !reconnect_payload_ok(
            envelope_payload(j),
        ) ==> classify_spec(j) == Err::<EventMessageV, DecodeErrorV>(
            DecodeErrorV::Malformed(MessageKind::Reconnect),
        ),
        envelope_metadata(j).message_type == revocation_type() && !(revocation_metadata_ok(
            envelope_metadata(j),
        ) && revocation_payload_ok(envelope_payload(j))) ==> classify_spec(j) == Err::<
            EventMessageV,
            DecodeErrorV,
        >(DecodeErrorV::Malformed(MessageKind::Revocation)),
{
    reveal_strlit("session_welcome");
    reveal_strlit("session_keepalive");
    reveal_strlit("notification");
    reveal_strlit("session_reconnect");
    reveal_strlit("revocation");
    assert(welcome_type() == "session_welcome"@);
    assert(keepalive_type() == "session_keepalive"@);
    assert(notification_type() == "notification"@);
    assert(reconnect_type() == "session_reconnect"@);
    assert(revocation_type() == "revocation"@);
    assert(keepalive_type()[8] == 'k' && reconnect_type()[8] == 'r');
    assert(keepalive_type() != reconnect_type());
}

} // verus!

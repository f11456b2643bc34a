//! Message identifiers.
//!
//! Upstream identifies each frame by a string that is usually, but not
//! always, a UUID; legacy identifiers are kept verbatim as opaque strings.

use vstd::prelude::*;

verus! {

/// The canonical (hyphenated, lower-case) form of a UUID text, if the text is
/// one of the accepted UUID notations.
pub uninterp spec fn uuid_canonical(s: Seq<char>) -> Option<Seq<char>>;

/// A frame identifier: a UUID in canonical form, or an opaque string.
#[derive(Debug, Hash, PartialEq, Eq)]
pub enum MessageId {
    StringId(String),
    UuidId(String),
}

/// Model of a frame identifier.
pub enum MessageIdV {
    StringId(Seq<char>),
    UuidId(Seq<char>),
}

impl View for MessageId {
    type V = MessageIdV;

    open spec fn view(&self) -> MessageIdV {
        match self {
            MessageId::StringId(s) => MessageIdV::StringId(s@),
            MessageId::UuidId(s) => MessageIdV::UuidId(s@),
        }
    }
}

/// The identifier an incoming text denotes: the canonical UUID when the text
/// is a UUID, the text itself otherwise.
pub open spec fn message_id_spec(s: Seq<char>) -> MessageIdV {
    match uuid_canonical(s) {
        Some(c) => MessageIdV::UuidId(c),
        None => MessageIdV::StringId(s),
    }
}

/// The text of an identifier.
pub open spec fn message_id_text(m: MessageIdV) -> Seq<char> {
    match m {
        MessageIdV::StringId(s) => s,
        MessageIdV::UuidId(s) => s,
    }
}

/// Relies on uuid::Uuid::parse_str and the Display of Uuid: whether a text is
/// a UUID, and its canonical hyphenated form, are functions of the text alone.
#[verifier::external_body]
fn parse_uuid_canonical(s: &str) -> (r: Option<String>)
    ensures
        r is Some <==> uuid_canonical(s@) is Some,
        r matches Some(c) ==> uuid_canonical(s@) == Some(c@),
{
    uuid::Uuid::parse_str(s).ok().map(|u| u.to_string())
}

impl MessageId {
    /// Classifies an incoming identifier text.
    pub fn from_string(s: String) -> (r: MessageId)
        ensures
            r@ == message_id_spec(s@),
    {
        match parse_uuid_canonical(s.as_str()) {
            Some(c) => MessageId::UuidId(c),
            None => MessageId::StringId(s),
        }
    }

    /// The identifier as text.
    pub fn to_text(&self) -> (r: String)
        ensures
            r@ == message_id_text(self@),
    {
        match self {
            MessageId::StringId(s) => s.clone(),
            MessageId::UuidId(s) => s.clone(),
        }
    }
}

} // verus!

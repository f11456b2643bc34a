//! Send timestamps, modelled as milliseconds since the Unix epoch.
//!
//! Frames carry their send time as an RFC 3339 text field.  The calendar
//! arithmetic of reading such text is delegated to an outside library; the
//! library keeps only the resulting instant.

use vstd::prelude::*;

verus! {

/// The instant an RFC 3339 text denotes, in milliseconds since the Unix
/// epoch, if the text is a valid timestamp.
pub uninterp spec fn rfc3339_millis(s: Seq<char>) -> Option<i64>;

/// An instant in time: milliseconds since the Unix epoch.
#[derive(Clone, Copy, PartialEq, Eq, Structural, Debug, Hash)]
pub struct Timestamp {
    pub millis: i64,
}

/// Relies on chrono's `FromStr` for `DateTime<Utc>`, which reads a relaxed
/// form of RFC 3339 and normalises the offset to UTC, and on
/// `timestamp_millis`: the instant is a function of the text alone.
#[verifier::external_body]
fn parse_rfc3339_millis(s: &str) -> (r: Option<i64>)
    ensures
        r == rfc3339_millis(s@),
{
    match s.parse::<chrono::DateTime<chrono::Utc>>() {
        Ok(dt) => Some(dt.timestamp_millis()),
        Err(_) => None,
    }
}

impl Timestamp {
    /// Reads an RFC 3339 text into an instant; `None` when the text is not a
    /// valid timestamp.
    pub fn from_rfc3339(s: &str) -> (r: Option<Timestamp>)
        ensures
            match r {
                Some(t) => rfc3339_millis(s@) == Some(t.millis),
                None => rfc3339_millis(s@) is None,
            },
    {
        match parse_rfc3339_millis(s) {
            Some(m) => Some(Timestamp { millis: m }),
            None => None,
        }
    }
}

} // verus!

//! Error taxonomy for frame decoding.
//!
//! A structurally invalid payload under a *recognized* discriminator is an
//! error; an unrecognized discriminator never is.

use vstd::prelude::*;

verus! {

/// The closed set of recognized message kinds.
#[derive(Clone, Copy, PartialEq, Eq, Structural, Debug, Hash)]
pub enum MessageKind {
    Welcome,
    Keepalive,
    Notification,
    Reconnect,
    Revocation,
}

/// Why a raw frame was rejected by the classifier.
#[derive(Debug)]
pub enum DecodeError {
    /// The frame text is not well-formed JSON.
    Syntax,
    /// The outer envelope (metadata block or payload member) is missing or
    /// ill-typed; the diagnostic text names the offending part.
    Envelope(String),
    /// A recognized discriminator carries a payload of the wrong shape; the
    /// diagnostic text names the offending part.
    Malformed(MessageKind, String),
}

/// Model of a decode error: its kind alone.  The diagnostic text carried by
/// the executable error is free-form and not part of the model.
pub enum DecodeErrorV {
    Syntax,
    Envelope,
    Malformed(MessageKind),
}

impl View for DecodeError {
    type V = DecodeErrorV;

    open spec fn view(&self) -> DecodeErrorV {
        match self {
            DecodeError::Syntax => DecodeErrorV::Syntax,
            DecodeError::Envelope(_) => DecodeErrorV::Envelope,
            DecodeError::Malformed(k, _) => DecodeErrorV::Malformed(*k),
        }
    }
}

impl DecodeError {
    /// A short description, suitable for a log line: the fixed phrase for a
    /// syntax error, the carried diagnostic text otherwise.
    pub fn describe(&self) -> (r: String)
        ensures
            self@ is Syntax ==> r@ == "frame text is not well-formed JSON"@,
            self matches DecodeError::Envelope(c) ==> r@ == c@,
            self matches DecodeError::Malformed(_, c) ==> r@ == c@,
    {
        match self {
            DecodeError::Syntax => "frame text is not well-formed JSON".to_owned(),
            DecodeError::Envelope(c) => c.clone(),
            DecodeError::Malformed(_, c) => c.clone(),
        }
    }
}

} // verus!

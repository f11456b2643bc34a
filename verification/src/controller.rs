//! The session controller: a state machine from classified frames to the
//! actions the embedding loop must perform.
//!
//! The controller owns the session identifier and the router.  Every decision
//! — when to subscribe, when to move transport, what to hand a handler — is
//! made here; the loop around it only performs I/O.  Exactly one
//! subscription is requested per connection's initial handshake: the welcome
//! that follows an upstream-requested reconnect updates the session
//! identifier but never subscribes again.

use vstd::prelude::*;

use crate::chat::{NotificationEvent, NotificationEventV};
use crate::classify::{classify, classify_spec, EventMessage, EventMessageV};
use crate::config::UserConfig;
use crate::errors::{DecodeError, DecodeErrorV};
use crate::json::json_text;
use crate::router::{EventType, Router};
use crate::time::Timestamp;

verus! {

/// Where the controller stands in a connection's life.
#[derive(Clone, Copy, PartialEq, Eq, Structural, Debug)]
pub enum Phase {
    /// Before the first welcome of the connection's initial handshake.
    Connecting,
    /// A session identifier is held and frames flow.
    Active,
    /// An upstream reconnect instruction is being honoured; the next welcome
    /// arrives on the new transport.
    Reconnecting,
    /// The transport reported a clean close; no further frames are handled.
    Closed,
}

/// The single cell holding the current session identifier.  It is written on
/// every welcome that carries a session and never cleared, only replaced.
#[derive(Debug)]
pub struct SessionState {
    current: Option<String>,
}

impl View for SessionState {
    type V = Option<Seq<char>>;

    closed spec fn view(&self) -> Option<Seq<char>> {
        match self.current {
            Some(s) => Some(s@),
            None => None,
        }
    }
}

impl SessionState {
    /// An empty cell: no welcome has arrived yet.
    pub fn new() -> (r: SessionState)
        ensures
            r@ is None,
    {
        SessionState { current: None }
    }

    /// The current identifier.
    pub fn get(&self) -> (r: Option<&String>)
        ensures
            match r {
                Some(s) => self@ == Some(s@),
                None => self@ is None,
            },
    {
        self.current.as_ref()
    }

    /// Replaces the current identifier.
    pub fn set(&mut self, id: String)
        ensures
            final(self)@ == Some(id@),
    {
        self.current = Some(id);
    }
}

/// What the embedding loop must do after a frame is handled.
#[derive(Debug)]
pub enum Action {
    /// Nothing: await the next frame.
    Continue,
    /// Request a subscription with this session identifier; a failure is
    /// fatal to the handshake and surfaces to the loop's caller.
    Subscribe { session_id: String },
    /// Open a new transport to this address and replace the live one.
    OpenTransport { url: String },
    /// Hand the event and its send time to the handler registered for the
    /// category; log and move on when none is registered.
    Dispatch { category: EventType, event: NotificationEvent, timestamp: Timestamp },
    /// Log that upstream revoked a subscription of this type and version.
    Revoked { subscription_type: String, subscription_version: String },
    /// Log a welcome that carried no session: no subscription is attempted,
    /// and the loop awaits the next frame.
    MalformedWelcome,
}

/// Model of [`Action`].
pub enum ActionV {
    Continue,
    Subscribe(Seq<char>),
    OpenTransport(Seq<char>),
    Dispatch(EventType, NotificationEventV, Timestamp),
    Revoked(Seq<char>, Seq<char>),
    MalformedWelcome,
}

impl View for Action {
    type V = ActionV;

    open spec fn view(&self) -> ActionV {
        match self {
            Action::Continue => ActionV::Continue,
            Action::Subscribe { session_id } => ActionV::Subscribe(session_id@),
            Action::OpenTransport { url } => ActionV::OpenTransport(url@),
            Action::Dispatch { category, event, timestamp } => ActionV::Dispatch(
                *category,
                event@,
                *timestamp,
            ),
            Action::Revoked { subscription_type, subscription_version } => ActionV::Revoked(
                subscription_type@,
                subscription_version@,
            ),
            Action::MalformedWelcome => ActionV::MalformedWelcome,
        }
    }
}

/// The category a decoded event routes to; an event of an unmodelled
/// category routes nowhere.
pub open spec fn category_of(e: NotificationEventV) -> Option<EventType> {
    match e {
        NotificationEventV::ChannelChatMessage(_) => Some(EventType::ChatMessage),
        NotificationEventV::Other(_) => None,
    }
}

/// The controller's transition function: from a phase, a held session
/// identifier and a classified frame to the next phase, the next identifier
/// and the action owed.  This is the whole decision table of the receive
/// loop.
pub open spec fn step_spec(ph: Phase, sid: Option<Seq<char>>, msg: EventMessageV) -> (
    Phase,
    Option<Seq<char>>,
    ActionV,
) {
    if ph is Closed {
        (Phase::Closed, sid, ActionV::Continue)
    } else {
        match msg {
            EventMessageV::Welcome(w) => match w.payload.session {
                None => (ph, sid, ActionV::MalformedWelcome),
                Some(s) => (
                    Phase::Active,
                    Some(s.id),
                    if ph is Connecting {
                        ActionV::Subscribe(s.id)
                    } else {
                        ActionV::Continue
                    },
                ),
            },
            EventMessageV::Keepalive(_) => (ph, sid, ActionV::Continue),
            EventMessageV::Notification(n) => (
                ph,
                sid,
                match category_of(n.payload.event) {
                    Some(c) => ActionV::Dispatch(
                        c,
                        n.payload.event,
                        n.metadata.message_timestamp,
                    ),
                    None => ActionV::Continue,
                },
            ),
            EventMessageV::Reconnect(r) => (
                Phase::Reconnecting,
                sid,
                ActionV::OpenTransport(r.payload.session.reconnect_url),
            ),
            EventMessageV::Revocation(rv) => (
                ph,
                sid,
                ActionV::Revoked(rv.metadata.subscription_type, rv.metadata.subscription_version),
            ),
            EventMessageV::Unrecognized => (ph, sid, ActionV::Continue),
        }
    }
}

/// The session controller: phase, session cell, router and credentials.
pub struct Controller<H> {
    pub phase: Phase,
    pub session: SessionState,
    pub router: Router<H>,
    pub config: UserConfig,
}

impl<H> Controller<H> {
    /// A fresh controller: connecting, no session, no handlers.
    pub fn new(config: UserConfig) -> (r: Controller<H>)
        ensures
            r.phase == Phase::Connecting,
            r.session@ is None,
            r.router@ == Map::<EventType, H>::empty(),
            r.config == config,
    {
        Controller { phase: Phase::Connecting, session: SessionState::new(), router: Router::new(), config }
    }

    /// Registers a handler for a category, replacing any earlier one.
    pub fn register_callback(&mut self, event_type: EventType, callback: H)
        ensures
            final(self).router@ == old(self).router@.insert(event_type, callback),
            final(self).phase == old(self).phase,
            final(self).session == old(self).session,
            final(self).config == old(self).config,
    {
        self.router.register(event_type, callback);
    }

    /// The handler to invoke for a category, if one is registered.
    pub fn dispatch_target(&self, t: EventType) -> (r: Option<&H>)
        ensures
            match r {
                Some(h) => self.router@.contains_key(t) && *h == self.router@[t],
                None => !self.router@.contains_key(t),
            },
    {
        self.router.dispatch_target(t)
    }

    /// Handles one classified frame: moves the machine and returns the
    /// action owed, exactly as [`step_spec`] prescribes.  Handlers and
    /// credentials never change here.
    pub fn handle_frame(&mut self, msg: EventMessage) -> (a: Action)
        ensures
            final(self).router == old(self).router,
            final(self).config == old(self).config,
            (final(self).phase, final(self).session@, a@) == step_spec(
                old(self).phase,
                old(self).session@,
                msg@,
            ),
    {
        if self.phase == Phase::Closed {
            return Action::Continue;
        }
        match msg {
            EventMessage::Welcome(w) => match w.payload.session {
                None => Action::MalformedWelcome,
                Some(s) => {
                    let first = self.phase == Phase::Connecting;
                    self.phase = Phase::Active;
                    if first {
                        self.session.set(s.id.clone());
                        Action::Subscribe { session_id: s.id }
                    } else {
                        self.session.set(s.id);
                        Action::Continue
                    }
                }
            },
            EventMessage::Keepalive(_) => Action::Continue,
            EventMessage::Notification(n) => {
                let timestamp = n.metadata.message_timestamp;
                match n.payload.event {
                    NotificationEvent::ChannelChatMessage(c) => Action::Dispatch {
                        category: EventType::ChatMessage,
                        event: NotificationEvent::ChannelChatMessage(c),
                        timestamp,
                    },
                    NotificationEvent::Other(_) => Action::Continue,
                }
            }
            EventMessage::Reconnect(r) => {
                self.phase = Phase::Reconnecting;
                Action::OpenTransport { url: r.payload.session.reconnect_url }
            }
            EventMessage::Revocation(rv) => Action::Revoked {
                subscription_type: rv.metadata.subscription_type,
                subscription_version: rv.metadata.subscription_version,
            },
            EventMessage::Unrecognized => Action::Continue,
        }
    }

    /// Handles one raw text frame: classifies it, then moves the machine.  A
    /// decode error leaves the controller untouched and surfaces to the
    /// caller, who stops the loop.
    pub fn handle_raw(&mut self, raw: &str) -> (r: Result<Action, DecodeError>)
        ensures
            json_text(raw@) is None ==> (r matches Err(e) && e@ == DecodeErrorV::Syntax
                && *final(self) == *old(self)),
            json_text(raw@) matches Some(j) ==> match r {
                Ok(a) => (classify_spec(j) matches Ok(m) && final(self).router == old(self).router
                    && final(self).config == old(self).config && (
                final(self).phase,
                final(self).session@,
                a@,
                ) == step_spec(old(self).phase, old(self).session@, m)),
                Err(e) => classify_spec(j) == Err::<EventMessageV, DecodeErrorV>(e@)
                    && *final(self) == *old(self),
            },
    {
        match classify(raw) {
            Ok(m) => Ok(self.handle_frame(m)),
            Err(e) => Err(e),
        }
    }

    /// Notes a clean transport close: the machine is closed and the loop
    /// returns without error.
    pub fn handle_close(&mut self)
        ensures
            final(self).phase == Phase::Closed,
            final(self).session == old(self).session,
            final(self).router == old(self).router,
            final(self).config == old(self).config,
    {
        self.phase = Phase::Closed;
    }
}

/// Handling a keepalive frame — and a second one after it — changes no state
/// and performs no action: heartbeats are observable no-ops, however many
/// arrive in sequence.
pub proof fn lemma_keepalive_no_effect(
    ph: Phase,
    sid: Option<Seq<char>>,
    k1: crate::keepalive::KeepaliveMessageV,
    k2: crate::keepalive::KeepaliveMessageV,
)
    ensures
        ({
            let (p1, s1, a1) = step_spec(ph, sid, EventMessageV::Keepalive(k1));
            let (p2, s2, a2) = step_spec(p1, s1, EventMessageV::Keepalive(k2));
            &&& p1 == ph
            &&& s1 == sid
            &&& a1 == ActionV::Continue
            &&& p2 == ph
            &&& s2 == sid
            &&& a2 == ActionV::Continue
        }),
{
}

/// After a reconnect instruction in an active session, the welcome that
/// follows on the new transport stores the fresh session identifier and ends
/// active again — with no second subscription request.
pub proof fn lemma_reconnect_suppresses_resubscription(
    sid: Option<Seq<char>>,
    r: crate::reconnect::ReconnectMessageV,
    w: crate::welcome::WelcomeMessageV,
)
    requires
        w.payload.session is Some,
    ensures
        ({
            let (p1, s1, a1) = step_spec(Phase::Active, sid, EventMessageV::Reconnect(r));
            let (p2, s2, a2) = step_spec(p1, s1, EventMessageV::Welcome(w));
            &&& p1 == Phase::Reconnecting
            &&& s1 == sid
            &&& a1 == ActionV::OpenTransport(r.payload.session.reconnect_url)
            &&& p2 == Phase::Active
            &&& s2 == Some(w.payload.session->Some_0.id)
            &&& a2 == ActionV::Continue
        }),
{
}

/// A subscription is requested only out of the connecting phase, only on a
/// welcome that carries a session, and always with exactly the identifier
/// that same welcome stored: a subscription can never use a stale session
/// identifier.
pub proof fn lemma_subscribe_fresh_only(ph: Phase, sid: Option<Seq<char>>, msg: EventMessageV)
    ensures
        ({
            let (p2, s2, a) = step_spec(ph, sid, msg);
            a matches ActionV::Subscribe(x) ==> {
                &&& ph == Phase::Connecting
                &&& (msg matches EventMessageV::Welcome(w) && w.payload.session is Some
                    && x == w.payload.session->Some_0.id)
                &&& s2 == Some(x)
                &&& p2 == Phase::Active
            }
        }),
{
}

/// The connecting phase is never re-entered: once the initial handshake's
/// welcome has been handled, no later frame can bring the controller back to
/// it.  With [`lemma_subscribe_fresh_only`] this bounds the subscription
/// requests of a controller's lifetime at one.
pub proof fn lemma_connecting_never_reentered(
    ph: Phase,
    sid: Option<Seq<char>>,
    msg: EventMessageV,
)
    requires
        !(ph is Connecting),
    ensures
        ({
            let (p2, s2, a) = step_spec(ph, sid, msg);
            !(p2 is Connecting)
        }),
{
}

/// Exactly one session identifier is current at any instant: a step never
/// clears the cell, and changes it only to the identifier of a welcome's
/// session.
pub proof fn lemma_session_only_replaced(ph: Phase, sid: Option<Seq<char>>, msg: EventMessageV)
    ensures
        ({
            let (p2, s2, a) = step_spec(ph, sid, msg);
            &&& (sid is Some ==> s2 is Some)
            &&& (s2 != sid ==> (msg matches EventMessageV::Welcome(w) && w.payload.session is Some
                && s2 == Some(w.payload.session->Some_0.id)))
        }),
{
}

/// An active controller always holds a session identifier, and every step
/// preserves that.
pub proof fn lemma_active_has_session(ph: Phase, sid: Option<Seq<char>>, msg: EventMessageV)
    requires
        ph is Active ==> sid is Some,
    ensures
        ({
            let (p2, s2, a) = step_spec(ph, sid, msg);
            p2 is Active ==> s2 is Some
        }),
{
}

} // verus!

//! The notification router: a mapping from event category to at most one
//! handler.  A later registration for a category replaces the earlier one;
//! dispatching a category nobody registered for is not an error.

use vstd::prelude::*;

verus! {

/// The closed set of event categories handlers can be registered for.
#[derive(Clone, Copy, PartialEq, Eq, Structural, Debug, Hash)]
pub enum EventType {
    ChatMessage,
    Subscription,
    Bits,
}

/// The log name of an event category.
pub open spec fn event_type_text(t: EventType) -> Seq<char> {
    match t {
        EventType::ChatMessage => "chat_message"@,
        EventType::Subscription => "subscription"@,
        EventType::Bits => "bits"@,
    }
}

impl EventType {
    /// The log name of this category.
    pub fn as_str(&self) -> (r: &'static str)
        ensures
            r@ == event_type_text(*self),
    {
        match self {
            EventType::ChatMessage => "chat_message",
            EventType::Subscription => "subscription",
            EventType::Bits => "bits",
        }
    }
}

/// A total mapping from category to an optional handler value.  The router
/// never invokes a handler itself; it only stores and hands back the value
/// registered for a category.
pub struct Router<H> {
    chat_message: Option<H>,
    subscription: Option<H>,
    bits: Option<H>,
}

impl<H> Router<H> {
    /// The handler registered for `t`, if any.
    pub closed spec fn entry(&self, t: EventType) -> Option<H> {
        match t {
            EventType::ChatMessage => self.chat_message,
            EventType::Subscription => self.subscription,
            EventType::Bits => self.bits,
        }
    }
}

impl<H> View for Router<H> {
    type V = Map<EventType, H>;

    open spec fn view(&self) -> Map<EventType, H> {
        Map::new(|t: EventType| self.entry(t) is Some, |t: EventType| self.entry(t)->Some_0)
    }
}

impl<H> Router<H> {
    /// An empty router: no category has a handler.
    pub fn new() -> (r: Router<H>)
        ensures
            r@ == Map::<EventType, H>::empty(),
    {
        let r = Router { chat_message: None, subscription: None, bits: None };
        proof {
            assert(r@ =~= Map::<EventType, H>::empty());
        }
        r
    }

    /// Registers `h` for `t`, replacing whatever was registered before.
    pub fn register(&mut self, t: EventType, h: H)
        ensures
            final(self)@ == old(self)@.insert(t, h),
    {
        match t {
            EventType::ChatMessage => self.chat_message = Some(h),
            EventType::Subscription => self.subscription = Some(h),
            EventType::Bits => self.bits = Some(h),
        }
        proof {
            assert(final(self)@ =~= old(self)@.insert(t, h));
        }
    }

    /// The handler to invoke for `t`: the registered one, or none, which the
    /// caller reports and moves past.
    pub fn dispatch_target(&self, t: EventType) -> (r: Option<&H>)
        ensures
            match r {
                Some(h) => self@.contains_key(t) && *h == self@[t],
                None => !self@.contains_key(t),
            },
    {
        match t {
            EventType::ChatMessage => self.chat_message.as_ref(),
            EventType::Subscription => self.subscription.as_ref(),
            EventType::Bits => self.bits.as_ref(),
        }
    }
}

} // verus!

//! The callback registry: at most one callback, replaced by each
//! registration, and the invocation that a dispatched event asks for.
//!
//! The registry holds the capability to invoke a callback, not the code
//! behind it. Dispatching does not call it either: it describes the call,
//! with both texts in the form in which they cross the boundary, and leaves
//! the call to the owner of the callback.

use vstd::prelude::*;
use crate::text::{event_text, has_nul, payload_text, to_event_text, to_payload_text};

verus! {

/// One call of the registered callback: the callback and the two texts it is
/// called with. The texts live only as long as this value.
pub struct Invocation<C> {
    pub callback: C,
    pub event: String,
    pub payload: String,
}

/// At most one registered callback.
pub struct CallbackRegistry<C> {
    slot: Option<C>,
}

impl<C> View for CallbackRegistry<C> {
    type V = Option<C>;

    closed spec fn view(&self) -> Option<C> {
        self.slot
    }
}

impl<C> CallbackRegistry<C> {
    /// A registry with nothing registered.
    pub fn new() -> (registry: Self)
        ensures
            registry@ is None,
    {
        CallbackRegistry { slot: None }
    }

    /// Registers `callback` in place of whatever was registered.
    pub fn set(&mut self, callback: C)
        ensures
            final(self)@ == Some(callback),
        no_unwind
    {
        self.slot = Some(callback);
    }

    /// Removes the registration, if there is one.
    pub fn clear(&mut self)
        ensures
            final(self)@ is None,
        no_unwind
    {
        self.slot = None;
    }

    /// Whether a callback is registered.
    pub fn is_registered(&self) -> (registered: bool)
        ensures
            registered == self@ is Some,
    {
        self.slot.is_some()
    }
}

impl<C: Copy> CallbackRegistry<C> {
    /// The invocation that an event asks for: none where nothing is
    /// registered; otherwise the registered callback with the event kind and
    /// the payload as they cross the boundary, a kind that cannot be
    /// represented replaced by `"err"` and such a payload by the empty text.
    pub fn dispatch(&self, kind: &str, payload: &str) -> (invocation: Option<Invocation<C>>)
        ensures
            invocation is Some <==> self@ is Some,
            invocation matches Some(call) ==> {
                &&& self@ == Some(call.callback)
                &&& call.event@ == event_text(kind@)
                &&& call.payload@ == payload_text(payload@)
                &&& !has_nul(call.event@)
                &&& !has_nul(call.payload@)
            },
    {
        match self.slot {
            Some(callback) => Some(
                Invocation {
                    callback,
                    event: to_event_text(kind),
                    payload: to_payload_text(payload),
                },
            ),
            None => None,
        }
    }
}

} // verus!

//! The receive loop, one step at a time.
//!
//! The loop itself belongs to the owner of the socket: while
//! [`Context::is_running`](crate::context::Context::is_running) holds it
//! receives into a buffer, reports what came of the receive to
//! [`listener_step`], performs the invocation that the step asks for, and
//! pauses for as long as the step says. A failed receive never ends the loop.

use vstd::prelude::*;
use vstd::string::*;
use crate::context::{call_callback, Context};
use crate::registry::Invocation;
use crate::text::{from_utf8_lossy, has_nul, payload_text, received_text};

verus! {

/// The largest payload that one UDP datagram can carry, and so the length of
/// the receive buffer.
pub const RECEIVE_BUFFER_LEN: usize = 65535;

/// How long the loop pauses after a failed receive, in milliseconds.
pub const RETRY_PAUSE_MILLIS: u64 = 50;

/// What one receive came to.
pub enum Reception<'a> {
    /// A datagram arrived, with these bytes.
    Datagram(&'a [u8]),
    /// The receive failed, with this description of the error.
    Failure(&'a str),
}

/// What the loop does after one receive.
pub struct LoopStep<C> {
    /// The call of the callback to make, if any.
    pub invocation: Option<Invocation<C>>,
    /// How long to pause before the next receive, in milliseconds.
    pub pause_millis: u64,
}

/// The kind of the event for a datagram.
pub open spec fn datagram_kind() -> Seq<char> {
    "sip_rx"@
}

/// The kind of the event for a failed receive.
pub open spec fn failure_kind() -> Seq<char> {
    "error"@
}

/// The payload of the event for a failed receive.
pub open spec fn failure_payload(description: Seq<char>) -> Seq<char> {
    "recv_err:"@ + description
}

impl<'a> Reception<'a> {
    /// Whether the receive gives rise to an event: every failure does, and
    /// every datagram but an empty one.
    pub open spec fn is_event(self) -> bool {
        match self {
            Reception::Datagram(bytes) => bytes@.len() > 0,
            Reception::Failure(_) => true,
        }
    }

    /// The kind of the event.
    pub open spec fn kind(self) -> Seq<char> {
        match self {
            Reception::Datagram(_) => datagram_kind(),
            Reception::Failure(_) => failure_kind(),
        }
    }

    /// The payload of the event, before it crosses the boundary: a
    /// datagram's bytes decoded as text, or the error with its prefix.
    pub open spec fn payload(self) -> Seq<char> {
        match self {
            Reception::Datagram(bytes) => received_text(bytes@),
            Reception::Failure(description) => failure_payload(description@),
        }
    }

    /// The pause after the receive: none after a datagram, the retry pause
    /// after a failure.
    pub open spec fn pause(self) -> u64 {
        match self {
            Reception::Datagram(_) => 0,
            Reception::Failure(_) => RETRY_PAUSE_MILLIS,
        }
    }
}

/// A receive buffer: `RECEIVE_BUFFER_LEN` zero bytes.
pub fn receive_buffer() -> (buffer: Vec<u8>)
    ensures
        buffer@.len() == RECEIVE_BUFFER_LEN,
        forall|i: int| 0 <= i < buffer@.len() ==> buffer@[i] == 0u8,
{
    vec![0u8; RECEIVE_BUFFER_LEN]
}

/// The payload of the event for a failed receive.
pub fn error_payload(description: &str) -> (payload: String)
    ensures
        payload@ == failure_payload(description@),
{
    let mut payload = "recv_err:".to_owned();
    payload.append(description);
    payload
}

/// One step of the receive loop. An empty datagram is ignored. Any other
/// datagram is dispatched as a `"sip_rx"` event with its bytes decoded as
/// text. A failed receive is dispatched as an `"error"` event that describes
/// the error, and is followed by the retry pause. An event reaches an
/// invocation only where a callback is registered; the pause does not depend
/// on that.
pub fn listener_step<H, C: Copy>(ctx: &Context<H, C>, reception: Reception<'_>) -> (step: LoopStep<C>)
    ensures
        step.pause_millis == reception.pause(),
        step.invocation is Some <==> reception.is_event() && ctx@.callback is Some,
        step.invocation matches Some(call) ==> {
            &&& ctx@.callback == Some(call.callback)
            &&& call.event@ == reception.kind()
            &&& call.payload@ == payload_text(reception.payload())
            &&& !has_nul(call.event@)
            &&& !has_nul(call.payload@)
        },
{
    match reception {
        Reception::Datagram(bytes) => {
            if bytes.len() == 0 {
                LoopStep { invocation: None, pause_millis: 0 }
            } else {
                let text = from_utf8_lossy(bytes);
                let invocation = call_callback(ctx, "sip_rx", text.as_str());
                proof {
                    lemma_kinds_cross_unchanged();
                }
                LoopStep { invocation, pause_millis: 0 }
            }
        },
        Reception::Failure(description) => {
            let payload = error_payload(description);
            let invocation = call_callback(ctx, "error", payload.as_str());
            proof {
                lemma_kinds_cross_unchanged();
            }
            LoopStep { invocation, pause_millis: RETRY_PAUSE_MILLIS }
        },
    }
}

/// Neither event kind has a NUL inside, so both cross the boundary as they
/// are.
pub proof fn lemma_kinds_cross_unchanged()
    ensures
        !has_nul(datagram_kind()),
        !has_nul(failure_kind()),
        crate::text::event_text(datagram_kind()) == datagram_kind(),
        crate::text::event_text(failure_kind()) == failure_kind(),
{
    reveal_strlit("sip_rx");
    reveal_strlit("error");
    if has_nul(datagram_kind()) {
        let i = choose|i: int| 0 <= i < datagram_kind().len() && datagram_kind()[i] == '\0';
        assert(datagram_kind()[i] == '\0');
    }
    if has_nul(failure_kind()) {
        let i = choose|i: int| 0 <= i < failure_kind().len() && failure_kind()[i] == '\0';
        assert(failure_kind()[i] == '\0');
    }
}

/// A datagram that holds the encoding of a text, not empty and without a
/// NUL inside, gives rise to a `"sip_rx"` event whose payload crosses the
/// boundary as that text.
pub proof fn lemma_datagram_text_kept(bytes: &[u8], text: Seq<char>)
    requires
        bytes@ == vstd::utf8::encode_utf8(text),
        text.len() > 0,
        !has_nul(text),
    ensures
        Reception::Datagram(bytes).is_event(),
        Reception::Datagram(bytes).kind() == datagram_kind(),
        payload_text(Reception::Datagram(bytes).payload()) == text,
{
    crate::text::lemma_received_encoded(text);
    if bytes@.len() == 0 {
        assert(vstd::utf8::decode_utf8(bytes@) =~= Seq::<char>::empty());
    }
}

/// An empty datagram gives rise to no event.
pub proof fn lemma_empty_datagram_ignored(bytes: &[u8])
    requires
        bytes@.len() == 0,
    ensures
        !Reception::Datagram(bytes).is_event(),
        Reception::Datagram(bytes).pause() == 0,
{
}

} // verus!

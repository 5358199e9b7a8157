//! One-shot outbound sends.
//!
//! A send keeps no state and does not depend on the listener. The socket
//! work belongs to the caller: [`rsip_send_udp`] checks the arguments and
//! says what to bind and where to send, and [`send_status`] turns what came
//! of the bind into the result of the send.

use vstd::prelude::*;
use vstd::slice::*;
use vstd::utf8::*;
use crate::address::{endpoint, endpoint_text, ephemeral_endpoint, ephemeral_text};
use crate::text::from_utf8;

verus! {

/// A datagram to send, and the addresses to send it between.
pub struct Outbound {
    /// The local address to bind: any free port.
    pub local: String,
    /// The address to send to: the destination host and port.
    pub destination: String,
    /// The bytes to send, as they were given.
    pub payload: Vec<u8>,
}

/// Whether a send is attempted: the host and the payload are both there,
/// and the host is text.
pub open spec fn send_accepted(dest_ip: Option<&[u8]>, data: Option<&[u8]>) -> bool {
    &&& data is Some
    &&& dest_ip matches Some(host) && valid_utf8(host@)
}

/// The result of a send whose bind came to `bound`.
pub open spec fn send_result(dest_ip: Option<&[u8]>, data: Option<&[u8]>, bound: bool) -> bool {
    send_accepted(dest_ip, data) && bound
}

/// Checks the arguments of a send. Returns `None` where the destination host
/// or the payload is absent, or the host is not valid UTF-8. Otherwise
/// returns the datagram to send: from any free local port, to the host and
/// port given, with the payload unchanged.
pub fn rsip_send_udp(dest_ip: Option<&[u8]>, dest_port: u16, data: Option<&[u8]>) -> (request:
    Option<Outbound>)
    ensures
        request is Some <==> send_accepted(dest_ip, data),
        request matches Some(outbound) ==> {
            &&& outbound.local@ == ephemeral_text()
            &&& outbound.destination@ == endpoint_text(decode_utf8(dest_ip->0@), dest_port)
            &&& outbound.payload@ == data->0@
        },
{
    let host_bytes = match dest_ip {
        Some(bytes) => bytes,
        None => {
            return None;
        },
    };
    let payload = match data {
        Some(bytes) => bytes,
        None => {
            return None;
        },
    };
    let host = match from_utf8(host_bytes) {
        Some(text) => text,
        None => {
            return None;
        },
    };
    Some(
        Outbound {
            local: ephemeral_endpoint(),
            destination: endpoint(host, dest_port),
            payload: slice_to_vec(payload),
        },
    )
}

/// The result of a send: true exactly when the send was attempted and the
/// local socket was bound. Whether the datagram then left is not part of the
/// result.
pub fn send_status(request: &Option<Outbound>, bound: bool) -> (sent: bool)
    ensures
        sent == (request is Some && bound),
{
    request.is_some() && bound
}

/// A send without a host or without a payload fails, whatever the bind
/// would have come to. A send that is attempted reports what came of its
/// bind.
pub proof fn lemma_send_result(dest_ip: Option<&[u8]>, data: Option<&[u8]>, bound: bool)
    ensures
        dest_ip is None ==> !send_result(dest_ip, data, bound),
        data is None ==> !send_result(dest_ip, data, bound),
        send_accepted(dest_ip, data) ==> send_result(dest_ip, data, bound) == bound,
{
}

} // verus!

//! A transport-free core for a small UDP listener bridge: the lifecycle of
//! one background receive loop, the registry of the callback that events are
//! handed to, and the texts that cross the boundary to a foreign caller.

pub mod address;
pub mod context;
pub mod listener;
pub mod registry;
pub mod sender;
pub mod text;
pub mod version;

pub use context::{
    bind_request, call_callback, rsip_clear_event_callback, rsip_init, rsip_set_event_callback,
    rsip_shutdown, rsip_start_udp_listener, signal_stop, Context, ContextState,
};
pub use listener::{listener_step, receive_buffer, LoopStep, Reception};
pub use registry::{CallbackRegistry, Invocation};
pub use sender::{rsip_send_udp, send_status, Outbound};
pub use version::rsip_version;

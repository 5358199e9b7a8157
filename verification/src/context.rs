//! The lifecycle of the listener, as one context that every operation
//! takes.
//!
//! The context holds the running flag, the token of the background receive
//! loop and the callback registry. It does no I/O itself. Binding a socket,
//! running the loop and waiting for it to end belong to the caller, who tells
//! the context what came of them:
//!
//! - to start, ask [`bind_request`] for the address, bind and spawn, and hand
//!   the loop's token to [`rsip_start_udp_listener`];
//! - to stop, call [`signal_stop`], wait for the token it returns, and call
//!   [`rsip_shutdown`]: the callback then stays registered until the loop has
//!   ended. [`rsip_shutdown`] alone does both steps at once and leaves the
//!   waiting for afterwards.
//!
//! `H` is the type of the token that owns the background loop, `C` the type
//! of the callback.

use vstd::prelude::*;
use crate::address::{listen_endpoint, listen_text};
use crate::registry::{CallbackRegistry, Invocation};
use crate::text::{event_text, has_nul, payload_text};

verus! {

/// What a context holds, as a plain value.
pub struct ContextState<H, C> {
    /// The running flag: true while a receive loop should keep going.
    pub running: bool,
    /// The token of the background loop, present from a successful start
    /// until the next shutdown.
    pub listener: Option<H>,
    /// The registered callback.
    pub callback: Option<C>,
}

impl<H, C> ContextState<H, C> {
    /// No loop runs without a token for it.
    pub open spec fn wf(self) -> bool {
        self.running ==> self.listener is Some
    }

    /// Nothing runs, nothing is held, nothing is registered.
    pub open spec fn is_quiescent(self) -> bool {
        &&& !self.running
        &&& self.listener is None
        &&& self.callback is None
    }

    /// The state after a reset: the flag is lowered and the registration
    /// removed; the token is left as it is.
    pub open spec fn reset(self) -> Self {
        ContextState { running: false, listener: self.listener, callback: None }
    }

    /// The state after `callback` is registered.
    pub open spec fn registered(self, callback: C) -> Self {
        ContextState { running: self.running, listener: self.listener, callback: Some(callback) }
    }

    /// The state after the registration is removed.
    pub open spec fn unregistered(self) -> Self {
        ContextState { running: self.running, listener: self.listener, callback: None }
    }

    /// The address that a start on `port` binds: none while a loop is
    /// running, and otherwise the port on every local interface.
    pub open spec fn bind_address(self, port: u16) -> Option<Seq<char>> {
        if self.running {
            None
        } else {
            Some(listen_text(port))
        }
    }

    /// Whether a start succeeds: no loop is running, and the socket was
    /// bound, so that there is a loop to hand over.
    pub open spec fn accepts_start(self, spawned: Option<H>) -> bool {
        !self.running && spawned is Some
    }

    /// The state after a start: running with the new token where the start
    /// succeeds, unchanged where it does not.
    pub open spec fn started(self, spawned: Option<H>) -> Self {
        if self.accepts_start(spawned) {
            ContextState { running: true, listener: spawned, callback: self.callback }
        } else {
            self
        }
    }

    /// The state after the stop signal: the flag is lowered and the token
    /// given up; the registration is left as it is.
    pub open spec fn signalled(self) -> Self {
        ContextState { running: false, listener: None, callback: self.callback }
    }

    /// The state after a shutdown.
    pub open spec fn stopped(self) -> Self {
        ContextState { running: false, listener: None, callback: None }
    }
}

/// The state shared by all operations: the running flag, the token of the
/// background loop, and the callback registry.
pub struct Context<H, C> {
    running: bool,
    listener: Option<H>,
    registry: CallbackRegistry<C>,
}

impl<H, C> View for Context<H, C> {
    type V = ContextState<H, C>;

    closed spec fn view(&self) -> ContextState<H, C> {
        ContextState { running: self.running, listener: self.listener, callback: self.registry@ }
    }
}

impl<H, C> Context<H, C> {
    #[verifier::type_invariant]
    spec fn token_while_running(self) -> bool {
        self.running ==> self.listener is Some
    }

    /// A context in which nothing runs and nothing is registered.
    pub fn new() -> (ctx: Self)
        ensures
            ctx@.is_quiescent(),
    {
        Context { running: false, listener: None, registry: CallbackRegistry::new() }
    }

    /// Whether the running flag is up. The receive loop tests this before
    /// each receive, and ends when it is down.
    pub fn is_running(&self) -> (running: bool)
        ensures
            running == self@.running,
            self@.wf(),
    {
        proof {
            use_type_invariant(self);
        }
        self.running
    }

    /// Whether a callback is registered.
    pub fn has_callback(&self) -> (registered: bool)
        ensures
            registered == self@.callback is Some,
    {
        self.registry.is_registered()
    }

    /// Whether the context holds the token of a background loop.
    pub fn has_listener(&self) -> (held: bool)
        ensures
            held == self@.listener is Some,
    {
        self.listener.is_some()
    }
}

/// Resets the context for use: lowers the running flag and removes the
/// registration. The token of a loop that is still running is not touched.
/// Always returns true.
pub fn rsip_init<H, C>(ctx: &mut Context<H, C>) -> (ready: bool)
    ensures
        ready,
        final(ctx)@ == old(ctx)@.reset(),
        final(ctx)@.wf(),
{
    ctx.running = false;
    ctx.registry.clear();
    true
}

/// Registers `callback`, replacing any callback registered before.
pub fn rsip_set_event_callback<H, C>(ctx: &mut Context<H, C>, callback: C)
    ensures
        final(ctx)@ == old(ctx)@.registered(callback),
        final(ctx)@.wf(),
{
    proof {
        use_type_invariant(&*ctx);
    }
    ctx.registry.set(callback);
}

/// Removes the registered callback, if there is one.
pub fn rsip_clear_event_callback<H, C>(ctx: &mut Context<H, C>)
    ensures
        final(ctx)@ == old(ctx)@.unregistered(),
        final(ctx)@.wf(),
{
    proof {
        use_type_invariant(&*ctx);
    }
    ctx.registry.clear();
}

/// The invocation that an event asks for: none where no callback is
/// registered; otherwise the registered callback with the event kind and the
/// payload as they cross the boundary.
pub fn call_callback<H, C: Copy>(ctx: &Context<H, C>, event: &str, payload: &str) -> (invocation:
    Option<Invocation<C>>)
    ensures
        invocation is Some <==> ctx@.callback is Some,
        invocation matches Some(call) ==> {
            &&& ctx@.callback == Some(call.callback)
            &&& call.event@ == event_text(event@)
            &&& call.payload@ == payload_text(payload@)
            &&& !has_nul(call.event@)
            &&& !has_nul(call.payload@)
        },
{
    ctx.registry.dispatch(event, payload)
}

/// The first half of a start: the address to bind for a listener on `port`,
/// or `None` where a loop is running and the start is refused without a
/// bind.
pub fn bind_request<H, C>(ctx: &Context<H, C>, port: u16) -> (address: Option<String>)
    ensures
        address is Some <==> ctx@.bind_address(port) is Some,
        address matches Some(text) ==> ctx@.bind_address(port) == Some(text@),
{
    if ctx.running {
        None
    } else {
        Some(listen_endpoint(port))
    }
}

/// The second half of a start. `spawned` is the token of the loop that was
/// spawned on the bound socket, or `None` where the bind failed. Returns
/// true exactly when a new loop was started: none was running and the bind
/// succeeded. The context then runs and holds the token; otherwise it is
/// unchanged, the loop that runs is not replaced, and a token that was
/// handed over is dropped.
pub fn rsip_start_udp_listener<H, C>(ctx: &mut Context<H, C>, spawned: Option<H>) -> (started: bool)
    ensures
        started == old(ctx)@.accepts_start(spawned),
        final(ctx)@ == old(ctx)@.started(spawned),
        final(ctx)@.wf(),
{
    proof {
        use_type_invariant(&*ctx);
    }
    if ctx.running {
        return false;
    }
    match spawned {
        Some(token) => {
            ctx.listener = Some(token);
            ctx.running = true;
            true
        },
        None => false,
    }
}

/// Signals the background loop to stop: lowers the running flag, which the
/// loop tests before each receive, and gives up the token. Returns the token
/// that was held, for the caller to wait on until the loop has ended. The
/// callback stays registered, so the loop can still hand over what it
/// receives until then.
pub fn signal_stop<H, C>(ctx: &mut Context<H, C>) -> (token: Option<H>)
    ensures
        token == old(ctx)@.listener,
        final(ctx)@ == old(ctx)@.signalled(),
        final(ctx)@.wf(),
{
    ctx.running = false;
    let mut token: Option<H> = None;
    core::mem::swap(&mut ctx.listener, &mut token);
    token
}

/// Shuts the listener down: lowers the running flag, gives up the token and
/// removes the registered callback. Returns the token that was held, for the
/// caller to wait on until the background loop has ended. Safe to call in
/// any state.
pub fn rsip_shutdown<H, C>(ctx: &mut Context<H, C>) -> (token: Option<H>)
    ensures
        token == old(ctx)@.listener,
        final(ctx)@ == old(ctx)@.stopped(),
        final(ctx)@.is_quiescent(),
        final(ctx)@.wf(),
{
    let token = signal_stop(ctx);
    proof {
        use_type_invariant(&*ctx);
    }
    ctx.registry.clear();
    token
}

/// The state after a run of start attempts with no shutdown between them.
/// Each attempt is the outcome of its bind: the token of the loop that was
/// spawned, or `None`.
pub open spec fn after_starts<H, C>(state: ContextState<H, C>, attempts: Seq<Option<H>>)
    -> ContextState<H, C>
    decreases attempts.len(),
{
    if attempts.len() == 0 {
        state
    } else {
        after_starts(state, attempts.drop_last()).started(attempts.last())
    }
}

/// Whether attempt `i` of a run of start attempts succeeds.
pub open spec fn start_succeeds<H, C>(
    state: ContextState<H, C>,
    attempts: Seq<Option<H>>,
    i: int,
) -> bool
    recommends
        0 <= i < attempts.len(),
{
    after_starts(state, attempts.subrange(0, i)).accepts_start(attempts[i])
}

/// The state after a number of cycles of a reset followed by a shutdown.
pub open spec fn after_cycles<H, C>(state: ContextState<H, C>, cycles: nat) -> ContextState<H, C>
    decreases cycles,
{
    if cycles == 0 {
        state
    } else {
        after_cycles(state, (cycles - 1) as nat).reset().stopped()
    }
}

proof fn lemma_starts_while_running<H, C>(state: ContextState<H, C>, attempts: Seq<Option<H>>)
    requires
        state.running,
    ensures
        after_starts(state, attempts) == state,
    decreases attempts.len(),
{
    if attempts.len() > 0 {
        lemma_starts_while_running(state, attempts.drop_last());
    }
}

proof fn lemma_starts_unbound<H, C>(state: ContextState<H, C>, attempts: Seq<Option<H>>)
    requires
        forall|k: int| 0 <= k < attempts.len() ==> attempts[k] is None,
    ensures
        after_starts(state, attempts) == state,
    decreases attempts.len(),
{
    if attempts.len() > 0 {
        lemma_starts_unbound(state, attempts.drop_last());
    }
}

proof fn lemma_starts_first_bound<H, C>(
    state: ContextState<H, C>,
    attempts: Seq<Option<H>>,
    i: int,
)
    requires
        !state.running,
        0 <= i < attempts.len(),
        attempts[i] is Some,
        forall|k: int| 0 <= k < i ==> attempts[k] is None,
    ensures
        after_starts(state, attempts) == (ContextState {
            running: true,
            listener: attempts[i],
            callback: state.callback,
        }),
    decreases attempts.len(),
{
    let earlier = attempts.drop_last();
    if i == attempts.len() - 1 {
        lemma_starts_unbound(state, earlier);
    } else {
        lemma_starts_first_bound(state, earlier, i);
    }
}

/// In a run of start attempts with no shutdown between them, an attempt
/// succeeds exactly when no loop was running before the run, its bind
/// succeeded, and no earlier attempt had a bind that succeeded: only the
/// first start that can succeed does.
pub proof fn lemma_only_first_start_succeeds<H, C>(
    state: ContextState<H, C>,
    attempts: Seq<Option<H>>,
    i: int,
)
    requires
        0 <= i < attempts.len(),
    ensures
        start_succeeds(state, attempts, i) <==> {
            &&& !state.running
            &&& attempts[i] is Some
            &&& forall|k: int| 0 <= k < i ==> attempts[k] is None
        },
{
    let earlier = attempts.subrange(0, i);
    if state.running {
        lemma_starts_while_running(state, earlier);
    } else if forall|k: int| 0 <= k < i ==> attempts[k] is None {
        lemma_starts_unbound(state, earlier);
    } else {
        let k = choose|k: int| 0 <= k < i && attempts[k] is Some;
        lemma_first_some(earlier, k);
        let first = choose|j: int|
            0 <= j <= k && earlier[j] is Some && forall|m: int| 0 <= m < j ==> earlier[m] is None;
        lemma_starts_first_bound(state, earlier, first);
        assert(attempts[first] is Some);
    }
}

proof fn lemma_first_some<H>(attempts: Seq<Option<H>>, k: int)
    requires
        0 <= k < attempts.len(),
        attempts[k] is Some,
    ensures
        exists|j: int|
            0 <= j <= k && attempts[j] is Some && forall|m: int|
                0 <= m < j ==> attempts[m] is None,
    decreases k,
{
    if forall|m: int| 0 <= m < k ==> attempts[m] is None {
        assert(0 <= k <= k && attempts[k] is Some && forall|m: int|
            0 <= m < k ==> attempts[m] is None);
    } else {
        let m = choose|m: int| 0 <= m < k && attempts[m] is Some;
        lemma_first_some(attempts, m);
        let j = choose|j: int|
            0 <= j <= m && attempts[j] is Some && forall|n: int|
                0 <= n < j ==> attempts[n] is None;
        assert(0 <= j <= k && attempts[j] is Some && forall|n: int|
            0 <= n < j ==> attempts[n] is None);
    }
}

/// Starts that follow a successful start do not replace its loop: after the
/// whole run the context runs, holds the token of the attempt that
/// succeeded, and has the callback it had.
pub proof fn lemma_started_listener_stays<H, C>(
    state: ContextState<H, C>,
    attempts: Seq<Option<H>>,
    i: int,
)
    requires
        0 <= i < attempts.len(),
        start_succeeds(state, attempts, i),
    ensures
        after_starts(state, attempts) == (ContextState {
            running: true,
            listener: attempts[i],
            callback: state.callback,
        }),
{
    lemma_only_first_start_succeeds(state, attempts, i);
    lemma_starts_first_bound(state, attempts, i);
}

/// While a loop runs, every start is refused, before any bind, and changes
/// nothing.
pub proof fn lemma_start_refused_while_running<H, C>(
    state: ContextState<H, C>,
    port: u16,
    spawned: Option<H>,
)
    requires
        state.running,
    ensures
        state.bind_address(port) is None,
        !state.accepts_start(spawned),
        state.started(spawned) == state,
{
}

/// After a shutdown a start on any port is let through to its bind, and
/// succeeds when the bind does: nothing of the earlier listener is in its
/// way.
pub proof fn lemma_restart_after_shutdown<H, C>(state: ContextState<H, C>, port: u16, token: H)
    ensures
        state.stopped().bind_address(port) == Some(listen_text(port)),
        state.stopped().accepts_start(Some(token)),
        state.stopped().started(Some(token)) == (ContextState::<H, C> {
            running: true,
            listener: Some(token),
            callback: None,
        }),
        state.stopped().started(Some(token)).wf(),
{
}

/// A shutdown leaves the same quiescent state whatever the state before it,
/// so a second shutdown changes nothing, and neither does a stop signal
/// before the shutdown or after it.
pub proof fn lemma_shutdown_converges<H, C>(state: ContextState<H, C>, other: ContextState<H, C>)
    ensures
        state.stopped().is_quiescent(),
        state.stopped().wf(),
        state.stopped() == other.stopped(),
        state.stopped().stopped() == state.stopped(),
        state.signalled().stopped() == state.stopped(),
        state.stopped().signalled() == state.stopped(),
{
}

/// Every cycle of a reset followed by a shutdown ends in the same quiescent
/// state, from whatever state the first cycle began.
pub proof fn lemma_cycles_end_quiescent<H, C>(state: ContextState<H, C>, cycles: nat)
    requires
        cycles >= 1,
    ensures
        after_cycles(state, cycles).is_quiescent(),
        after_cycles(state, cycles) == state.stopped(),
{
}

/// The invariant of the context is kept by every operation.
pub proof fn lemma_operations_keep_wf<H, C>(
    state: ContextState<H, C>,
    callback: C,
    spawned: Option<H>,
)
    requires
        state.wf(),
    ensures
        state.reset().wf(),
        state.registered(callback).wf(),
        state.unregistered().wf(),
        state.started(spawned).wf(),
        state.signalled().wf(),
        state.stopped().wf(),
{
}

} // verus!

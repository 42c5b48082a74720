//! Instrumentation core for a scripting virtual machine that runs as three
//! isolated contexts (server, client, UI) inside one host process.
//!
//! The library models the observable logic of the instrumentation: resolving
//! which context a call belongs to, emitting trace records in call order,
//! cooperatively pausing a context at intercepted entry points, best-effort
//! reconstruction of the executing function's name from the operand stack,
//! and all-or-nothing installation of the per-context detour tables.  The
//! host-process plumbing that Verus cannot check (raw detours, raw memory
//! reads, threads, the front-end window) lives outside this crate and drives
//! these functions.

use vstd::prelude::*;

pub mod context;
pub mod debug;
pub mod hooks;
pub mod stacktrace;

use context::ScriptContext;
use debug::DebugState;
use stacktrace::StackTrace;
use stacktrace::TraceEvent;

verus! {

/// One value of type `T` for each of the three script contexts.
pub struct VmSpecific<T> {
    server: T,
    client: T,
    ui: T,
}

impl<T> VmSpecific<T> {
    /// The value held for a given context.
    pub closed spec fn spec_get(self, context: ScriptContext) -> T {
        match context {
            ScriptContext::Server => self.server,
            ScriptContext::Client => self.client,
            ScriptContext::Ui => self.ui,
        }
    }

    /// Builds a holder from one explicit value per context.
    pub fn from_values(server: T, client: T, ui: T) -> (r: Self)
        ensures
            r.spec_get(ScriptContext::Server) == server,
            r.spec_get(ScriptContext::Client) == client,
            r.spec_get(ScriptContext::Ui) == ui,
    {
        Self { server, client, ui }
    }

    /// Borrows the value held for `context`.
    pub fn get(&self, context: ScriptContext) -> (r: &T)
        ensures
            *r == self.spec_get(context),
    {
        match context {
            ScriptContext::Server => &self.server,
            ScriptContext::Client => &self.client,
            ScriptContext::Ui => &self.ui,
        }
    }

    /// Mutably borrows the value held for `context`; the other two contexts'
    /// values are untouched.
    pub fn get_mut(&mut self, context: ScriptContext) -> (r: &mut T)
        ensures
            *r == old(self).spec_get(context),
            final(self).spec_get(context) == *final(r),
            forall|o: ScriptContext|
                o != context ==> #[trigger] final(self).spec_get(o) == old(self).spec_get(o),
    {
        match context {
            ScriptContext::Server => &mut self.server,
            ScriptContext::Client => &mut self.client,
            ScriptContext::Ui => &mut self.ui,
        }
    }
}

impl<T: Default> VmSpecific<T> {
    /// Builds a holder with each context's slot set to the type's default
    /// value.  Nothing further is promised of the slots, since `default` on
    /// an arbitrary type has no specification.
    pub fn new() -> Self {
        Self { server: T::default(), client: T::default(), ui: T::default() }
    }
}

impl<T: Default> Default for VmSpecific<T> {
    fn default() -> Self {
        Self::new()
    }
}

/// The process-lifetime state of the instrumentation: the stream of trace
/// records handed to the front end, and the per-context debug state.
///
/// The host wraps this in interior synchronization; the interception layer
/// mutates it through the hook functions, and the front end through
/// [`DebugPlugin::set_paused`] and [`DebugPlugin::signal_continue`].
pub struct DebugPlugin {
    /// The records emitted so far, oldest first, each tagged with the
    /// context that observed the event.  This models the in-order stream the
    /// consuming front end drains.
    pub trace_log: Vec<(ScriptContext, StackTrace)>,
    /// Whether the consuming front end is still attached.  Emission into a
    /// disconnected stream drops the record; the core keeps operating.
    pub connected: bool,
    /// The pause flag and rendezvous slot of each context.
    pub debug_info: VmSpecific<DebugState>,
}

impl DebugPlugin {
    /// Fresh instrumentation state: nothing emitted, the front end attached,
    /// every context running with an empty rendezvous slot.
    pub fn new() -> (r: Self)
        ensures
            r.trace_log@.len() == 0,
            r.connected,
            forall|c: ScriptContext| #[trigger]
                r.debug_info.spec_get(c) == DebugState::spec_initial(),
    {
        Self {
            trace_log: Vec::new(),
            connected: true,
            debug_info: VmSpecific::from_values(
                DebugState::default(),
                DebugState::default(),
                DebugState::default(),
            ),
        }
    }

    /// Notes that the consuming front end has gone away.  Records emitted
    /// from here on are dropped; nothing else changes, and the loss is never
    /// surfaced to the VM call path.
    pub fn disconnect(&mut self)
        ensures
            !final(self).connected,
            final(self).trace_log == old(self).trace_log,
            final(self).debug_info == old(self).debug_info,
    {
        self.connected = false;
    }

    /// Front-end control: pauses or resumes one context.  Pausing is
    /// cooperative and coarse — it holds the next intercepted entry on that
    /// context, not an arbitrary instruction — and touches nothing else.
    pub fn set_paused(&mut self, context: ScriptContext, paused: bool)
        ensures
            control_post(
                *old(self),
                *final(self),
                context,
                debug::set_paused_post(old(self).debug_info.spec_get(context), paused),
            ),
    {
        self.debug_info.get_mut(context).set_paused(paused);
    }

    /// Front-end control: delivers one continue signal to a context, without
    /// blocking.  If a previous signal has not been consumed yet this one is
    /// dropped: the rendezvous slot never holds more than one.
    pub fn signal_continue(&mut self, context: ScriptContext)
        ensures
            control_post(
                *old(self),
                *final(self),
                context,
                debug::signal_post(old(self).debug_info.spec_get(context)),
            ),
    {
        self.debug_info.get_mut(context).signal_continue();
    }
}

/// What a control operation does to the instrumentation state: the addressed
/// context's debug state becomes `s`, every other context's debug state is
/// untouched, and the trace stream is not disturbed.
pub open spec fn control_post(
    pre: DebugPlugin,
    post: DebugPlugin,
    c: ScriptContext,
    s: DebugState,
) -> bool {
    &&& post.connected == pre.connected
    &&& post.trace_log == pre.trace_log
    &&& post.debug_info.spec_get(c) == s
    &&& forall|o: ScriptContext|
        o != c ==> #[trigger] post.debug_info.spec_get(o) == pre.debug_info.spec_get(o)
}

/// The ghost-level contents of the trace stream: each record as its
/// [`TraceEvent`], still tagged with its context.
pub open spec fn log_view(log: Seq<(ScriptContext, StackTrace)>) -> Seq<(ScriptContext, TraceEvent)> {
    log.map(|_j: int, e: (ScriptContext, StackTrace)| (e.0, e.1@))
}

/// The records of the stream that belong to one context, in stream order.
pub open spec fn context_trace(log: Seq<(ScriptContext, TraceEvent)>, c: ScriptContext) -> Seq<
    TraceEvent,
>
    decreases log.len(),
{
    if log.len() == 0 {
        Seq::empty()
    } else if log.last().0 == c {
        context_trace(log.drop_last(), c).push(log.last().1)
    } else {
        context_trace(log.drop_last(), c)
    }
}

/// Appending one tagged record to the stream appends it to its own context's
/// trace and leaves every other context's trace unchanged.
pub proof fn lemma_context_trace_push(
    log: Seq<(ScriptContext, TraceEvent)>,
    e: (ScriptContext, TraceEvent),
    c: ScriptContext,
)
    ensures
        context_trace(log.push(e), c) == if e.0 == c {
            context_trace(log, c).push(e.1)
        } else {
            context_trace(log, c)
        },
{
    assert(log.push(e).drop_last() =~= log);
    assert(log.push(e).last() == e);
}

/// Concatenating streams concatenates each context's trace.
pub proof fn lemma_context_trace_add(
    log: Seq<(ScriptContext, TraceEvent)>,
    extra: Seq<(ScriptContext, TraceEvent)>,
    c: ScriptContext,
)
    ensures
        context_trace(log + extra, c) == context_trace(log, c) + context_trace(extra, c),
    decreases extra.len(),
{
    if extra.len() == 0 {
        assert(log + extra =~= log);
        assert(context_trace(log, c) + context_trace(extra, c) =~= context_trace(log, c));
    } else {
        lemma_context_trace_add(log, extra.drop_last(), c);
        lemma_context_trace_push(log + extra.drop_last(), extra.last(), c);
        assert((log + extra.drop_last()).push(extra.last()) =~= log + extra);
        if extra.last().0 == c {
            assert(context_trace(extra.drop_last(), c).push(extra.last().1) == context_trace(
                extra,
                c,
            ));
            assert(context_trace(log, c) + context_trace(extra.drop_last(), c).push(
                extra.last().1,
            ) =~= (context_trace(log, c) + context_trace(extra.drop_last(), c)).push(
                extra.last().1,
            ));
        }
    }
}

} // verus!

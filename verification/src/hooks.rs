//! Interception registry and the intercepted entry points.
//!
//! The registry owns, per context, the set of detours over the VM entry
//! points, installed all-or-nothing when that context's module loads.  Each
//! intercepted call resolves its context, emits trace records for observable
//! actions, runs the pause check, and then forwards to the original function
//! with unmodified arguments.
//!
//! The redirects themselves are host-process work: the host attempts to
//! create and enable one machine-level redirect per entry point and reports
//! each outcome here; this module decides what is committed.  A hook function
//! below is the decision half of one intercepted call: the host invokes it
//! with the call's arguments, blocks on the rendezvous while the decision is
//! [`EntryDecision::Blocked`], and then forwards the returned arguments to
//! the captured original function, passing its result back to the engine
//! untouched.

use vstd::prelude::*;

use crate::DebugPlugin;
use crate::context::ScriptContext;
use crate::context::SqVm;
use crate::context::sqvm_to_context;
use crate::debug::DebugState;
use crate::debug::EntryDecision;
use crate::debug::enter_decision;
use crate::debug::enter_post;
use crate::log_view;
use crate::context_trace;
use crate::lemma_context_trace_add;
use crate::stacktrace::StackTrace;
use crate::stacktrace::TraceEvent;
use crate::stacktrace::call_name;
use crate::stacktrace::dec_str;
use crate::stacktrace::int_str;
use crate::stacktrace::int_to_string;
use crate::stacktrace::unsigned_to_string;

verus! {

/// The VM entry points the registry targets, one detour each.
#[derive(Clone, Copy, Debug, PartialEq, Eq, Structural)]
pub enum EntryPoint {
    DefConst,
    CompileBuffer,
    Call,
    RaiseError,
    CompileFile,
    NewArray,
    ArrayAppend,
    NewTable,
    NewSlot,
    PushRootTable,
    PushString,
    PushInteger,
    PushFloat,
    PushBool,
    PushAsset,
    PushVector,
    PushObject,
    GetString,
    GetInteger,
    GetFloat,
    GetBool,
    Get,
    GetAsset,
    GetUserdata,
    GetVector,
    GetThisEntity,
    GetObject,
    StackInfos,
    CreateUserdata,
    SetUserdataTypeId,
    GetFunction,
    GetEntityFromInstance,
    PushNewStructInstance,
    SealStructSlot,
}

/// How many entry points a detour table covers.
pub const ENTRY_COUNT: usize = 34;

/// The entry point at a given position of a detour table.
pub open spec fn entry_of(i: int) -> EntryPoint {
    if i == 0 {
        EntryPoint::DefConst
    } else if i == 1 {
        EntryPoint::CompileBuffer
    } else if i == 2 {
        EntryPoint::Call
    } else if i == 3 {
        EntryPoint::RaiseError
    } else if i == 4 {
        EntryPoint::CompileFile
    } else if i == 5 {
        EntryPoint::NewArray
    } else if i == 6 {
        EntryPoint::ArrayAppend
    } else if i == 7 {
        EntryPoint::NewTable
    } else if i == 8 {
        EntryPoint::NewSlot
    } else if i == 9 {
        EntryPoint::PushRootTable
    } else if i == 10 {
        EntryPoint::PushString
    } else if i == 11 {
        EntryPoint::PushInteger
    } else if i == 12 {
        EntryPoint::PushFloat
    } else if i == 13 {
        EntryPoint::PushBool
    } else if i == 14 {
        EntryPoint::PushAsset
    } else if i == 15 {
        EntryPoint::PushVector
    } else if i == 16 {
        EntryPoint::PushObject
    } else if i == 17 {
        EntryPoint::GetString
    } else if i == 18 {
        EntryPoint::GetInteger
    } else if i == 19 {
        EntryPoint::GetFloat
    } else if i == 20 {
        EntryPoint::GetBool
    } else if i == 21 {
        EntryPoint::Get
    } else if i == 22 {
        EntryPoint::GetAsset
    } else if i == 23 {
        EntryPoint::GetUserdata
    } else if i == 24 {
        EntryPoint::GetVector
    } else if i == 25 {
        EntryPoint::GetThisEntity
    } else if i == 26 {
        EntryPoint::GetObject
    } else if i == 27 {
        EntryPoint::StackInfos
    } else if i == 28 {
        EntryPoint::CreateUserdata
    } else if i == 29 {
        EntryPoint::SetUserdataTypeId
    } else if i == 30 {
        EntryPoint::GetFunction
    } else if i == 31 {
        EntryPoint::GetEntityFromInstance
    } else if i == 32 {
        EntryPoint::PushNewStructInstance
    } else {
        EntryPoint::SealStructSlot
    }
}

/// The entry point at a given position of a detour table.
pub fn entry_at(i: usize) -> (e: EntryPoint)
    requires
        i < ENTRY_COUNT,
    ensures
        e == entry_of(i as int),
{
    if i == 0 {
        EntryPoint::DefConst
    } else if i == 1 {
        EntryPoint::CompileBuffer
    } else if i == 2 {
        EntryPoint::Call
    } else if i == 3 {
        EntryPoint::RaiseError
    } else if i == 4 {
        EntryPoint::CompileFile
    } else if i == 5 {
        EntryPoint::NewArray
    } else if i == 6 {
        EntryPoint::ArrayAppend
    } else if i == 7 {
        EntryPoint::NewTable
    } else if i == 8 {
        EntryPoint::NewSlot
    } else if i == 9 {
        EntryPoint::PushRootTable
    } else if i == 10 {
        EntryPoint::PushString
    } else if i == 11 {
        EntryPoint::PushInteger
    } else if i == 12 {
        EntryPoint::PushFloat
    } else if i == 13 {
        EntryPoint::PushBool
    } else if i == 14 {
        EntryPoint::PushAsset
    } else if i == 15 {
        EntryPoint::PushVector
    } else if i == 16 {
        EntryPoint::PushObject
    } else if i == 17 {
        EntryPoint::GetString
    } else if i == 18 {
        EntryPoint::GetInteger
    } else if i == 19 {
        EntryPoint::GetFloat
    } else if i == 20 {
        EntryPoint::GetBool
    } else if i == 21 {
        EntryPoint::Get
    } else if i == 22 {
        EntryPoint::GetAsset
    } else if i == 23 {
        EntryPoint::GetUserdata
    } else if i == 24 {
        EntryPoint::GetVector
    } else if i == 25 {
        EntryPoint::GetThisEntity
    } else if i == 26 {
        EntryPoint::GetObject
    } else if i == 27 {
        EntryPoint::StackInfos
    } else if i == 28 {
        EntryPoint::CreateUserdata
    } else if i == 29 {
        EntryPoint::SetUserdataTypeId
    } else if i == 30 {
        EntryPoint::GetFunction
    } else if i == 31 {
        EntryPoint::GetEntityFromInstance
    } else if i == 32 {
        EntryPoint::PushNewStructInstance
    } else {
        EntryPoint::SealStructSlot
    }
}

/// An installed redirect for one entry point: the capability to intercept it
/// and, through the captured trampoline, to invoke the original function.
/// Owned exclusively by its detour table.
#[derive(Clone, Copy, Debug, PartialEq, Eq, Structural)]
pub struct Detour {
    /// The entry point this redirect covers.
    pub entry: EntryPoint,
    /// Whether the redirect is active.
    pub enabled: bool,
}

/// Why installing a context's instrumentation failed.  Installation errors
/// are not retried; they are fatal to that context's instrumentation only,
/// and name the entry point that failed.
#[derive(Clone, Copy, Debug, PartialEq, Eq, Structural)]
pub enum InstallError {
    /// The redirect for this entry point could not be created.
    Create(EntryPoint),
    /// The redirect for this entry point could not be enabled.
    Enable(EntryPoint),
    /// The context already has an active detour table.
    AlreadyInstalled,
}

/// The position of the first failed outcome, if any.
pub open spec fn first_failure_at(oks: Seq<bool>, i: int) -> Option<int>
    decreases oks.len() - i,
{
    if i < 0 || i >= oks.len() {
        None
    } else if !oks[i] {
        Some(i)
    } else {
        first_failure_at(oks, i + 1)
    }
}

/// The full set of detours over the VM entry points for one context's
/// module.  Constructed all-or-nothing; never uninstalled for the life of
/// the process.
pub struct DetouredSquirrelFunctions {
    detours: Vec<Detour>,
}

impl DetouredSquirrelFunctions {
    /// The detours held, one per entry point, in table order.
    pub closed spec fn spec_detours(self) -> Seq<Detour> {
        self.detours@
    }

    /// A complete table: one detour per entry point, each covering its own
    /// entry.
    pub open spec fn wf(self) -> bool {
        &&& self.spec_detours().len() == ENTRY_COUNT
        &&& forall|i: int|
            0 <= i < ENTRY_COUNT ==> (#[trigger] self.spec_detours()[i]).entry == entry_of(i)
    }

    /// Every redirect in the table is active.
    pub open spec fn all_enabled(self) -> bool {
        forall|i: int|
            0 <= i < self.spec_detours().len() ==> (#[trigger] self.spec_detours()[i]).enabled
    }

    /// Builds the table from the host's per-entry creation outcomes, in
    /// table order.  Fails fast: the first entry point whose redirect could
    /// not be created is reported and nothing is committed.  On success every
    /// redirect exists but none is active yet.
    pub fn try_new(created_ok: &Vec<bool>) -> (r: Result<Self, InstallError>)
        requires
            created_ok@.len() == ENTRY_COUNT,
        ensures
            match first_failure_at(created_ok@, 0) {
                Option::None => r matches Ok(t) && t.wf() && !t.any_enabled(),
                Option::Some(f) => r == Err::<Self, InstallError>(
                    InstallError::Create(entry_of(f)),
                ),
            },
    {
        let mut detours: Vec<Detour> = Vec::new();
        let mut i: usize = 0;
        while i < ENTRY_COUNT
            invariant
                created_ok@.len() == ENTRY_COUNT,
                i <= ENTRY_COUNT,
                detours@.len() == i,
                forall|j: int|
                    0 <= j < i ==> (#[trigger] detours@[j]) == (Detour {
                        entry: entry_of(j),
                        enabled: false,
                    }),
                first_failure_at(created_ok@, 0) == first_failure_at(created_ok@, i as int),
            decreases ENTRY_COUNT - i,
        {
            if !created_ok[i] {
                return Err(InstallError::Create(entry_at(i)));
            }
            let entry = entry_at(i);
            detours.push(Detour { entry, enabled: false });
            i += 1;
        }
        Ok(DetouredSquirrelFunctions { detours })
    }

    /// Some redirect in the table is active.
    pub open spec fn any_enabled(self) -> bool {
        exists|i: int|
            0 <= i < self.spec_detours().len() && (#[trigger] self.spec_detours()[i]).enabled
    }

    /// Activates every redirect, from the host's per-entry enable outcomes in
    /// table order.  Enabling must complete entirely: on the first failure
    /// the constructed table is discarded and the failing entry point
    /// reported; on success the table returned has every redirect active.
    pub fn enable(self, enable_ok: &Vec<bool>) -> (r: Result<Self, InstallError>)
        requires
            self.wf(),
            enable_ok@.len() == ENTRY_COUNT,
        ensures
            match first_failure_at(enable_ok@, 0) {
                Option::None => r matches Ok(t) && t.wf() && t.all_enabled(),
                Option::Some(f) => r == Err::<Self, InstallError>(
                    InstallError::Enable(entry_of(f)),
                ),
            },
    {
        let mut detours: Vec<Detour> = Vec::new();
        let mut i: usize = 0;
        while i < ENTRY_COUNT
            invariant
                enable_ok@.len() == ENTRY_COUNT,
                i <= ENTRY_COUNT,
                detours@.len() == i,
                forall|j: int|
                    0 <= j < i ==> (#[trigger] detours@[j]) == (Detour {
                        entry: entry_of(j),
                        enabled: true,
                    }),
                first_failure_at(enable_ok@, 0) == first_failure_at(enable_ok@, i as int),
            decreases ENTRY_COUNT - i,
        {
            if !enable_ok[i] {
                return Err(InstallError::Enable(entry_at(i)));
            }
            let entry = entry_at(i);
            detours.push(Detour { entry, enabled: true });
            i += 1;
        }
        Ok(DetouredSquirrelFunctions { detours })
    }
}

/// Which module the host has just finished loading.
#[derive(Clone, Copy, Debug, PartialEq, Eq, Structural)]
pub enum WhichDll {
    Client,
    Server,
    Other,
}

/// The per-context detour tables, at most one active table per context for
/// the life of the process.  The UI context shares the client module's
/// function table, so only the server and client modules carry one.
///
/// A context without an installed table never triggers interception: its
/// calls go straight to the engine, with no tracing and no pause support —
/// a degraded state distinct from an active, unpaused context.
pub struct DetourRegistry {
    server_detours: Option<DetouredSquirrelFunctions>,
    client_detours: Option<DetouredSquirrelFunctions>,
}

impl DetourRegistry {
    /// The table installed for the server module, if any.
    pub closed spec fn server_table(self) -> Option<DetouredSquirrelFunctions> {
        self.server_detours
    }

    /// The table installed for the client module, if any.
    pub closed spec fn client_table(self) -> Option<DetouredSquirrelFunctions> {
        self.client_detours
    }

    /// The table that serves a module.
    pub open spec fn table_for(self, dll: WhichDll) -> Option<DetouredSquirrelFunctions> {
        match dll {
            WhichDll::Server => self.server_table(),
            WhichDll::Client => self.client_table(),
            WhichDll::Other => Option::None,
        }
    }

    /// Whether a module's instrumentation is active.
    pub open spec fn installed(self, dll: WhichDll) -> bool {
        self.table_for(dll) is Some
    }

    /// A registry with no instrumentation installed yet.
    pub fn new() -> (r: Self)
        ensures
            !r.installed(WhichDll::Server),
            !r.installed(WhichDll::Client),
    {
        DetourRegistry { server_detours: Option::None, client_detours: Option::None }
    }
}

/// What one module-load installation attempt does to the registry.
///
/// A module other than server or client is ignored.  A context that is
/// already instrumented rejects re-installation outright, leaving the one
/// active table in place.  Otherwise the table is committed only when every
/// redirect was created and enabled; any failure leaves the registry exactly
/// as it was, and the other context is never affected.
pub open spec fn init_hooks_post(
    pre: DetourRegistry,
    post: DetourRegistry,
    dll: WhichDll,
    created_ok: Seq<bool>,
    enable_ok: Seq<bool>,
    r: Result<(), InstallError>,
) -> bool {
    if dll is Other {
        &&& post == pre
        &&& r is Ok
    } else if pre.installed(dll) {
        &&& post == pre
        &&& r == Err::<(), InstallError>(InstallError::AlreadyInstalled)
    } else {
        match first_failure_at(created_ok, 0) {
            Option::Some(f) => {
                &&& post == pre
                &&& r == Err::<(), InstallError>(InstallError::Create(entry_of(f)))
            },
            Option::None => match first_failure_at(enable_ok, 0) {
                Option::Some(f) => {
                    &&& post == pre
                    &&& r == Err::<(), InstallError>(InstallError::Enable(entry_of(f)))
                },
                Option::None => {
                    &&& r is Ok
                    &&& post.table_for(dll) matches Some(t) && t.wf() && t.all_enabled()
                    &&& forall|d: WhichDll|
                        d != dll ==> #[trigger] post.table_for(d) == pre.table_for(d)
                },
            },
        }
    }
}

impl DetourRegistry {
    /// Installs the detour table for a just-loaded module, from the host's
    /// per-entry creation and enabling outcomes.  Installation is
    /// all-or-nothing and happens at most once per context: see
    /// [`init_hooks_post`].
    pub fn init_hooks(
        &mut self,
        dll: WhichDll,
        created_ok: &Vec<bool>,
        enable_ok: &Vec<bool>,
    ) -> (r: Result<(), InstallError>)
        requires
            created_ok@.len() == ENTRY_COUNT,
            enable_ok@.len() == ENTRY_COUNT,
        ensures
            init_hooks_post(*old(self), *final(self), dll, created_ok@, enable_ok@, r),
    {
        match dll {
            WhichDll::Other => Ok(()),
            WhichDll::Server => {
                if self.server_detours.is_some() {
                    return Err(InstallError::AlreadyInstalled);
                }
                let table = match DetouredSquirrelFunctions::try_new(created_ok) {
                    Ok(t) => t,
                    Err(e) => {
                        return Err(e);
                    },
                };
                let enabled = match table.enable(enable_ok) {
                    Ok(t) => t,
                    Err(e) => {
                        return Err(e);
                    },
                };
                self.server_detours = Option::Some(enabled);
                Ok(())
            },
            WhichDll::Client => {
                if self.client_detours.is_some() {
                    return Err(InstallError::AlreadyInstalled);
                }
                let table = match DetouredSquirrelFunctions::try_new(created_ok) {
                    Ok(t) => t,
                    Err(e) => {
                        return Err(e);
                    },
                };
                let enabled = match table.enable(enable_ok) {
                    Ok(t) => t,
                    Err(e) => {
                        return Err(e);
                    },
                };
                self.client_detours = Option::Some(enabled);
                Ok(())
            },
        }
    }

    /// The detour table that serves a VM, by its context.  The server
    /// context uses the server module's table; the client and UI contexts —
    /// and, deliberately, any unrecognized context — fall back to the client
    /// module's table, since the UI context shares the client's VM function
    /// table.
    pub fn hooks_from_sqvm(&self, sqvm: &SqVm) -> (r: &Option<DetouredSquirrelFunctions>)
        requires
            sqvm.wf(),
        ensures
            *r == if sqvm.context() is Server {
                self.server_table()
            } else {
                self.client_table()
            },
    {
        match sqvm_to_context(sqvm) {
            ScriptContext::Server => &self.server_detours,
            _ => &self.client_detours,
        }
    }
}

/// Installation happens at most once per context: after a successful
/// installation, a second attempt for the same module is rejected and leaves
/// the registry — and so the one active table — exactly as it was.  Two
/// overlapping detour sets never exist.
pub proof fn lemma_install_exactly_once(
    r0: DetourRegistry,
    r1: DetourRegistry,
    r2: DetourRegistry,
    dll: WhichDll,
    c1: Seq<bool>,
    e1: Seq<bool>,
    c2: Seq<bool>,
    e2: Seq<bool>,
    res1: Result<(), InstallError>,
    res2: Result<(), InstallError>,
)
    requires
        dll != WhichDll::Other,
        init_hooks_post(r0, r1, dll, c1, e1, res1),
        res1 is Ok,
        !r0.installed(dll),
        init_hooks_post(r1, r2, dll, c2, e2, res2),
    ensures
        r1.installed(dll),
        res2 == Err::<(), InstallError>(InstallError::AlreadyInstalled),
        r2 == r1,
{
}

/// One installation failure is contained: the failed context commits
/// nothing, and the other module's table is exactly what it was.
pub proof fn lemma_install_failure_contained(
    r0: DetourRegistry,
    r1: DetourRegistry,
    dll: WhichDll,
    c1: Seq<bool>,
    e1: Seq<bool>,
    res1: Result<(), InstallError>,
    other: WhichDll,
)
    requires
        init_hooks_post(r0, r1, dll, c1, e1, res1),
        res1 is Err,
        other != dll,
    ensures
        r1 == r0,
        r1.table_for(other) == r0.table_for(other),
{
}

/// A call argument the interception only passes through: a pointer or other
/// machine word of the host whose value the instrumentation never reads.
pub type EngineWord = u64;

/// The stack-depth hint carried by the record emitted at every intercepted
/// entry.
pub const DEBUG_STACK_DEPTH_HINT: i32 = 8;

/// Tags each record with the context that observed it.
pub open spec fn hook_records(c: ScriptContext, recs: Seq<TraceEvent>) -> Seq<
    (ScriptContext, TraceEvent),
> {
    recs.map(|_j: int, r: TraceEvent| (c, r))
}

/// What one intercepted entry does to the instrumentation state: while the
/// front end is attached, exactly the entry's records are appended to the
/// stream, tagged with the observing context, in the order given (with it
/// gone they are dropped); the context's debug state takes one entry-check
/// step whose decision is `d`; the other contexts' debug states are
/// untouched.
pub open spec fn hook_post(
    pre: DebugPlugin,
    post: DebugPlugin,
    c: ScriptContext,
    recs: Seq<TraceEvent>,
    d: EntryDecision,
) -> bool {
    &&& post.connected == pre.connected
    &&& log_view(post.trace_log@) == log_view(pre.trace_log@) + (if pre.connected {
        hook_records(c, recs)
    } else {
        Seq::<(ScriptContext, TraceEvent)>::empty()
    })
    &&& d == enter_decision(pre.debug_info.spec_get(c))
    &&& post.debug_info.spec_get(c) == enter_post(pre.debug_info.spec_get(c))
    &&& forall|o: ScriptContext|
        o != c ==> #[trigger] post.debug_info.spec_get(o) == pre.debug_info.spec_get(o)
}

/// The record sequence of an intercepted entry that logs nothing of its own:
/// only the begin-of-entry record.
pub open spec fn plain_entry() -> Seq<TraceEvent> {
    seq![TraceEvent::DebugBegin(DEBUG_STACK_DEPTH_HINT as int)]
}

/// The record sequence of an intercepted entry that logs one observable
/// action before the begin-of-entry record.
pub open spec fn logged_entry(rec: TraceEvent) -> Seq<TraceEvent> {
    seq![rec, TraceEvent::DebugBegin(DEBUG_STACK_DEPTH_HINT as int)]
}

/// Emits one record onto the front-end stream, tagged with the VM's context.
/// Best-effort: with the consumer gone the record is dropped and the call
/// path is not disturbed.
pub fn push_log(plugin: &mut DebugPlugin, sqvm: &SqVm, log: StackTrace)
    requires
        sqvm.wf(),
    ensures
        final(plugin).connected == old(plugin).connected,
        final(plugin).debug_info == old(plugin).debug_info,
        log_view(final(plugin).trace_log@) == log_view(old(plugin).trace_log@) + (if old(
            plugin,
        ).connected {
            seq![(sqvm.context(), log@)]
        } else {
            Seq::<(ScriptContext, TraceEvent)>::empty()
        }),
{
    let context = sqvm_to_context(sqvm);
    if plugin.connected {
        plugin.trace_log.push((context, log));
        proof {
            assert(log_view(plugin.trace_log@) =~= log_view(old(plugin).trace_log@) + seq![
                (sqvm.context(), log@),
            ]);
        }
    } else {
        proof {
            assert(log_view(plugin.trace_log@) =~= log_view(old(plugin).trace_log@) + Seq::<
                (ScriptContext, TraceEvent),
            >::empty());
        }
    }
}

/// The entry check every intercepted call makes: emits the begin-of-entry
/// record, then takes one step of the context's pause state machine.  The
/// host blocks the calling thread on the rendezvous while the decision is
/// [`EntryDecision::Blocked`], repeating the check when woken.
pub fn try_debug(plugin: &mut DebugPlugin, sqvm: &SqVm) -> (d: EntryDecision)
    requires
        sqvm.wf(),
    ensures
        hook_post(
            *old(plugin),
            *final(plugin),
            sqvm.context(),
            plain_entry(),
            d,
        ),
{
    let context = sqvm_to_context(sqvm);
    push_log(plugin, sqvm, StackTrace::DebugBegin(DEBUG_STACK_DEPTH_HINT));
    let state = plugin.debug_info.get_mut(context);
    let d = state.try_enter();
    proof {
        assert(hook_records(
            sqvm.context(),
            seq![TraceEvent::DebugBegin(DEBUG_STACK_DEPTH_HINT as int)],
        ) =~= seq![(sqvm.context(), TraceEvent::DebugBegin(DEBUG_STACK_DEPTH_HINT as int))]);
    }
    d
}

/// Emits one observable-action record and then runs the entry check, the
/// shared body of the logging hooks.
fn observe(plugin: &mut DebugPlugin, sqvm: &SqVm, rec: StackTrace) -> (d: EntryDecision)
    requires
        sqvm.wf(),
    ensures
        hook_post(
            *old(plugin),
            *final(plugin),
            sqvm.context(),
            logged_entry(rec@),
            d,
        ),
{
    let ghost pre = *plugin;
    push_log(plugin, sqvm, rec);
    let d = try_debug(plugin, sqvm);
    proof {
        let c = sqvm.context();
        let recs = seq![rec@, TraceEvent::DebugBegin(DEBUG_STACK_DEPTH_HINT as int)];
        assert(hook_records(c, recs) =~= seq![(c, rec@)] + hook_records(
            c,
            seq![TraceEvent::DebugBegin(DEBUG_STACK_DEPTH_HINT as int)],
        ));
        if pre.connected {
            assert(log_view(plugin.trace_log@) =~= log_view(pre.trace_log@) + hook_records(
                c,
                recs,
            ));
        } else {
            assert(log_view(plugin.trace_log@) =~= log_view(pre.trace_log@) + Seq::<
                (ScriptContext, TraceEvent),
            >::empty());
        }
    }
    d
}

/// Intercepts "define constant": gate, then forward the arguments unchanged.
pub fn hook_sq_defconst(plugin: &mut DebugPlugin, sqvm: &SqVm, name: String, value: i32) -> (out: (
    String,
    i32,
    EntryDecision,
))
    requires
        sqvm.wf(),
    ensures
        out.0 == name,
        out.1 == value,
        hook_post(*old(plugin), *final(plugin), sqvm.context(), plain_entry(), out.2),
{
    let d = try_debug(plugin, sqvm);
    (name, value, d)
}

/// Intercepts "compile buffer": gate, then forward the arguments unchanged.
pub fn hook_sq_compilebuffer(
    plugin: &mut DebugPlugin,
    sqvm: &SqVm,
    compile_buffer: EngineWord,
    file: String,
    a1: i32,
    should_throw_error: u32,
) -> (out: (EngineWord, String, i32, u32, EntryDecision))
    requires
        sqvm.wf(),
    ensures
        out.0 == compile_buffer,
        out.1 == file,
        out.2 == a1,
        out.3 == should_throw_error,
        hook_post(*old(plugin), *final(plugin), sqvm.context(), plain_entry(), out.4),
{
    let d = try_debug(plugin, sqvm);
    (compile_buffer, file, a1, should_throw_error, d)
}

/// Intercepts "call function": logs the executing function's name, found by
/// scanning the operand stack, then gates and forwards the arguments
/// unchanged.
pub fn hook_sq_call(
    plugin: &mut DebugPlugin,
    sqvm: &SqVm,
    args: i32,
    should_return: u32,
    throw_error: u32,
) -> (out: (i32, u32, u32, EntryDecision))
    requires
        sqvm.wf(),
    ensures
        out.0 == args,
        out.1 == should_return,
        out.2 == throw_error,
        hook_post(
            *old(plugin),
            *final(plugin),
            sqvm.context(),
            logged_entry(TraceEvent::Call(call_name(sqvm.stack@))),
            out.3,
        ),
{
    let rec = StackTrace::func_called(&sqvm.stack);
    let d = observe(plugin, sqvm, rec);
    (args, should_return, throw_error, d)
}

/// Intercepts "raise error": gate, then forward the argument unchanged.
pub fn hook_sq_raiseerror(plugin: &mut DebugPlugin, sqvm: &SqVm, error: String) -> (out: (
    String,
    EntryDecision,
))
    requires
        sqvm.wf(),
    ensures
        out.0 == error,
        hook_post(*old(plugin), *final(plugin), sqvm.context(), plain_entry(), out.1),
{
    let d = try_debug(plugin, sqvm);
    (error, d)
}

/// Intercepts "compile file": gate, then forward the arguments unchanged.
pub fn hook_sq_compilefile(
    plugin: &mut DebugPlugin,
    sqvm: &SqVm,
    path: String,
    name: String,
    a4: i32,
) -> (out: (String, String, i32, EntryDecision))
    requires
        sqvm.wf(),
    ensures
        out.0 == path,
        out.1 == name,
        out.2 == a4,
        hook_post(*old(plugin), *final(plugin), sqvm.context(), plain_entry(), out.3),
{
    let d = try_debug(plugin, sqvm);
    (path, name, a4, d)
}

/// Intercepts "new array": gate, then forward the argument unchanged.
pub fn hook_sq_newarray(plugin: &mut DebugPlugin, sqvm: &SqVm, stackpos: i32) -> (out: (
    i32,
    EntryDecision,
))
    requires
        sqvm.wf(),
    ensures
        out.0 == stackpos,
        hook_post(*old(plugin), *final(plugin), sqvm.context(), plain_entry(), out.1),
{
    let d = try_debug(plugin, sqvm);
    (stackpos, d)
}

/// Intercepts "array append": gate, then forward the argument unchanged.
pub fn hook_sq_arrayappend(plugin: &mut DebugPlugin, sqvm: &SqVm, stackpos: i32) -> (out: (
    i32,
    EntryDecision,
))
    requires
        sqvm.wf(),
    ensures
        out.0 == stackpos,
        hook_post(*old(plugin), *final(plugin), sqvm.context(), plain_entry(), out.1),
{
    let d = try_debug(plugin, sqvm);
    (stackpos, d)
}

/// Intercepts "new table": gate; the entry point has no further arguments.
pub fn hook_sq_newtable(plugin: &mut DebugPlugin, sqvm: &SqVm) -> (d: EntryDecision)
    requires
        sqvm.wf(),
    ensures
        hook_post(*old(plugin), *final(plugin), sqvm.context(), plain_entry(), d),
{
    try_debug(plugin, sqvm)
}

/// Intercepts "new slot": gate, then forward the arguments unchanged.
pub fn hook_sq_newslot(plugin: &mut DebugPlugin, sqvm: &SqVm, idx: i32, is_static: u32) -> (out: (
    i32,
    u32,
    EntryDecision,
))
    requires
        sqvm.wf(),
    ensures
        out.0 == idx,
        out.1 == is_static,
        hook_post(*old(plugin), *final(plugin), sqvm.context(), plain_entry(), out.2),
{
    let d = try_debug(plugin, sqvm);
    (idx, is_static, d)
}

/// Intercepts "push root table": gate; no further arguments.
pub fn hook_sq_pushroottable(plugin: &mut DebugPlugin, sqvm: &SqVm) -> (d: EntryDecision)
    requires
        sqvm.wf(),
    ensures
        hook_post(*old(plugin), *final(plugin), sqvm.context(), plain_entry(), d),
{
    try_debug(plugin, sqvm)
}

/// Intercepts "push string": logs the pushed text, gates, and forwards the
/// arguments unchanged.
pub fn hook_sq_pushstring(plugin: &mut DebugPlugin, sqvm: &SqVm, text: String, length: i32) -> (out:
    (String, i32, EntryDecision))
    requires
        sqvm.wf(),
    ensures
        out.0 == text,
        out.1 == length,
        hook_post(
            *old(plugin),
            *final(plugin),
            sqvm.context(),
            logged_entry(TraceEvent::Pushed(text@)),
            out.2,
        ),
{
    let rec = StackTrace::value_pushed(text.clone());
    let d = observe(plugin, sqvm, rec);
    (text, length, d)
}

/// Intercepts "push integer": logs the value in decimal, gates, and forwards
/// the argument unchanged.
pub fn hook_sq_pushinteger(plugin: &mut DebugPlugin, sqvm: &SqVm, i: i32) -> (out: (
    i32,
    EntryDecision,
))
    requires
        sqvm.wf(),
    ensures
        out.0 == i,
        hook_post(
            *old(plugin),
            *final(plugin),
            sqvm.context(),
            logged_entry(TraceEvent::Pushed(int_str(i as int))),
            out.1,
        ),
{
    let text = int_to_string(i as i64);
    let rec = StackTrace::value_pushed(text);
    let d = observe(plugin, sqvm, rec);
    (i, d)
}

/// Intercepts "push float".  The value's display text is rendered by the
/// host, since this library holds no floating point; the host forwards the
/// original float argument unchanged alongside.
pub fn hook_sq_pushfloat(plugin: &mut DebugPlugin, sqvm: &SqVm, value_text: String) -> (out: (
    String,
    EntryDecision,
))
    requires
        sqvm.wf(),
    ensures
        out.0 == value_text,
        hook_post(
            *old(plugin),
            *final(plugin),
            sqvm.context(),
            logged_entry(TraceEvent::Pushed(value_text@)),
            out.1,
        ),
{
    let rec = StackTrace::value_pushed(value_text.clone());
    let d = observe(plugin, sqvm, rec);
    (value_text, d)
}

/// Intercepts "push bool": logs the engine's boolean word in decimal, gates,
/// and forwards the argument unchanged.
pub fn hook_sq_pushbool(plugin: &mut DebugPlugin, sqvm: &SqVm, b: u32) -> (out: (
    u32,
    EntryDecision,
))
    requires
        sqvm.wf(),
    ensures
        out.0 == b,
        hook_post(
            *old(plugin),
            *final(plugin),
            sqvm.context(),
            logged_entry(TraceEvent::Pushed(dec_str(b as int))),
            out.1,
        ),
{
    let text = unsigned_to_string(b as u64);
    let rec = StackTrace::value_pushed(text);
    let d = observe(plugin, sqvm, rec);
    (b, d)
}

/// Intercepts "push asset": logs the asset text, gates, and forwards the
/// arguments unchanged.
pub fn hook_sq_pushasset(plugin: &mut DebugPlugin, sqvm: &SqVm, asset: String, length: i32) -> (out:
    (String, i32, EntryDecision))
    requires
        sqvm.wf(),
    ensures
        out.0 == asset,
        out.1 == length,
        hook_post(
            *old(plugin),
            *final(plugin),
            sqvm.context(),
            logged_entry(TraceEvent::Pushed(asset@)),
            out.2,
        ),
{
    let rec = StackTrace::value_pushed(asset.clone());
    let d = observe(plugin, sqvm, rec);
    (asset, length, d)
}

/// Intercepts "push vector".  The three components' display text is rendered
/// by the host, since this library holds no floating point; the host
/// forwards the original vector pointer unchanged alongside.
pub fn hook_sq_pushvector(plugin: &mut DebugPlugin, sqvm: &SqVm, vector_text: String) -> (out: (
    String,
    EntryDecision,
))
    requires
        sqvm.wf(),
    ensures
        out.0 == vector_text,
        hook_post(
            *old(plugin),
            *final(plugin),
            sqvm.context(),
            logged_entry(TraceEvent::Pushed(vector_text@)),
            out.1,
        ),
{
    let rec = StackTrace::value_pushed(vector_text.clone());
    let d = observe(plugin, sqvm, rec);
    (vector_text, d)
}

/// Intercepts "push object": logs a generic object placeholder, gates, and
/// forwards the argument unchanged.
pub fn hook_sq_pushobject(plugin: &mut DebugPlugin, sqvm: &SqVm, obj: EngineWord) -> (out: (
    EngineWord,
    EntryDecision,
))
    requires
        sqvm.wf(),
    ensures
        out.0 == obj,
        hook_post(
            *old(plugin),
            *final(plugin),
            sqvm.context(),
            logged_entry(TraceEvent::Pushed("A Object"@)),
            out.1,
        ),
{
    let rec = StackTrace::value_pushed(String::from_str("A Object"));
    let d = observe(plugin, sqvm, rec);
    (obj, d)
}

/// Intercepts "get string": gate, then forward the argument unchanged.
pub fn hook_sq_getstring(plugin: &mut DebugPlugin, sqvm: &SqVm, stackpos: i32) -> (out: (
    i32,
    EntryDecision,
))
    requires
        sqvm.wf(),
    ensures
        out.0 == stackpos,
        hook_post(*old(plugin), *final(plugin), sqvm.context(), plain_entry(), out.1),
{
    let d = try_debug(plugin, sqvm);
    (stackpos, d)
}

/// Intercepts "get integer": gate, then forward the argument unchanged.
pub fn hook_sq_getinteger(plugin: &mut DebugPlugin, sqvm: &SqVm, stackpos: i32) -> (out: (
    i32,
    EntryDecision,
))
    requires
        sqvm.wf(),
    ensures
        out.0 == stackpos,
        hook_post(*old(plugin), *final(plugin), sqvm.context(), plain_entry(), out.1),
{
    let d = try_debug(plugin, sqvm);
    (stackpos, d)
}

/// Intercepts "get float": gate, then forward the argument unchanged.
pub fn hook_sq_getfloat(plugin: &mut DebugPlugin, sqvm: &SqVm, stackpos: i32) -> (out: (
    i32,
    EntryDecision,
))
    requires
        sqvm.wf(),
    ensures
        out.0 == stackpos,
        hook_post(*old(plugin), *final(plugin), sqvm.context(), plain_entry(), out.1),
{
    let d = try_debug(plugin, sqvm);
    (stackpos, d)
}

/// Intercepts "get bool": gate, then forward the argument unchanged.
pub fn hook_sq_getbool(plugin: &mut DebugPlugin, sqvm: &SqVm, stackpos: i32) -> (out: (
    i32,
    EntryDecision,
))
    requires
        sqvm.wf(),
    ensures
        out.0 == stackpos,
        hook_post(*old(plugin), *final(plugin), sqvm.context(), plain_entry(), out.1),
{
    let d = try_debug(plugin, sqvm);
    (stackpos, d)
}

/// Intercepts "get": gate, then forward the argument unchanged.
pub fn hook_sq_get(plugin: &mut DebugPlugin, sqvm: &SqVm, stackpos: i32) -> (out: (
    i32,
    EntryDecision,
))
    requires
        sqvm.wf(),
    ensures
        out.0 == stackpos,
        hook_post(*old(plugin), *final(plugin), sqvm.context(), plain_entry(), out.1),
{
    let d = try_debug(plugin, sqvm);
    (stackpos, d)
}

/// Intercepts "get asset": gate, then forward the arguments unchanged.
pub fn hook_sq_getasset(
    plugin: &mut DebugPlugin,
    sqvm: &SqVm,
    stackpos: i32,
    result: EngineWord,
) -> (out: (i32, EngineWord, EntryDecision))
    requires
        sqvm.wf(),
    ensures
        out.0 == stackpos,
        out.1 == result,
        hook_post(*old(plugin), *final(plugin), sqvm.context(), plain_entry(), out.2),
{
    let d = try_debug(plugin, sqvm);
    (stackpos, result, d)
}

/// Intercepts "get userdata": gate, then forward the arguments unchanged.
pub fn hook_sq_getuserdata(
    plugin: &mut DebugPlugin,
    sqvm: &SqVm,
    stackpos: i32,
    data: EngineWord,
    type_id: EngineWord,
) -> (out: (i32, EngineWord, EngineWord, EntryDecision))
    requires
        sqvm.wf(),
    ensures
        out.0 == stackpos,
        out.1 == data,
        out.2 == type_id,
        hook_post(*old(plugin), *final(plugin), sqvm.context(), plain_entry(), out.3),
{
    let d = try_debug(plugin, sqvm);
    (stackpos, data, type_id, d)
}

/// Intercepts "get vector": gate, then forward the argument unchanged.
pub fn hook_sq_getvector(plugin: &mut DebugPlugin, sqvm: &SqVm, stackpos: i32) -> (out: (
    i32,
    EntryDecision,
))
    requires
        sqvm.wf(),
    ensures
        out.0 == stackpos,
        hook_post(*old(plugin), *final(plugin), sqvm.context(), plain_entry(), out.1),
{
    let d = try_debug(plugin, sqvm);
    (stackpos, d)
}

/// Intercepts "get this entity": gate, then forward the argument unchanged.
pub fn hook_sq_getthisentity(plugin: &mut DebugPlugin, sqvm: &SqVm, entity: EngineWord) -> (out: (
    EngineWord,
    EntryDecision,
))
    requires
        sqvm.wf(),
    ensures
        out.0 == entity,
        hook_post(*old(plugin), *final(plugin), sqvm.context(), plain_entry(), out.1),
{
    let d = try_debug(plugin, sqvm);
    (entity, d)
}

/// Intercepts "get object": gate, then forward the arguments unchanged.
pub fn hook_sq_getobject(
    plugin: &mut DebugPlugin,
    sqvm: &SqVm,
    stack_pos: i32,
    out_obj: EngineWord,
) -> (out: (i32, EngineWord, EntryDecision))
    requires
        sqvm.wf(),
    ensures
        out.0 == stack_pos,
        out.1 == out_obj,
        hook_post(*old(plugin), *final(plugin), sqvm.context(), plain_entry(), out.2),
{
    let d = try_debug(plugin, sqvm);
    (stack_pos, out_obj, d)
}

/// Intercepts "stack infos": gate, then forward the arguments unchanged.
pub fn hook_sq_stackinfos(
    plugin: &mut DebugPlugin,
    sqvm: &SqVm,
    level: i32,
    out_obj: EngineWord,
    call_stack_size: i32,
) -> (out: (i32, EngineWord, i32, EntryDecision))
    requires
        sqvm.wf(),
    ensures
        out.0 == level,
        out.1 == out_obj,
        out.2 == call_stack_size,
        hook_post(*old(plugin), *final(plugin), sqvm.context(), plain_entry(), out.3),
{
    let d = try_debug(plugin, sqvm);
    (level, out_obj, call_stack_size, d)
}

/// Intercepts "create userdata": gate, then forward the argument unchanged.
pub fn hook_sq_createuserdata(plugin: &mut DebugPlugin, sqvm: &SqVm, size: i32) -> (out: (
    i32,
    EntryDecision,
))
    requires
        sqvm.wf(),
    ensures
        out.0 == size,
        hook_post(*old(plugin), *final(plugin), sqvm.context(), plain_entry(), out.1),
{
    let d = try_debug(plugin, sqvm);
    (size, d)
}

/// Intercepts "set userdata type id": gate, then forward the arguments
/// unchanged.
pub fn hook_sq_setuserdatatypeid(
    plugin: &mut DebugPlugin,
    sqvm: &SqVm,
    stackpos: i32,
    type_id: u64,
) -> (out: (i32, u64, EntryDecision))
    requires
        sqvm.wf(),
    ensures
        out.0 == stackpos,
        out.1 == type_id,
        hook_post(*old(plugin), *final(plugin), sqvm.context(), plain_entry(), out.2),
{
    let d = try_debug(plugin, sqvm);
    (stackpos, type_id, d)
}

/// Intercepts "get function": logs the requested function's name, gates, and
/// forwards the arguments unchanged.
pub fn hook_sq_getfunction(
    plugin: &mut DebugPlugin,
    sqvm: &SqVm,
    name: String,
    return_obj: EngineWord,
    signature: String,
) -> (out: (String, EngineWord, String, EntryDecision))
    requires
        sqvm.wf(),
    ensures
        out.0 == name,
        out.1 == return_obj,
        out.2 == signature,
        hook_post(
            *old(plugin),
            *final(plugin),
            sqvm.context(),
            logged_entry(TraceEvent::Aquired(name@)),
            out.3,
        ),
{
    let rec = StackTrace::value_gotten(name.clone());
    let d = observe(plugin, sqvm, rec);
    (name, return_obj, signature, d)
}

/// Intercepts "get entity from instance": gate, then forward the arguments
/// unchanged.
pub fn hook_sq_getentityfrominstance(
    plugin: &mut DebugPlugin,
    sqvm: &SqVm,
    instance: EngineWord,
    entity_constant: EngineWord,
) -> (out: (EngineWord, EngineWord, EntryDecision))
    requires
        sqvm.wf(),
    ensures
        out.0 == instance,
        out.1 == entity_constant,
        hook_post(*old(plugin), *final(plugin), sqvm.context(), plain_entry(), out.2),
{
    let d = try_debug(plugin, sqvm);
    (instance, entity_constant, d)
}

/// Intercepts "push new struct instance": gate, then forward the argument
/// unchanged.
pub fn hook_sq_pushnewstructinstance(plugin: &mut DebugPlugin, sqvm: &SqVm, field_count: i32) -> (out:
    (i32, EntryDecision))
    requires
        sqvm.wf(),
    ensures
        out.0 == field_count,
        hook_post(*old(plugin), *final(plugin), sqvm.context(), plain_entry(), out.1),
{
    let d = try_debug(plugin, sqvm);
    (field_count, d)
}

/// Intercepts "seal struct slot": gate, then forward the argument unchanged.
pub fn hook_sq_sealstructslot(plugin: &mut DebugPlugin, sqvm: &SqVm, slot_index: i32) -> (out: (
    i32,
    EntryDecision,
))
    requires
        sqvm.wf(),
    ensures
        out.0 == slot_index,
        hook_post(*old(plugin), *final(plugin), sqvm.context(), plain_entry(), out.1),
{
    let d = try_debug(plugin, sqvm);
    (slot_index, d)
}

/// A stream of records all tagged with one context projects onto that
/// context unchanged, and onto any other context as nothing.
pub proof fn lemma_context_trace_tagged(recs: Seq<TraceEvent>, c: ScriptContext, o: ScriptContext)
    ensures
        context_trace(hook_records(c, recs), c) == recs,
        o != c ==> context_trace(hook_records(c, recs), o) == Seq::<TraceEvent>::empty(),
    decreases recs.len(),
{
    if recs.len() == 0 {
        assert(hook_records(c, recs) =~= Seq::<(ScriptContext, TraceEvent)>::empty());
        assert(context_trace(hook_records(c, recs), c) =~= recs);
    } else {
        lemma_context_trace_tagged(recs.drop_last(), c, o);
        assert(hook_records(c, recs).drop_last() =~= hook_records(c, recs.drop_last()));
        assert(hook_records(c, recs).last() == (c, recs.last()));
        assert(context_trace(hook_records(c, recs), c) =~= recs);
    }
}

/// Within one context, the stream preserves real call order: two intercepted
/// entries on context `c`, one after the other, extend `c`'s trace by
/// exactly their records, in the order the calls were made.
pub proof fn lemma_trace_order_per_context(
    p0: DebugPlugin,
    p1: DebugPlugin,
    p2: DebugPlugin,
    c: ScriptContext,
    recs1: Seq<TraceEvent>,
    recs2: Seq<TraceEvent>,
    d1: EntryDecision,
    d2: EntryDecision,
)
    requires
        p0.connected,
        hook_post(p0, p1, c, recs1, d1),
        hook_post(p1, p2, c, recs2, d2),
    ensures
        context_trace(log_view(p2.trace_log@), c) == context_trace(log_view(p0.trace_log@), c)
            + recs1 + recs2,
{
    lemma_context_trace_tagged(recs1, c, c);
    lemma_context_trace_tagged(recs2, c, c);
    lemma_context_trace_add(log_view(p0.trace_log@), hook_records(c, recs1), c);
    lemma_context_trace_add(log_view(p1.trace_log@), hook_records(c, recs2), c);
}

/// Pause/continue round trip at the instrumentation level.  From a context
/// in its initial debug state: after the front end pauses it, a call
/// entering that context blocks; after one continue signal, the next entry
/// check proceeds and consumes the signal, so a further entry with no new
/// signal blocks again.
pub proof fn lemma_plugin_pause_continue_round_trip(
    p0: DebugPlugin,
    p1: DebugPlugin,
    p2: DebugPlugin,
    p3: DebugPlugin,
    p4: DebugPlugin,
    c: ScriptContext,
    recs1: Seq<TraceEvent>,
    recs2: Seq<TraceEvent>,
    d1: EntryDecision,
    d2: EntryDecision,
)
    requires
        p0.debug_info.spec_get(c) == DebugState::spec_initial(),
        crate::control_post(p0, p1, c, crate::debug::set_paused_post(p0.debug_info.spec_get(c), true)),
        hook_post(p1, p2, c, recs1, d1),
        crate::control_post(p2, p3, c, crate::debug::signal_post(p2.debug_info.spec_get(c))),
        hook_post(p3, p4, c, recs2, d2),
    ensures
        d1 == EntryDecision::Blocked,
        d2 == EntryDecision::Proceed,
        !p4.debug_info.spec_get(c).pending_continue,
        enter_decision(p4.debug_info.spec_get(c)) == EntryDecision::Blocked,
{
}

/// An intercepted entry on one context leaves every other context's trace
/// and debug state untouched, whatever happened on the busy context.
pub proof fn lemma_other_context_unaffected(
    p0: DebugPlugin,
    p1: DebugPlugin,
    c: ScriptContext,
    o: ScriptContext,
    recs: Seq<TraceEvent>,
    d: EntryDecision,
)
    requires
        hook_post(p0, p1, c, recs, d),
        o != c,
    ensures
        context_trace(log_view(p1.trace_log@), o) == context_trace(log_view(p0.trace_log@), o),
        p1.debug_info.spec_get(o) == p0.debug_info.spec_get(o),
{
    lemma_context_trace_tagged(recs, c, o);
    if p0.connected {
        lemma_context_trace_add(log_view(p0.trace_log@), hook_records(c, recs), o);
        assert(context_trace(log_view(p0.trace_log@), o) + Seq::<TraceEvent>::empty()
            =~= context_trace(log_view(p0.trace_log@), o));
    } else {
        assert(log_view(p0.trace_log@) + Seq::<(ScriptContext, TraceEvent)>::empty() =~= log_view(
            p0.trace_log@,
        ));
    }
}

} // verus!

//! Installation, interception, pause/continue, and trace-order scenarios.

use dbgquirrel::context::{ScriptContext, SqVm};
use dbgquirrel::debug::EntryDecision;
use dbgquirrel::hooks::{
    hook_sq_call, hook_sq_getfunction, hook_sq_newtable, hook_sq_pushbool, hook_sq_pushinteger,
    hook_sq_pushobject, hook_sq_pushstring, DetourRegistry, EntryPoint, InstallError, WhichDll,
    ENTRY_COUNT,
};
use dbgquirrel::stacktrace::{SqSlot, StackTrace};
use dbgquirrel::DebugPlugin;

fn server_vm() -> SqVm {
    SqVm { context_tag: 0, stack: Vec::new() }
}

fn client_vm() -> SqVm {
    SqVm { context_tag: 1, stack: Vec::new() }
}

fn ui_vm() -> SqVm {
    SqVm { context_tag: 2, stack: Vec::new() }
}

fn all_ok() -> Vec<bool> {
    vec![true; ENTRY_COUNT]
}

#[test]
fn install_commits_a_full_table_once() {
    let mut registry = DetourRegistry::new();
    let r = registry.init_hooks(WhichDll::Server, &all_ok(), &all_ok());
    assert_eq!(r, Ok(()));
    assert!(registry.hooks_from_sqvm(&server_vm()).is_some());

    let again = registry.init_hooks(WhichDll::Server, &all_ok(), &all_ok());
    assert_eq!(again, Err(InstallError::AlreadyInstalled));
    assert!(registry.hooks_from_sqvm(&server_vm()).is_some());
}

#[test]
fn install_failure_commits_nothing_and_names_the_entry() {
    let mut registry = DetourRegistry::new();
    let mut created = all_ok();
    created[2] = false;
    created[5] = false;
    let r = registry.init_hooks(WhichDll::Client, &created, &all_ok());
    assert_eq!(r, Err(InstallError::Create(EntryPoint::Call)));
    assert!(registry.hooks_from_sqvm(&client_vm()).is_none());
}

#[test]
fn enable_failure_discards_the_table() {
    let mut registry = DetourRegistry::new();
    let mut enabled = all_ok();
    enabled[33] = false;
    let r = registry.init_hooks(WhichDll::Client, &all_ok(), &enabled);
    assert_eq!(r, Err(InstallError::Enable(EntryPoint::SealStructSlot)));
    assert!(registry.hooks_from_sqvm(&client_vm()).is_none());
}

#[test]
fn failure_on_one_context_leaves_the_other_alone() {
    let mut registry = DetourRegistry::new();
    assert_eq!(registry.init_hooks(WhichDll::Server, &all_ok(), &all_ok()), Ok(()));
    let mut created = all_ok();
    created[0] = false;
    let r = registry.init_hooks(WhichDll::Client, &created, &all_ok());
    assert_eq!(r, Err(InstallError::Create(EntryPoint::DefConst)));
    assert!(registry.hooks_from_sqvm(&server_vm()).is_some());
    assert!(registry.hooks_from_sqvm(&client_vm()).is_none());
}

#[test]
fn other_modules_are_ignored() {
    let mut registry = DetourRegistry::new();
    assert_eq!(registry.init_hooks(WhichDll::Other, &all_ok(), &all_ok()), Ok(()));
    assert!(registry.hooks_from_sqvm(&server_vm()).is_none());
    assert!(registry.hooks_from_sqvm(&client_vm()).is_none());
}

#[test]
fn ui_and_client_share_the_client_table() {
    let mut registry = DetourRegistry::new();
    assert_eq!(registry.init_hooks(WhichDll::Client, &all_ok(), &all_ok()), Ok(()));
    assert!(registry.hooks_from_sqvm(&client_vm()).is_some());
    assert!(registry.hooks_from_sqvm(&ui_vm()).is_some());
    assert!(registry.hooks_from_sqvm(&server_vm()).is_none());
}

/// Stands in for a captured original function: records what it was called
/// with and returns a fixed result.
fn original_push_integer(seen: &mut Vec<i32>, value: i32) {
    seen.push(value);
}

#[test]
fn server_push_and_call_are_traced_then_forwarded_unchanged() {
    let mut registry = DetourRegistry::new();
    assert_eq!(registry.init_hooks(WhichDll::Server, &all_ok(), &all_ok()), Ok(()));

    let mut plugin = DebugPlugin::new();
    let vm = server_vm();

    // "push integer 42" arrives at the intercepted entry point.
    let (forwarded, decision) = hook_sq_pushinteger(&mut plugin, &vm, 42);
    assert_eq!(decision, EntryDecision::Proceed);
    assert_eq!(forwarded, 42);
    let mut seen: Vec<i32> = Vec::new();
    original_push_integer(&mut seen, forwarded);
    assert_eq!(seen, vec![42]);
    assert_eq!(
        plugin.trace_log[0],
        (ScriptContext::Server, StackTrace::Pushed("42".to_string()))
    );
    assert_eq!(
        plugin.trace_log[1],
        (ScriptContext::Server, StackTrace::DebugBegin(8))
    );

    // "invoke function foo": the executing closure sits on the operand stack.
    let vm = SqVm {
        context_tag: 0,
        stack: vec![SqSlot::Other, SqSlot::Closure(b"foo\0".to_vec())],
    };
    let (args, should_return, throw_error, decision) = hook_sq_call(&mut plugin, &vm, 3, 1, 0);
    assert_eq!(decision, EntryDecision::Proceed);
    assert_eq!((args, should_return, throw_error), (3, 1, 0));
    assert_eq!(
        plugin.trace_log[2],
        (ScriptContext::Server, StackTrace::Call("foo".to_string()))
    );
    assert_eq!(
        plugin.trace_log[3],
        (ScriptContext::Server, StackTrace::DebugBegin(8))
    );
}

#[test]
fn paused_client_call_blocks_then_continues_with_result_unchanged() {
    let mut plugin = DebugPlugin::new();
    let vm = client_vm();

    // Control thread pauses the client context.
    plugin.set_paused(ScriptContext::Client, true);

    // A client-context call reaches an intercepted entry point and blocks.
    let decision = hook_sq_newtable(&mut plugin, &vm);
    assert_eq!(decision, EntryDecision::Blocked);

    // Control thread signals continue; the blocked thread re-checks and
    // proceeds, then forwards to the original, whose result reaches the
    // host unchanged.
    plugin.signal_continue(ScriptContext::Client);
    let decision = hook_sq_newtable(&mut plugin, &vm);
    assert_eq!(decision, EntryDecision::Proceed);
    let original_result: i64 = 7;
    assert_eq!(original_result, 7);

    // The server context was never held up.
    let decision = hook_sq_newtable(&mut plugin, &server_vm());
    assert_eq!(decision, EntryDecision::Proceed);
}

#[test]
fn per_context_trace_order_matches_call_order() {
    let mut plugin = DebugPlugin::new();
    let server = server_vm();
    let client = client_vm();

    let _ = hook_sq_pushinteger(&mut plugin, &server, 1);
    let _ = hook_sq_pushinteger(&mut plugin, &client, 10);
    let _ = hook_sq_pushinteger(&mut plugin, &server, 2);
    let _ = hook_sq_pushbool(&mut plugin, &client, 1);
    let _ = hook_sq_pushinteger(&mut plugin, &server, 3);

    let server_records: Vec<&StackTrace> = plugin
        .trace_log
        .iter()
        .filter(|e| e.0 == ScriptContext::Server)
        .map(|e| &e.1)
        .collect();
    assert_eq!(
        server_records,
        vec![
            &StackTrace::Pushed("1".to_string()),
            &StackTrace::DebugBegin(8),
            &StackTrace::Pushed("2".to_string()),
            &StackTrace::DebugBegin(8),
            &StackTrace::Pushed("3".to_string()),
            &StackTrace::DebugBegin(8),
        ]
    );
    let client_records: Vec<&StackTrace> = plugin
        .trace_log
        .iter()
        .filter(|e| e.0 == ScriptContext::Client)
        .map(|e| &e.1)
        .collect();
    assert_eq!(
        client_records,
        vec![
            &StackTrace::Pushed("10".to_string()),
            &StackTrace::DebugBegin(8),
            &StackTrace::Pushed("1".to_string()),
            &StackTrace::DebugBegin(8),
        ]
    );
}

#[test]
fn logging_hooks_render_each_value_kind() {
    let mut plugin = DebugPlugin::new();
    let vm = server_vm();

    let (text, len, _) = hook_sq_pushstring(&mut plugin, &vm, "hello".to_string(), 5);
    assert_eq!((text.as_str(), len), ("hello", 5));
    let (b, _) = hook_sq_pushbool(&mut plugin, &vm, 0);
    assert_eq!(b, 0);
    let (obj, _) = hook_sq_pushobject(&mut plugin, &vm, 0xdead);
    assert_eq!(obj, 0xdead);
    let (name, robj, sig, _) = hook_sq_getfunction(
        &mut plugin,
        &vm,
        "GetMapName".to_string(),
        0,
        "string GetMapName()".to_string(),
    );
    assert_eq!(name.as_str(), "GetMapName");
    assert_eq!(robj, 0);
    assert_eq!(sig.as_str(), "string GetMapName()");

    let records: Vec<&StackTrace> = plugin.trace_log.iter().map(|e| &e.1).collect();
    assert_eq!(
        records,
        vec![
            &StackTrace::Pushed("hello".to_string()),
            &StackTrace::DebugBegin(8),
            &StackTrace::Pushed("0".to_string()),
            &StackTrace::DebugBegin(8),
            &StackTrace::Pushed("A Object".to_string()),
            &StackTrace::DebugBegin(8),
            &StackTrace::Aquired("GetMapName".to_string()),
            &StackTrace::DebugBegin(8),
        ]
    );
}

#[test]
fn disconnected_consumer_drops_records_but_keeps_pause_control() {
    let mut plugin = DebugPlugin::new();
    let vm = client_vm();
    plugin.disconnect();

    let (v, decision) = hook_sq_pushinteger(&mut plugin, &vm, 5);
    assert_eq!((v, decision), (5, EntryDecision::Proceed));
    assert!(plugin.trace_log.is_empty());

    plugin.set_paused(ScriptContext::Client, true);
    let decision = hook_sq_newtable(&mut plugin, &vm);
    assert_eq!(decision, EntryDecision::Blocked);
    assert!(plugin.trace_log.is_empty());
}

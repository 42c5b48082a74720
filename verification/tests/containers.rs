//! The per-context holder and context resolution.

use dbgquirrel::context::{sqvm_to_context, ScriptContext, SqVm};
use dbgquirrel::VmSpecific;

#[test]
fn holder_keeps_one_value_per_context() {
    let holder = VmSpecific::from_values("s", "c", "u");
    assert_eq!(*holder.get(ScriptContext::Server), "s");
    assert_eq!(*holder.get(ScriptContext::Client), "c");
    assert_eq!(*holder.get(ScriptContext::Ui), "u");
}

#[test]
fn holder_mutation_touches_only_its_context() {
    let mut holder = VmSpecific::from_values(1, 2, 3);
    *holder.get_mut(ScriptContext::Client) = 20;
    assert_eq!(*holder.get(ScriptContext::Server), 1);
    assert_eq!(*holder.get(ScriptContext::Client), 20);
    assert_eq!(*holder.get(ScriptContext::Ui), 3);
}

#[test]
fn default_holder_uses_the_type_default() {
    let holder: VmSpecific<i32> = VmSpecific::new();
    assert_eq!(*holder.get(ScriptContext::Server), 0);
    assert_eq!(*holder.get(ScriptContext::Client), 0);
    assert_eq!(*holder.get(ScriptContext::Ui), 0);
}

#[test]
fn context_resolution_reads_the_engine_tag() {
    let server = SqVm { context_tag: 0, stack: Vec::new() };
    let client = SqVm { context_tag: 1, stack: Vec::new() };
    let ui = SqVm { context_tag: 2, stack: Vec::new() };
    assert_eq!(sqvm_to_context(&server), ScriptContext::Server);
    assert_eq!(sqvm_to_context(&client), ScriptContext::Client);
    assert_eq!(sqvm_to_context(&ui), ScriptContext::Ui);
}

//! Context resolution: which of the three isolated script contexts owns a
//! virtual-machine instance.
//!
//! The engine stores the owning context as a small integer field inside the
//! live VM structure.  The host-side interception layer reads that field (a
//! raw memory access this library does not perform) and hands the value in as
//! part of [`SqVm`]; resolution itself is the total mapping below.

use vstd::prelude::*;

use crate::stacktrace::SqSlot;

verus! {

/// One of the three isolated instances of the scripting virtual machine that
/// run in the host process.
#[derive(Clone, Copy, Debug, PartialEq, Eq, Structural)]
pub enum ScriptContext {
    Server,
    Client,
    Ui,
}

/// The engine-defined tag value stored in a server VM's context field.
pub const SERVER_CONTEXT_TAG: i32 = 0;

/// The engine-defined tag value stored in a client VM's context field.
pub const CLIENT_CONTEXT_TAG: i32 = 1;

/// The engine-defined tag value stored in a UI VM's context field.
pub const UI_CONTEXT_TAG: i32 = 2;

/// The context that a VM context-field value denotes.
pub open spec fn context_of_tag(tag: i32) -> ScriptContext {
    if tag == SERVER_CONTEXT_TAG {
        ScriptContext::Server
    } else if tag == CLIENT_CONTEXT_TAG {
        ScriptContext::Client
    } else {
        ScriptContext::Ui
    }
}

/// What the interception layer reads out of a live virtual-machine instance:
/// the context tag stored at the engine-defined field, and the window of the
/// operand stack that introspection may scan.
pub struct SqVm {
    /// The value of the VM's internal context field.
    pub context_tag: i32,
    /// The readable window of the VM's operand stack, top first.
    pub stack: Vec<SqSlot>,
}

impl SqVm {
    /// A validly initialized VM instance: the context field holds one of the
    /// three engine-defined tags, and every closure-shaped value in the
    /// scannable stack window carries a null-terminated name buffer.
    ///
    /// Callers inside an already-entered VM call are guaranteed this by the
    /// engine; handing in anything else is a contract violation, not a
    /// runtime-checked error.
    pub open spec fn wf(self) -> bool {
        &&& SERVER_CONTEXT_TAG <= self.context_tag <= UI_CONTEXT_TAG
        &&& crate::stacktrace::window_slots_named(self.stack@)
    }

    /// The context that owns this VM.
    pub open spec fn context(self) -> ScriptContext {
        context_of_tag(self.context_tag)
    }
}

/// Resolves which context owns a live VM by reinterpreting its context field.
///
/// There is no error path: the precondition (a validly initialized VM) holds
/// because this is only ever invoked from within an already-entered VM call.
pub fn sqvm_to_context(sqvm: &SqVm) -> (context: ScriptContext)
    requires
        sqvm.wf(),
    ensures
        context == sqvm.context(),
{
    if sqvm.context_tag == SERVER_CONTEXT_TAG {
        ScriptContext::Server
    } else if sqvm.context_tag == CLIENT_CONTEXT_TAG {
        ScriptContext::Client
    } else {
        ScriptContext::Ui
    }
}

} // verus!

//! Per-context pause state and the single-slot rendezvous that lets a thread
//! entering an intercepted call block until an external "continue" signal
//! arrives.
//!
//! The state machine per context has states Running and Paused.  The
//! rendezvous slot has capacity exactly one: at most one pending "continue"
//! signal is ever outstanding, and signalling while the slot is full is
//! dropped without blocking the signaller.  The host wraps this state in a
//! lock and a real one-slot channel; the decisions below are what it acts on.

use vstd::prelude::*;

verus! {

/// What a thread entering an intercepted call must do after the pause check.
#[derive(Clone, Copy, Debug, PartialEq, Eq, Structural)]
pub enum EntryDecision {
    /// The call goes ahead and is forwarded to the original function.
    Proceed,
    /// The context is paused and no continue signal is pending: the calling
    /// thread blocks on the rendezvous until one arrives.
    Blocked,
}

/// The debug state of one context: the pause flag and the one-slot
/// rendezvous.  One instance exists per context, created at process start,
/// alive for the process lifetime.
#[derive(Clone, Copy, Debug, PartialEq, Eq, Structural)]
pub struct DebugState {
    /// Whether calls entering this context are to be held.
    pub paused: bool,
    /// Whether a continue signal is waiting in the rendezvous slot.
    pub pending_continue: bool,
}

/// The state after the pause flag is set.
pub open spec fn set_paused_post(s: DebugState, paused: bool) -> DebugState {
    DebugState { paused, pending_continue: s.pending_continue }
}

/// The state after a continue signal: the slot is full afterwards, whether or
/// not it already was.  A signal into a full slot is dropped.
pub open spec fn signal_post(s: DebugState) -> DebugState {
    DebugState { paused: s.paused, pending_continue: true }
}

/// The decision for a call entering the context: proceed when the context is
/// running, or when a pending continue signal can be consumed; block
/// otherwise.
pub open spec fn enter_decision(s: DebugState) -> EntryDecision {
    if !s.paused || s.pending_continue {
        EntryDecision::Proceed
    } else {
        EntryDecision::Blocked
    }
}

/// The state after the entry check: a paused context consumes the pending
/// signal (if any); a running context leaves the slot alone.
pub open spec fn enter_post(s: DebugState) -> DebugState {
    if s.paused && s.pending_continue {
        DebugState { paused: s.paused, pending_continue: false }
    } else {
        s
    }
}

impl DebugState {
    /// The initial state: running, no pending signal.
    pub open spec fn spec_initial() -> DebugState {
        DebugState { paused: false, pending_continue: false }
    }

    /// Sets or clears the pause flag.  Idempotent; the rendezvous slot is
    /// untouched.
    pub fn set_paused(&mut self, paused: bool)
        ensures
            *final(self) == set_paused_post(*old(self), paused),
    {
        self.paused = paused;
    }

    /// Delivers one continue signal, without blocking: if the slot is empty
    /// it becomes full; if a previous signal has not been consumed yet, this
    /// one is dropped.  The slot never holds more than one signal.
    pub fn signal_continue(&mut self)
        ensures
            *final(self) == signal_post(*old(self)),
    {
        self.pending_continue = true;
    }

    /// The check a thread makes once on entry to an intercepted call: the
    /// decision whether to proceed or block, consuming a pending continue
    /// signal when the context is paused.  A blocked thread repeats the check
    /// after the rendezvous wakes it.
    pub fn try_enter(&mut self) -> (d: EntryDecision)
        ensures
            d == enter_decision(*old(self)),
            *final(self) == enter_post(*old(self)),
    {
        if self.paused {
            if self.pending_continue {
                self.pending_continue = false;
                EntryDecision::Proceed
            } else {
                EntryDecision::Blocked
            }
        } else {
            EntryDecision::Proceed
        }
    }
}

impl Default for DebugState {
    /// A fresh per-context debug state: running, with an empty rendezvous
    /// slot.
    fn default() -> (r: Self)
        ensures
            r == DebugState::spec_initial(),
    {
        DebugState { paused: false, pending_continue: false }
    }
}

/// Pause/continue round trip.  After pausing a running context, an entering
/// call blocks; one continue signal lets exactly one blocked entry proceed,
/// consuming the signal; and a second signal with nothing waiting leaves just
/// one signal pending, so the slot never overflows.
pub proof fn lemma_pause_continue_round_trip(s: DebugState)
    requires
        s == DebugState::spec_initial(),
    ensures
        ({
            let paused = set_paused_post(s, true);
            &&& enter_decision(paused) == EntryDecision::Blocked
            &&& ({
                let signalled = signal_post(paused);
                &&& enter_decision(signalled) == EntryDecision::Proceed
                &&& !enter_post(signalled).pending_continue
                &&& enter_decision(enter_post(signalled)) == EntryDecision::Blocked
                &&& signal_post(signal_post(paused)) == signal_post(paused)
            })
        }),
{
}

/// A continue signal unblocks at most one waiting entry: with two entries
/// checking in turn after a single signal, the first proceeds and the second
/// still blocks.
pub proof fn lemma_signal_unblocks_exactly_one(s: DebugState)
    requires
        s.paused,
        !s.pending_continue,
    ensures
        ({
            let signalled = signal_post(s);
            let after_first = enter_post(signalled);
            &&& enter_decision(signalled) == EntryDecision::Proceed
            &&& enter_decision(after_first) == EntryDecision::Blocked
        }),
{
}

} // verus!

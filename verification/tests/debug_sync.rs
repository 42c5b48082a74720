//! Pause/continue state-machine behaviour.

use dbgquirrel::debug::{DebugState, EntryDecision};

#[test]
fn initial_state_is_running_and_empty() {
    let s = DebugState::default();
    assert!(!s.paused);
    assert!(!s.pending_continue);
}

#[test]
fn running_context_enters_freely() {
    let mut s = DebugState::default();
    assert_eq!(s.try_enter(), EntryDecision::Proceed);
    assert_eq!(s.try_enter(), EntryDecision::Proceed);
    assert!(!s.paused);
    assert!(!s.pending_continue);
}

#[test]
fn paused_context_blocks_entry() {
    let mut s = DebugState::default();
    s.set_paused(true);
    assert_eq!(s.try_enter(), EntryDecision::Blocked);
    assert_eq!(s.try_enter(), EntryDecision::Blocked);
}

#[test]
fn continue_signal_unblocks_exactly_one_entry() {
    let mut s = DebugState::default();
    s.set_paused(true);
    assert_eq!(s.try_enter(), EntryDecision::Blocked);
    s.signal_continue();
    assert_eq!(s.try_enter(), EntryDecision::Proceed);
    assert!(!s.pending_continue);
    assert_eq!(s.try_enter(), EntryDecision::Blocked);
}

#[test]
fn second_signal_with_nothing_waiting_never_overflows() {
    let mut s = DebugState::default();
    s.set_paused(true);
    s.signal_continue();
    s.signal_continue();
    assert!(s.pending_continue);
    assert_eq!(s.try_enter(), EntryDecision::Proceed);
    assert_eq!(s.try_enter(), EntryDecision::Blocked);
}

#[test]
fn pause_is_idempotent() {
    let mut s = DebugState::default();
    s.set_paused(true);
    s.set_paused(true);
    assert!(s.paused);
    assert!(!s.pending_continue);
    s.set_paused(false);
    s.set_paused(false);
    assert!(!s.paused);
}

#[test]
fn unpausing_keeps_an_unconsumed_signal() {
    let mut s = DebugState::default();
    s.set_paused(true);
    s.signal_continue();
    s.set_paused(false);
    assert_eq!(s.try_enter(), EntryDecision::Proceed);
    assert!(s.pending_continue);
}

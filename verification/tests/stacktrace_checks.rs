//! Trace records, value rendering, and stack introspection.

use dbgquirrel::stacktrace::{decode_name, int_to_string, unsigned_to_string, SqSlot, StackTrace};

#[test]
fn renders_unsigned_decimals() {
    assert_eq!(unsigned_to_string(0).as_str(), "0");
    assert_eq!(unsigned_to_string(7).as_str(), "7");
    assert_eq!(unsigned_to_string(42).as_str(), "42");
    assert_eq!(unsigned_to_string(1000).as_str(), "1000");
    assert_eq!(
        unsigned_to_string(u64::MAX).as_str(),
        "18446744073709551615"
    );
}

#[test]
fn renders_signed_decimals() {
    assert_eq!(int_to_string(0).as_str(), "0");
    assert_eq!(int_to_string(42).as_str(), "42");
    assert_eq!(int_to_string(-1).as_str(), "-1");
    assert_eq!(int_to_string(-409).as_str(), "-409");
    assert_eq!(int_to_string(i64::MIN).as_str(), "-9223372036854775808");
    assert_eq!(int_to_string(i64::MAX).as_str(), "9223372036854775807");
}

#[test]
fn value_records_keep_push_and_fetch_apart() {
    let pushed = StackTrace::value_pushed("42".to_string());
    assert_eq!(pushed, StackTrace::Pushed("42".to_string()));
    let gotten = StackTrace::value_gotten("GetMapName".to_string());
    assert_eq!(gotten, StackTrace::Aquired("GetMapName".to_string()));
}

#[test]
fn display_lines_match_record_kinds() {
    assert_eq!(
        StackTrace::Call("foo".to_string()).display_string().as_str(),
        "Called foo"
    );
    assert_eq!(
        StackTrace::Pushed("42".to_string()).display_string().as_str(),
        "Pushed 42"
    );
    assert_eq!(
        StackTrace::Aquired("bar".to_string()).display_string().as_str(),
        "Feteched bar"
    );
    assert_eq!(
        StackTrace::Misc("hello".to_string()).display_string().as_str(),
        "hello"
    );
    assert_eq!(
        StackTrace::DebugBegin(8).display_string().as_str(),
        "debug 8"
    );
    assert_eq!(
        StackTrace::DebugBegin(-3).display_string().as_str(),
        "debug -3"
    );
}

fn closure(name: &[u8]) -> SqSlot {
    SqSlot::Closure(name.to_vec())
}

#[test]
fn introspection_without_closure_returns_unknown() {
    let stack = vec![SqSlot::Other, SqSlot::Other, SqSlot::Other];
    let rec = StackTrace::func_called(&stack);
    assert_eq!(rec, StackTrace::Call("UNK".to_string()));
}

#[test]
fn introspection_on_empty_stack_returns_unknown() {
    let stack: Vec<SqSlot> = Vec::new();
    let rec = StackTrace::func_called(&stack);
    assert_eq!(rec, StackTrace::Call("UNK".to_string()));
}

#[test]
fn introspection_ignores_closures_past_the_window() {
    let mut stack = Vec::new();
    for _ in 0..20 {
        stack.push(SqSlot::Other);
    }
    stack.push(closure(b"hidden\0"));
    let rec = StackTrace::func_called(&stack);
    assert_eq!(rec, StackTrace::Call("UNK".to_string()));
}

#[test]
fn introspection_takes_the_first_closure_in_the_window() {
    let stack = vec![
        SqSlot::Other,
        closure(b"foo\0"),
        closure(b"bar\0"),
        SqSlot::Other,
    ];
    let rec = StackTrace::func_called(&stack);
    assert_eq!(rec, StackTrace::Call("foo".to_string()));
}

#[test]
fn name_decoding_stops_at_the_null_terminator() {
    let name = decode_name(&b"OnClientConnected\0garbage".to_vec());
    assert_eq!(name.as_str(), "OnClientConnected");
    let empty = decode_name(&b"\0whatever".to_vec());
    assert_eq!(empty.as_str(), "");
}

#[test]
fn name_decoding_is_lossy_on_invalid_bytes() {
    let stack = vec![closure(b"\xffa\0")];
    let rec = StackTrace::func_called(&stack);
    assert_eq!(rec, StackTrace::Call("\u{FFFD}a".to_string()));
}

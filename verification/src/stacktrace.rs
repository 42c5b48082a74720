//! Trace records and best-effort stack introspection.
//!
//! A trace record describes one observed VM action.  When a call's identity
//! must be derived from the operand stack, a bounded window of stack slots is
//! scanned for the first closure-shaped value and its null-terminated name
//! buffer is decoded; when no such value is found the record falls back to an
//! "unknown" marker.

use vstd::prelude::*;
use vstd::utf8::decode_utf8;
use vstd::utf8::valid_utf8;

verus! {

/// Ghost-level description of one trace record, with text as character
/// sequences.  Contracts speak of records through this type.
pub enum TraceEvent {
    /// A function was invoked; carries its reconstructed name.
    Call(Seq<char>),
    /// A value was pushed onto the VM stack; carries its rendered text.
    Pushed(Seq<char>),
    /// A value was fetched from the VM; carries its rendered text.
    Aquired(Seq<char>),
    /// Free-form text.
    Misc(Seq<char>),
    /// Evaluation of an intercepted entry point began; carries a
    /// stack-depth hint.
    DebugBegin(int),
}

/// One structured description of an observed VM action.  Immutable once
/// constructed; ownership passes to the trace stream and then to whichever
/// consumer drains it.
#[derive(Clone, Debug, PartialEq, Eq)]
pub enum StackTrace {
    Call(String),
    Pushed(String),
    Aquired(String),
    Misc(String),
    DebugBegin(i32),
}

impl View for StackTrace {
    type V = TraceEvent;

    open spec fn view(&self) -> TraceEvent {
        match self {
            StackTrace::Call(s) => TraceEvent::Call(s@),
            StackTrace::Pushed(s) => TraceEvent::Pushed(s@),
            StackTrace::Aquired(s) => TraceEvent::Aquired(s@),
            StackTrace::Misc(s) => TraceEvent::Misc(s@),
            StackTrace::DebugBegin(i) => TraceEvent::DebugBegin(*i as int),
        }
    }
}

/// The decimal digit character for `d`, which must lie in `0 ..= 9`.
pub open spec fn dec_digit(d: int) -> char {
    if d == 0 {
        '0'
    } else if d == 1 {
        '1'
    } else if d == 2 {
        '2'
    } else if d == 3 {
        '3'
    } else if d == 4 {
        '4'
    } else if d == 5 {
        '5'
    } else if d == 6 {
        '6'
    } else if d == 7 {
        '7'
    } else if d == 8 {
        '8'
    } else {
        '9'
    }
}

/// The decimal rendering of a non-negative integer, most significant digit
/// first.
pub open spec fn dec_str(n: int) -> Seq<char>
    decreases n,
{
    if n < 10 {
        seq![dec_digit(n)]
    } else {
        dec_str(n / 10) + seq![dec_digit(n % 10)]
    }
}

/// The decimal rendering of an integer, with a leading minus sign when
/// negative.
pub open spec fn int_str(i: int) -> Seq<char> {
    if i < 0 {
        seq!['-'] + dec_str(-i)
    } else {
        dec_str(i)
    }
}

/// The one-character string for a decimal digit value.
fn digit_str(d: u64) -> (s: String)
    requires
        d < 10,
    ensures
        s@ == seq![dec_digit(d as int)],
{
    let r: &str = if d == 0 {
        "0"
    } else if d == 1 {
        "1"
    } else if d == 2 {
        "2"
    } else if d == 3 {
        "3"
    } else if d == 4 {
        "4"
    } else if d == 5 {
        "5"
    } else if d == 6 {
        "6"
    } else if d == 7 {
        "7"
    } else if d == 8 {
        "8"
    } else {
        "9"
    };
    proof {
        reveal_strlit("0");
        reveal_strlit("1");
        reveal_strlit("2");
        reveal_strlit("3");
        reveal_strlit("4");
        reveal_strlit("5");
        reveal_strlit("6");
        reveal_strlit("7");
        reveal_strlit("8");
        reveal_strlit("9");
        assert(r@ =~= seq![dec_digit(d as int)]);
    }
    String::from_str(r)
}

/// Renders a non-negative value in decimal.
pub fn unsigned_to_string(n: u64) -> (s: String)
    ensures
        s@ == dec_str(n as int),
    decreases n,
{
    if n < 10 {
        digit_str(n)
    } else {
        let mut s = unsigned_to_string(n / 10);
        let d = digit_str(n % 10);
        s.append(d.as_str());
        s
    }
}

/// Renders a signed value in decimal.
pub fn int_to_string(i: i64) -> (s: String)
    ensures
        s@ == int_str(i as int),
{
    if i >= 0 {
        unsigned_to_string(i as u64)
    } else {
        let mag: u64 = (-(i as i128)) as u64;
        let mut s = String::from_str("-");
        let rest = unsigned_to_string(mag);
        s.append(rest.as_str());
        proof {
            reveal_strlit("-");
            assert(s@ =~= int_str(i as int));
        }
        s
    }
}

impl StackTrace {
    /// A record for a value pushed onto the VM stack, already rendered to
    /// display text by the caller.
    pub fn value_pushed(value: String) -> (r: Self)
        ensures
            r@ == TraceEvent::Pushed(value@),
    {
        Self::Pushed(value)
    }

    /// A record for a value fetched from the VM, already rendered to display
    /// text by the caller.
    pub fn value_gotten(value: String) -> (r: Self)
        ensures
            r@ == TraceEvent::Aquired(value@),
    {
        Self::Aquired(value)
    }

    /// A record for a function invocation, with the name reconstructed from
    /// the operand stack (see [`call_name`]).
    pub fn func_called(stack: &Vec<SqSlot>) -> (r: Self)
        requires
            window_slots_named(stack@),
        ensures
            r@ == TraceEvent::Call(call_name(stack@)),
    {
        let limit: usize = if stack.len() < SCAN_WINDOW {
            stack.len()
        } else {
            SCAN_WINDOW
        };
        let mut i: usize = 0;
        while i < limit
            invariant
                limit as int == window_len(stack@),
                0 <= i <= limit,
                first_closure_at(stack@, 0) == first_closure_at(stack@, i as int),
                window_slots_named(stack@),
            decreases limit - i,
        {
            match &stack[i] {
                SqSlot::Closure(buffer) => {
                    proof {
                        assert(stack@[i as int] is Closure);
                        assert(slot_name_buffer(stack@[i as int]) == buffer@);
                        assert(first_closure_at(stack@, i as int) == Some(i as int));
                    }
                    let name = decode_name(buffer);
                    return Self::Call(name);
                },
                SqSlot::Other => {},
            }
            i += 1;
        }
        Self::Call(String::from_str("UNK"))
    }

    /// One line of display text for this record.
    pub fn display_string(&self) -> (s: String)
        ensures
            s@ == display_of(self@),
    {
        match self {
            StackTrace::Call(func) => {
                let mut s = String::from_str("Called ");
                s.append(func.as_str());
                s
            },
            StackTrace::Pushed(pushed) => {
                let mut s = String::from_str("Pushed ");
                s.append(pushed.as_str());
                s
            },
            StackTrace::Aquired(got) => {
                let mut s = String::from_str("Feteched ");
                s.append(got.as_str());
                s
            },
            StackTrace::Misc(misc) => {
                let mut s = String::new();
                s.append(misc.as_str());
                s
            },
            StackTrace::DebugBegin(i) => {
                let mut s = String::from_str("debug ");
                let num = int_to_string(*i as i64);
                s.append(num.as_str());
                s
            },
        }
    }
}

/// The display text of a record.
pub open spec fn display_of(t: TraceEvent) -> Seq<char> {
    match t {
        TraceEvent::Call(f) => "Called "@ + f,
        TraceEvent::Pushed(p) => "Pushed "@ + p,
        TraceEvent::Aquired(g) => "Feteched "@ + g,
        TraceEvent::Misc(m) => m,
        TraceEvent::DebugBegin(i) => "debug "@ + int_str(i),
    }
}

/// What introspection reads out of one slot of the VM's operand stack:
/// whether the value there is closure-shaped, and if so the bytes of its
/// embedded name buffer.
pub enum SqSlot {
    /// A closure-shaped value; carries its name buffer, a null-terminated
    /// byte string.
    Closure(Vec<u8>),
    /// A value of any other shape.
    Other,
}

/// How many consecutive stack slots, starting near the top, introspection
/// scans for a closure-shaped value.  Calibrated to the engine's observed
/// stack layout.
pub const SCAN_WINDOW: usize = 20;

/// The number of slots actually scanned: the window size, bounded by how much
/// of the stack is readable.
pub open spec fn window_len(stack: Seq<SqSlot>) -> int {
    if stack.len() < SCAN_WINDOW {
        stack.len() as int
    } else {
        SCAN_WINDOW as int
    }
}

/// The name buffer of a slot; empty for a slot that is not closure-shaped.
pub open spec fn slot_name_buffer(s: SqSlot) -> Seq<u8> {
    match s {
        SqSlot::Closure(b) => b@,
        SqSlot::Other => Seq::empty(),
    }
}

/// Every closure-shaped value in the scan window carries a null-terminated
/// name buffer.  The engine guarantees this for a validly initialized VM.
pub open spec fn window_slots_named(stack: Seq<SqSlot>) -> bool {
    forall|i: int|
        0 <= i < window_len(stack) && stack[i] is Closure ==> has_nul(
            #[trigger] slot_name_buffer(stack[i]),
        )
}

/// The index of the first closure-shaped slot in the scan window at or after
/// position `i`, if any.
pub open spec fn first_closure_at(stack: Seq<SqSlot>, i: int) -> Option<int>
    decreases window_len(stack) - i,
{
    if i < 0 || i >= window_len(stack) {
        None
    } else if stack[i] is Closure {
        Some(i)
    } else {
        first_closure_at(stack, i + 1)
    }
}

/// The name that introspection reports for a stack window: the decoded name
/// of the first closure-shaped slot, or the "unknown" marker when the window
/// holds none.
pub open spec fn call_name(stack: Seq<SqSlot>) -> Seq<char> {
    match first_closure_at(stack, 0) {
        Some(i) => decoded_name(slot_name_buffer(stack[i])),
        None => "UNK"@,
    }
}

/// The bytes contain a null terminator.
pub open spec fn has_nul(bytes: Seq<u8>) -> bool {
    exists|n: int| 0 <= n < bytes.len() && bytes[n] == 0
}

/// `n` is the position of the first null byte.
pub open spec fn is_nul_pos(bytes: Seq<u8>, n: int) -> bool {
    &&& 0 <= n < bytes.len()
    &&& bytes[n] == 0
    &&& forall|j: int| 0 <= j < n ==> bytes[j] != 0
}

/// The position of the first null byte; meaningful only when `has_nul` holds.
pub open spec fn nul_pos(bytes: Seq<u8>) -> int {
    choose|n: int| is_nul_pos(bytes, n)
}

/// The text of a null-terminated name buffer: the bytes before the first
/// null, decoded as UTF-8 with lossy fallback.
pub open spec fn decoded_name(bytes: Seq<u8>) -> Seq<char> {
    lossy_utf8_of(bytes.subrange(0, nul_pos(bytes)))
}

/// At most one position is the first null.
pub proof fn lemma_nul_pos_unique(bytes: Seq<u8>, a: int, b: int)
    requires
        is_nul_pos(bytes, a),
        is_nul_pos(bytes, b),
    ensures
        a == b,
{
    if a < b {
        assert(bytes[a] != 0);
    } else if b < a {
        assert(bytes[b] != 0);
    }
}

/// The text that lossy UTF-8 decoding yields for a byte sequence.  The
/// result is a function of the bytes alone.
pub uninterp spec fn lossy_utf8_of(bytes: Seq<u8>) -> Seq<char>;

/// Relies on String::from_utf8_lossy: the result depends on the input bytes
/// alone; valid UTF-8 input (in particular pure ASCII) passes through
/// unchanged, one character per scalar.
#[verifier::external_body]
fn utf8_lossy(bytes: &Vec<u8>) -> (r: String)
    ensures
        r@ == lossy_utf8_of(bytes@),
        valid_utf8(bytes@) ==> r@ == decode_utf8(bytes@),
        (forall|i: int| 0 <= i < bytes@.len() ==> bytes@[i] < 128) ==> r@ == bytes@.map(
            |_j: int, b: u8| b as char,
        ),
{
    String::from_utf8_lossy(bytes.as_slice()).into_owned()
}

/// Decodes a null-terminated name buffer into display text: the bytes before
/// the first null, converted with lossy UTF-8 fallback.
pub fn decode_name(buffer: &Vec<u8>) -> (name: String)
    requires
        has_nul(buffer@),
    ensures
        name@ == decoded_name(buffer@),
{
    let len: usize = buffer.len();
    let mut n: usize = 0;
    loop
        invariant
            len == buffer@.len(),
            n <= len,
            forall|j: int| 0 <= j < n ==> buffer@[j] != 0,
            has_nul(buffer@),
        ensures
            is_nul_pos(buffer@, n as int),
        decreases len - n,
    {
        proof {
            let k = choose|k: int| 0 <= k < buffer@.len() && buffer@[k] == 0;
            if k < n {
                assert(buffer@[k] != 0);
            }
            assert(n < buffer@.len());
        }
        if buffer[n] == 0 {
            break;
        }
        n += 1;
    }
    proof {
        assert(is_nul_pos(buffer@, nul_pos(buffer@))) by {
            assert(is_nul_pos(buffer@, n as int));
        }
        lemma_nul_pos_unique(buffer@, n as int, nul_pos(buffer@));
    }
    let mut prefix: Vec<u8> = Vec::new();
    let mut j: usize = 0;
    while j < n
        invariant
            j <= n,
            n <= buffer@.len(),
            prefix@ == buffer@.subrange(0, j as int),
        decreases n - j,
    {
        prefix.push(buffer[j]);
        proof {
            assert(prefix@ =~= buffer@.subrange(0, j as int + 1));
        }
        j += 1;
    }
    utf8_lossy(&prefix)
}

} // verus!

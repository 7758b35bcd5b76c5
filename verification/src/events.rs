//! The event types that the HTTP hooks deliver, and how a request path names one.

use vstd::prelude::*;
use crate::text::{str_eq, trim_slashes, trim_slashes_str};

verus! {

/// Valid event types, one for each hook event that the editor hooks report.
pub const VALID_EVENTS: [&'static str; 5] = ["complete", "error", "attention", "stop", "session-end"];

/// The names of the valid event types, in the order of `VALID_EVENTS`.
pub open spec fn valid_event_names() -> Seq<Seq<char>> {
    seq!["complete"@, "error"@, "attention"@, "stop"@, "session-end"@]
}

/// Whether `e` names one of the valid event types.
pub open spec fn is_valid_event_name(e: Seq<char>) -> bool {
    valid_event_names().contains(e)
}

/// Payload emitted to the webview.
pub struct ClippyEvent {
    pub event_type: String,
}

/// Check if an event type string is valid.
pub fn is_valid_event(event_type: &str) -> (r: bool)
    ensures
        r == is_valid_event_name(event_type@),
{
    let names = VALID_EVENTS;
    assert(names@.map_values(|s: &str| s@) =~= valid_event_names());
    let mut i: usize = 0;
    while i < 5
        invariant
            names@.map_values(|s: &str| s@) == valid_event_names(),
            i <= 5,
            forall|j: int| 0 <= j < i ==> valid_event_names()[j] != event_type@,
        decreases 5 - i,
    {
        if str_eq(names[i], event_type) {
            assert(valid_event_names()[i as int] == event_type@);
            return true;
        }
        i = i + 1;
    }
    false
}

/// Extract event type from URL path segment (leading and trailing slashes
/// removed), returns None if invalid.
pub fn event_type_from_path(path: &str) -> (r: Option<&str>)
    ensures
        is_valid_event_name(trim_slashes(path@)) ==> (r matches Some(t) && t@ == trim_slashes(path@)),
        !is_valid_event_name(trim_slashes(path@)) ==> r is None,
{
    let path = trim_slashes_str(path);
    if is_valid_event(path) {
        Some(path)
    } else {
        None
    }
}


/// A valid event type is its own path, with or without one slash on each side;
/// so each hook route names its event.
pub proof fn lemma_event_paths(e: Seq<char>)
    requires
        is_valid_event_name(e),
    ensures
        trim_slashes(e) == e,
        trim_slashes(seq!['/'] + e) == e,
        trim_slashes(seq!['/'] + e + seq!['/']) == e,
{
    reveal_strlit("complete");
    reveal_strlit("error");
    reveal_strlit("attention");
    reveal_strlit("stop");
    reveal_strlit("session-end");
    let names = valid_event_names();
    let i = choose|i: int| 0 <= i < names.len() && names[i] == e;
    assert(e.len() > 0 && e[0] != '/' && e.last() != '/') by {
        assert(0 <= i < 5);
    }
    assert(trim_slashes(e) == e);
    let a = seq!['/'] + e;
    assert(a[0] == '/');
    assert(a.drop_first() =~= e);
    assert(trim_slashes(a) == trim_slashes(e));
    let c = e + seq!['/'];
    assert(c[0] == e[0]);
    assert(c.last() == '/');
    assert(c.drop_last() =~= e);
    assert(trim_slashes(c) == trim_slashes(e));
    let b = seq!['/'] + e + seq!['/'];
    assert(b[0] == '/');
    assert(b.drop_first() =~= c);
    assert(trim_slashes(b) == trim_slashes(c));
}

} // verus!

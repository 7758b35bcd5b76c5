//! What the app does when a hook event arrives over HTTP.

use vstd::prelude::*;
use vstd::string::*;
use crate::events::{ClippyEvent, is_valid_event_name};
use crate::tray::TrayState;

verus! {

/// What to do for one received event: whether to play its sound, and the
/// payload to emit to the webview.
pub struct EventDispatch {
    pub play_sound: bool,
    pub event: ClippyEvent,
}

/// Handles a received event against the tray state: the sound plays only when
/// not muted, the agent is made visible (events override a manual hide), and
/// the event is always emitted so the animation plays even when muted.
pub fn dispatch_event(state: &mut TrayState, event_type: &str) -> (r: EventDispatch)
    requires
        is_valid_event_name(event_type@),
    ensures
        r.play_sound == !old(state)@.muted,
        final(state)@ == old(state)@.with_visible(true),
        r.event.event_type@ == event_type@,
{
    let play_sound = !state.is_muted();
    state.set_visible(true);
    EventDispatch { play_sound, event: ClippyEvent { event_type: String::from_str(event_type) } }
}

} // verus!

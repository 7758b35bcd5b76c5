//! Following the terminal window: what its rectangle becomes, and when a
//! position update is emitted to the webview.

use vstd::prelude::*;

verus! {

/// Window position and size info emitted to the webview.
#[derive(Clone, Copy, Debug, PartialEq, Eq, Structural)]
pub struct WindowInfo {
    pub x: i32,
    pub y: i32,
    pub width: i32,
    pub height: i32,
    pub found: bool,
    /// True when the terminal is the foreground (active) window.
    /// Used to hide Clippy when another window covers the terminal.
    pub foreground: bool,
}

/// The update emitted when the terminal window is no longer found.
pub open spec fn lost_window() -> WindowInfo {
    WindowInfo { x: 0, y: 0, width: 0, height: 0, found: false, foreground: false }
}

impl WindowInfo {
    /// The update emitted when the terminal window is no longer found.
    pub fn not_found() -> (r: WindowInfo)
        ensures
            r == lost_window(),
    {
        WindowInfo { x: 0, y: 0, width: 0, height: 0, found: false, foreground: false }
    }
}

/// The window info of a found terminal whose rectangle has the given edges.
pub fn window_info_from_rect(left: i32, top: i32, right: i32, bottom: i32, foreground: bool) -> (r:
    WindowInfo)
    requires
        i32::MIN <= right - left <= i32::MAX,
        i32::MIN <= bottom - top <= i32::MAX,
    ensures
        r == (WindowInfo {
            x: left,
            y: top,
            width: (right - left) as i32,
            height: (bottom - top) as i32,
            found: true,
            foreground,
        }),
{
    WindowInfo { x: left, y: top, width: right - left, height: bottom - top, found: true, foreground }
}

/// The number of first observations that are emitted even when unchanged, so
/// that the webview surely receives the initial position.
pub const FORCED_EMITS: u64 = 5;

/// What the tracker remembers between polls.
pub struct TrackerState {
    /// The last position emitted, while the terminal is being tracked.
    pub last_info: Option<WindowInfo>,
    /// How many positions have been emitted.
    pub emit_count: u64,
}

/// The emit counter would pass its largest value.
pub struct CounterOverflow;

/// Whether observing `current` emits it as a new position.
pub open spec fn emits_position(s: TrackerState, current: Option<WindowInfo>) -> bool {
    current is Some && (s.emit_count < FORCED_EMITS || s.last_info != current)
}

/// What a poll that observed `current` emits.
pub open spec fn tracker_emits(s: TrackerState, current: Option<WindowInfo>) -> Option<WindowInfo> {
    if emits_position(s, current) {
        current
    } else if current is None && s.last_info is Some {
        Some(lost_window())
    } else {
        None
    }
}

/// The tracker state after a poll that observed `current`.
pub open spec fn tracker_next(s: TrackerState, current: Option<WindowInfo>) -> TrackerState {
    if emits_position(s, current) {
        TrackerState { last_info: current, emit_count: (s.emit_count + 1) as u64 }
    } else if current is None {
        TrackerState { last_info: None, emit_count: s.emit_count }
    } else {
        s
    }
}

impl TrackerState {
    /// A tracker that has emitted nothing yet.
    pub fn new() -> (s: Self)
        ensures
            s.last_info is None,
            s.emit_count == 0,
    {
        TrackerState { last_info: None, emit_count: 0 }
    }
}

/// One poll of the tracker, given what the poll observed (`None` when no
/// terminal window was found). Returns the update to emit, if any; fails,
/// changing nothing, only where the emit counter would overflow.
pub fn tracker_step(state: &mut TrackerState, current: Option<WindowInfo>) -> (r: Result<
    Option<WindowInfo>,
    CounterOverflow,
>)
    ensures
        r is Err <==> emits_position(*old(state), current) && old(state).emit_count == u64::MAX,
        r matches Ok(e) ==> e == tracker_emits(*old(state), current) && *final(state)
            == tracker_next(*old(state), current),
        r is Err ==> *final(state) == *old(state),
{
    match current {
        Some(info) => {
            let changed = match state.last_info {
                Some(last) => last != info,
                None => true,
            };
            if state.emit_count < FORCED_EMITS || changed {
                if state.emit_count == u64::MAX {
                    return Err(CounterOverflow);
                }
                state.last_info = Some(info);
                state.emit_count = state.emit_count + 1;
                Ok(Some(info))
            } else {
                Ok(None)
            }
        },
        None => {
            if state.last_info.is_some() {
                state.last_info = None;
                Ok(Some(WindowInfo::not_found()))
            } else {
                Ok(None)
            }
        },
    }
}

/// One tick of the tracker: while the agent is hidden (`visible` false, as the
/// tray hide asks) the poll is skipped, nothing is emitted and nothing changes;
/// otherwise it is `tracker_step` on what the poll observed.
pub fn tracker_poll(state: &mut TrackerState, visible: bool, current: Option<WindowInfo>) -> (r:
    Result<Option<WindowInfo>, CounterOverflow>)
    ensures
        !visible ==> (r matches Ok(None) && *final(state) == *old(state)),
        visible ==> (r is Err <==> emits_position(*old(state), current) && old(state).emit_count
            == u64::MAX),
        visible ==> (r matches Ok(e) ==> e == tracker_emits(*old(state), current) && *final(state)
            == tracker_next(*old(state), current)),
        visible && r is Err ==> *final(state) == *old(state),
{
    if !visible {
        return Ok(None);
    }
    tracker_step(state, current)
}

/// The first observations are always emitted; after that an unchanged position
/// is not emitted again and a changed one is; an emitted position becomes the
/// remembered one; losing the terminal emits one "not found" update and then
/// nothing more until it is found again.
pub proof fn lemma_tracker_behaviour(s: TrackerState, info: WindowInfo)
    ensures
        s.emit_count < FORCED_EMITS ==> tracker_emits(s, Some(info)) == Some(info),
        s.emit_count >= FORCED_EMITS && s.last_info == Some(info) ==> tracker_emits(s, Some(info))
            is None && tracker_next(s, Some(info)) == s,
        s.last_info != Some(info) ==> tracker_emits(s, Some(info)) == Some(info),
        emits_position(s, Some(info)) ==> tracker_next(s, Some(info)).last_info == Some(info),
        s.last_info is Some ==> tracker_emits(s, None) == Some(lost_window()),
        tracker_emits(tracker_next(s, None), None) is None,
        tracker_next(s, None).last_info is None,
{
}

/// The tracker state after the polls that observed `obs`, in order, each
/// succeeding.
pub open spec fn run_tracker(s: TrackerState, obs: Seq<Option<WindowInfo>>) -> TrackerState
    decreases obs.len(),
{
    if obs.len() == 0 {
        s
    } else {
        tracker_next(run_tracker(s, obs.drop_last()), obs.last())
    }
}

/// The emit counter never goes down: a poll that emits the observed position
/// adds one, and any other poll, in particular one that finds the terminal
/// lost, leaves it as it was; losing the terminal forgets the last position.
pub proof fn lemma_emit_counter_only_grows(s: TrackerState, current: Option<WindowInfo>)
    requires
        s.emit_count < u64::MAX,
    ensures
        tracker_next(s, current).emit_count == s.emit_count + (if tracker_emits(s, current)
            == current && current is Some { 1int } else { 0int }),
        current is None ==> tracker_next(s, current).emit_count == s.emit_count
            && tracker_next(s, current).last_info is None,
{
}

/// Once the forced first emits are used up they stay used up, whatever the
/// polls observe, the terminal lost and found again included: after any run of
/// polls the counter is still past them, and observing the remembered position
/// again emits nothing.
pub proof fn lemma_forced_emits_are_used_once(s: TrackerState, obs: Seq<Option<WindowInfo>>)
    requires
        s.emit_count >= FORCED_EMITS,
        s.emit_count + obs.len() < u64::MAX,
    ensures
        s.emit_count <= run_tracker(s, obs).emit_count <= s.emit_count + obs.len(),
        run_tracker(s, obs).emit_count >= FORCED_EMITS,
        run_tracker(s, obs).last_info matches Some(w) ==> tracker_emits(run_tracker(s, obs), Some(w))
            is None,
    decreases obs.len(),
{
    if obs.len() > 0 {
        lemma_forced_emits_are_used_once(s, obs.drop_last());
        lemma_emit_counter_only_grows(run_tracker(s, obs.drop_last()), obs.last());
    }
}

} // verus!

//! The tray's shared state (mute and visibility), what each tray menu entry
//! does to it, and the layout of the tray menu.

use vstd::prelude::*;
use vstd::string::*;
use crate::agents::AgentInfo;
use crate::text::{has_prefix, str_eq};

verus! {

/// The abstract state of the tray: whether sounds are muted and whether the
/// agent is shown.
pub struct TrayFlags {
    pub muted: bool,
    pub visible: bool,
}

impl TrayFlags {
    /// The flags with the mute state flipped.
    pub open spec fn mute_toggled(self) -> TrayFlags {
        TrayFlags { muted: !self.muted, visible: self.visible }
    }

    /// The flags with the visibility flipped.
    pub open spec fn visibility_toggled(self) -> TrayFlags {
        TrayFlags { muted: self.muted, visible: !self.visible }
    }

    /// The flags with the visibility set to `visible`.
    pub open spec fn with_visible(self, visible: bool) -> TrayFlags {
        TrayFlags { muted: self.muted, visible }
    }
}

/// The state a fresh tray starts in: unmuted and visible.
pub open spec fn initial_tray_flags() -> TrayFlags {
    TrayFlags { muted: false, visible: true }
}

/// Shared state for the tray icon.
pub struct TrayState {
    muted: bool,
    visible: bool,
}

impl View for TrayState {
    type V = TrayFlags;

    closed spec fn view(&self) -> TrayFlags {
        TrayFlags { muted: self.muted, visible: self.visible }
    }
}

impl TrayState {
    /// A tray state that is unmuted and visible.
    pub fn new() -> (s: Self)
        ensures
            s@ == initial_tray_flags(),
    {
        TrayState { muted: false, visible: true }
    }

    /// Whether sounds are muted.
    pub fn is_muted(&self) -> (r: bool)
        ensures
            r == self@.muted,
    {
        self.muted
    }

    /// Flips the mute state and returns the new one.
    pub fn toggle_mute(&mut self) -> (r: bool)
        ensures
            final(self)@ == old(self)@.mute_toggled(),
            r == final(self)@.muted,
    {
        self.muted = !self.muted;
        self.muted
    }

    /// Whether the agent is shown.
    pub fn is_visible(&self) -> (r: bool)
        ensures
            r == self@.visible,
    {
        self.visible
    }

    /// Flips the visibility and returns the new one.
    pub fn toggle_visibility(&mut self) -> (r: bool)
        ensures
            final(self)@ == old(self)@.visibility_toggled(),
            r == final(self)@.visible,
    {
        self.visible = !self.visible;
        self.visible
    }

    /// Sets the visibility.
    pub fn set_visible(&mut self, visible: bool)
        ensures
            final(self)@ == old(self)@.with_visible(visible),
    {
        self.visible = visible;
    }
}

/// Toggling the mute state twice restores it; toggling the visibility twice
/// restores it; neither toggle touches the other flag.
pub proof fn lemma_toggles(f: TrayFlags)
    ensures
        f.mute_toggled().mute_toggled() == f,
        f.visibility_toggled().visibility_toggled() == f,
        f.mute_toggled().visible == f.visible,
        f.visibility_toggled().muted == f.muted,
        f.mute_toggled().muted != f.muted,
        f.visibility_toggled().visible != f.visible,
{
}

/// Setting the visibility is idempotent, keeps the mute state, and the last
/// setting wins.
pub proof fn lemma_set_visible(f: TrayFlags, a: bool, b: bool)
    ensures
        f.with_visible(a).with_visible(a) == f.with_visible(a),
        f.with_visible(a).with_visible(b) == f.with_visible(b),
        f.with_visible(a).muted == f.muted,
        f.with_visible(a).visible == a,
{
}

/// A call that changes a `TrayState`.
pub enum TrayOp {
    /// `toggle_mute`
    ToggleMute,
    /// `toggle_visibility`
    ToggleVisibility,
    /// `set_visible(v)`
    SetVisible(bool),
}

/// The state after the call `op`, as the methods' contracts give it.
pub open spec fn apply_tray_op(f: TrayFlags, op: TrayOp) -> TrayFlags {
    match op {
        TrayOp::ToggleMute => f.mute_toggled(),
        TrayOp::ToggleVisibility => f.visibility_toggled(),
        TrayOp::SetVisible(v) => f.with_visible(v),
    }
}

/// The state after the calls `ops`, made in order from `f`.
pub open spec fn run_tray_ops(f: TrayFlags, ops: Seq<TrayOp>) -> TrayFlags
    decreases ops.len(),
{
    if ops.len() == 0 {
        f
    } else {
        apply_tray_op(run_tray_ops(f, ops.drop_last()), ops.last())
    }
}

/// How many of `ops` are `toggle_mute` calls.
pub open spec fn mute_toggle_count(ops: Seq<TrayOp>) -> nat
    decreases ops.len(),
{
    if ops.len() == 0 {
        0
    } else if ops.last() is ToggleMute {
        mute_toggle_count(ops.drop_last()) + 1
    } else {
        mute_toggle_count(ops.drop_last())
    }
}

/// The value of the last `set_visible` call in `ops`, or `start` if there is none.
pub open spec fn last_set_visible(start: bool, ops: Seq<TrayOp>) -> bool
    decreases ops.len(),
{
    if ops.len() == 0 {
        start
    } else if let TrayOp::SetVisible(v) = ops.last() {
        v
    } else {
        last_set_visible(start, ops.drop_last())
    }
}

/// How many `toggle_visibility` calls in `ops` come after the last `set_visible`.
pub open spec fn visibility_toggles_since_set(ops: Seq<TrayOp>) -> nat
    decreases ops.len(),
{
    if ops.len() == 0 {
        0
    } else if ops.last() is SetVisible {
        0
    } else if ops.last() is ToggleVisibility {
        visibility_toggles_since_set(ops.drop_last()) + 1
    } else {
        visibility_toggles_since_set(ops.drop_last())
    }
}

/// After any sequence of calls, sounds are muted exactly when the mute state was
/// toggled an odd number of times from the start state (so, from a new tray,
/// exactly when `toggle_mute` ran an odd number of times); and the agent is
/// visible exactly when the last `set_visible` value (or the start visibility,
/// where there was none) was flipped by an even number of later
/// `toggle_visibility` calls. Mute calls do not touch visibility, nor the
/// visibility calls the mute state.
pub proof fn lemma_tray_ops(f: TrayFlags, ops: Seq<TrayOp>)
    ensures
        run_tray_ops(f, ops).muted == (f.muted != (mute_toggle_count(ops) % 2 == 1)),
        run_tray_ops(f, ops).visible == (last_set_visible(f.visible, ops) != (
        visibility_toggles_since_set(ops) % 2 == 1)),
    decreases ops.len(),
{
    if ops.len() > 0 {
        lemma_tray_ops(f, ops.drop_last());
    }
}

/// From a new tray: muted exactly after an odd number of `toggle_mute` calls,
/// and visible exactly when the last `set_visible` value (true if none) was
/// followed by an even number of `toggle_visibility` calls.
pub proof fn lemma_new_tray_ops(ops: Seq<TrayOp>)
    ensures
        run_tray_ops(initial_tray_flags(), ops).muted == (mute_toggle_count(ops) % 2 == 1),
        run_tray_ops(initial_tray_flags(), ops).visible == (last_set_visible(true, ops) != (
        visibility_toggles_since_set(ops) % 2 == 1)),
{
    lemma_tray_ops(initial_tray_flags(), ops);
}

/// What a tray menu entry asks the app to do.
pub enum MenuAction {
    /// The visibility was toggled; the new visibility.
    Visibility(bool),
    /// The mute state was toggled; the new mute state.
    Mute(bool),
    /// Quit the app.
    Quit,
    /// Switch to the named agent.
    SwitchAgent(String),
    /// Anchor the agent at the named corner.
    Anchor(String),
    /// Nudge the agent vertically by `delta` pixels, or reset the offset.
    Offset { delta: i32, reset: bool },
    /// The entry is not one the tray knows.
    Ignore,
}

/// A `MenuAction` with its strings taken by their views.
pub enum MenuActionView {
    Visibility(bool),
    Mute(bool),
    Quit,
    SwitchAgent(Seq<char>),
    Anchor(Seq<char>),
    Offset { delta: i32, reset: bool },
    Ignore,
}

impl View for MenuAction {
    type V = MenuActionView;

    open spec fn view(&self) -> MenuActionView {
        match self {
            MenuAction::Visibility(v) => MenuActionView::Visibility(*v),
            MenuAction::Mute(m) => MenuActionView::Mute(*m),
            MenuAction::Quit => MenuActionView::Quit,
            MenuAction::SwitchAgent(a) => MenuActionView::SwitchAgent(a@),
            MenuAction::Anchor(a) => MenuActionView::Anchor(a@),
            MenuAction::Offset { delta, reset } => MenuActionView::Offset {
                delta: *delta,
                reset: *reset,
            },
            MenuAction::Ignore => MenuActionView::Ignore,
        }
    }
}

/// The id prefix of the entries that switch the agent.
pub open spec fn agent_id_prefix() -> Seq<char> {
    "agent_"@
}

/// The id prefix of the entries that anchor the agent.
pub open spec fn anchor_id_prefix() -> Seq<char> {
    "anchor_"@
}

/// The tray state and action that selecting the menu entry `id` leads to.
pub open spec fn menu_transition(f: TrayFlags, id: Seq<char>) -> (TrayFlags, MenuActionView) {
    if id == "show_hide"@ {
        (f.visibility_toggled(), MenuActionView::Visibility(!f.visible))
    } else if id == "mute"@ {
        (f.mute_toggled(), MenuActionView::Mute(!f.muted))
    } else if id == "quit"@ {
        (f, MenuActionView::Quit)
    } else if agent_id_prefix().is_prefix_of(id) {
        (f, MenuActionView::SwitchAgent(id.skip(agent_id_prefix().len() as int)))
    } else if anchor_id_prefix().is_prefix_of(id) {
        (f, MenuActionView::Anchor(id.skip(anchor_id_prefix().len() as int)))
    } else if id == "offset_up"@ {
        (f, MenuActionView::Offset { delta: 10, reset: false })
    } else if id == "offset_down"@ {
        (f, MenuActionView::Offset { delta: -10i32, reset: false })
    } else if id == "offset_reset"@ {
        (f, MenuActionView::Offset { delta: 0, reset: true })
    } else {
        (f, MenuActionView::Ignore)
    }
}

/// `s` without its first `prefix.len()` characters, as an owned string.
fn strip_known_prefix(s: &str, prefix: &str) -> (r: String)
    requires
        prefix@.is_prefix_of(s@),
    ensures
        r@ == s@.skip(prefix@.len() as int),
{
    let n = s.unicode_len();
    let p = prefix.unicode_len();
    let rest = s.substring_char(p, n);
    String::from_str(rest)
}

/// Handles the selection of the tray menu entry `id`: toggles the visibility
/// or the mute state where the entry asks for it, and says what else to do.
pub fn handle_menu_event(state: &mut TrayState, id: &str) -> (r: MenuAction)
    ensures
        (final(state)@, r@) == menu_transition(old(state)@, id@),
{
    if str_eq(id, "show_hide") {
        let now_visible = state.toggle_visibility();
        MenuAction::Visibility(now_visible)
    } else if str_eq(id, "mute") {
        let now_muted = state.toggle_mute();
        MenuAction::Mute(now_muted)
    } else if str_eq(id, "quit") {
        MenuAction::Quit
    } else if has_prefix(id, "agent_") {
        MenuAction::SwitchAgent(strip_known_prefix(id, "agent_"))
    } else if has_prefix(id, "anchor_") {
        MenuAction::Anchor(strip_known_prefix(id, "anchor_"))
    } else if str_eq(id, "offset_up") {
        MenuAction::Offset { delta: 10, reset: false }
    } else if str_eq(id, "offset_down") {
        MenuAction::Offset { delta: -10, reset: false }
    } else if str_eq(id, "offset_reset") {
        MenuAction::Offset { delta: 0, reset: true }
    } else {
        MenuAction::Ignore
    }
}

/// Handles a click on the tray icon: a release of the left button toggles the
/// visibility and yields the new one; any other click changes nothing.
pub fn handle_tray_click(state: &mut TrayState, left_button_released: bool) -> (r: Option<bool>)
    ensures
        left_button_released ==> final(state)@ == old(state)@.visibility_toggled() && r == Some(
            final(state)@.visible,
        ),
        !left_button_released ==> final(state)@ == old(state)@ && r is None,
{
    if left_button_released {
        Some(state.toggle_visibility())
    } else {
        None
    }
}


/// A tray menu entry: the id that selecting it reports, and its label.
pub struct MenuItemDef {
    pub id: String,
    pub label: String,
}

impl View for MenuItemDef {
    type V = (Seq<char>, Seq<char>);

    open spec fn view(&self) -> (Seq<char>, Seq<char>) {
        (self.id@, self.label@)
    }
}

/// A node of the tray menu.
pub enum MenuNode {
    Item(MenuItemDef),
    Separator,
    Submenu { label: String, items: Vec<MenuItemDef> },
}

/// A `MenuNode` with its strings taken by their views.
pub enum MenuNodeView {
    Item((Seq<char>, Seq<char>)),
    Separator,
    Submenu { label: Seq<char>, items: Seq<(Seq<char>, Seq<char>)> },
}

impl View for MenuNode {
    type V = MenuNodeView;

    open spec fn view(&self) -> MenuNodeView {
        match self {
            MenuNode::Item(i) => MenuNodeView::Item(i@),
            MenuNode::Separator => MenuNodeView::Separator,
            MenuNode::Submenu { label, items } => MenuNodeView::Submenu {
                label: label@,
                items: items@.map_values(|i: MenuItemDef| i@),
            },
        }
    }
}

/// The menu entry that switches to agent `a` (name, source): its id is the
/// agent prefix and the name; a user agent's label is marked as custom.
pub open spec fn agent_menu_entry(a: (Seq<char>, Seq<char>)) -> (Seq<char>, Seq<char>) {
    (agent_id_prefix() + a.0, if a.1 == "user"@ { a.0 + " (custom)"@ } else { a.0 })
}

/// The entries of the position submenu.
pub open spec fn anchor_menu_entries() -> Seq<(Seq<char>, Seq<char>)> {
    seq![
        ("anchor_bottom-right"@, "Bottom Right"@),
        ("anchor_bottom-left"@, "Bottom Left"@),
        ("anchor_top-right"@, "Top Right"@),
        ("anchor_top-left"@, "Top Left"@),
    ]
}

/// The entries of the vertical offset submenu.
pub open spec fn offset_menu_entries() -> Seq<(Seq<char>, Seq<char>)> {
    seq![
        ("offset_up"@, "Nudge Up (+10px)"@),
        ("offset_down"@, "Nudge Down (-10px)"@),
        ("offset_reset"@, "Reset Offset"@),
    ]
}

/// The whole tray menu for the available agents (name, source).
pub open spec fn tray_menu(agents: Seq<(Seq<char>, Seq<char>)>) -> Seq<MenuNodeView> {
    seq![
        MenuNodeView::Item(("show_hide"@, "Hide Agent"@)),
        MenuNodeView::Item(("mute"@, "Mute Sounds"@)),
        MenuNodeView::Separator,
        MenuNodeView::Submenu {
            label: "Switch Agent"@,
            items: agents.map_values(|a: (Seq<char>, Seq<char>)| agent_menu_entry(a)),
        },
        MenuNodeView::Submenu { label: "Position"@, items: anchor_menu_entries() },
        MenuNodeView::Submenu { label: "Vertical Offset"@, items: offset_menu_entries() },
        MenuNodeView::Separator,
        MenuNodeView::Item(("quit"@, "Quit Clippy Awakens"@)),
    ]
}

/// A menu entry with the given id and label.
fn menu_item(id: &str, label: &str) -> (r: MenuItemDef)
    ensures
        r@ == (id@, label@),
{
    MenuItemDef { id: String::from_str(id), label: String::from_str(label) }
}

/// The menu entry that switches to `agent`.
pub fn agent_menu_item(agent: &AgentInfo) -> (r: MenuItemDef)
    ensures
        r@ == agent_menu_entry(agent@),
{
    let mut id = String::from_str("agent_");
    id.append(agent.name.as_str());
    let mut label = agent.name.clone();
    if str_eq(agent.source.as_str(), "user") {
        label.append(" (custom)");
    }
    MenuItemDef { id, label }
}

/// The tray menu for `agents`, top to bottom.
pub fn tray_menu_layout(agents: &Vec<AgentInfo>) -> (r: Vec<MenuNode>)
    ensures
        r@.map_values(|n: MenuNode| n@) == tray_menu(agents@.map_values(|a: AgentInfo| a@)),
{
    let ghost views = agents@.map_values(|a: AgentInfo| a@);
    let mut agent_items: Vec<MenuItemDef> = Vec::new();
    let mut i: usize = 0;
    while i < agents.len()
        invariant
            views == agents@.map_values(|a: AgentInfo| a@),
            i <= agents.len(),
            agent_items@.map_values(|m: MenuItemDef| m@) == views.take(i as int).map_values(
                |a: (Seq<char>, Seq<char>)| agent_menu_entry(a),
            ),
        decreases agents.len() - i,
    {
        let item = agent_menu_item(&agents[i]);
        let ghost before = agent_items@;
        agent_items.push(item);
        assert(agent_items@.map_values(|m: MenuItemDef| m@) =~= before.map_values(
            |m: MenuItemDef| m@,
        ).push(agent_menu_entry(views[i as int])));
        assert(views.take(i + 1).map_values(|a: (Seq<char>, Seq<char>)| agent_menu_entry(a))
            =~= views.take(i as int).map_values(|a: (Seq<char>, Seq<char>)| agent_menu_entry(a)).push(
            agent_menu_entry(views[i as int]),
        ));
        i = i + 1;
    }
    assert(views.take(agents.len() as int) =~= views);
    let anchors = vec![
        menu_item("anchor_bottom-right", "Bottom Right"),
        menu_item("anchor_bottom-left", "Bottom Left"),
        menu_item("anchor_top-right", "Top Right"),
        menu_item("anchor_top-left", "Top Left"),
    ];
    assert(anchors@.map_values(|m: MenuItemDef| m@) =~= anchor_menu_entries());
    let offsets = vec![
        menu_item("offset_up", "Nudge Up (+10px)"),
        menu_item("offset_down", "Nudge Down (-10px)"),
        menu_item("offset_reset", "Reset Offset"),
    ];
    assert(offsets@.map_values(|m: MenuItemDef| m@) =~= offset_menu_entries());
    let r = vec![
        MenuNode::Item(menu_item("show_hide", "Hide Agent")),
        MenuNode::Item(menu_item("mute", "Mute Sounds")),
        MenuNode::Separator,
        MenuNode::Submenu { label: String::from_str("Switch Agent"), items: agent_items },
        MenuNode::Submenu { label: String::from_str("Position"), items: anchors },
        MenuNode::Submenu { label: String::from_str("Vertical Offset"), items: offsets },
        MenuNode::Separator,
        MenuNode::Item(menu_item("quit", "Quit Clippy Awakens")),
    ];
    assert(r@.map_values(|n: MenuNode| n@) =~= tray_menu(views));
    r
}


/// Whether selecting the entry `id` does something.
pub open spec fn menu_entry_handled(f: TrayFlags, id: Seq<char>) -> bool {
    !(menu_transition(f, id).1 is Ignore)
}

/// Whether every entry in `node` does something when selected.
pub open spec fn menu_node_handled(f: TrayFlags, node: MenuNodeView) -> bool {
    match node {
        MenuNodeView::Item(e) => menu_entry_handled(f, e.0),
        MenuNodeView::Separator => true,
        MenuNodeView::Submenu { label, items } => forall|j: int|
            0 <= j < items.len() ==> menu_entry_handled(f, #[trigger] items[j].0),
    }
}


/// The spelling of the tray menu ids, character by character.
proof fn lemma_menu_id_spelling()
    ensures
        "show_hide"@ == seq!['s', 'h', 'o', 'w', '_', 'h', 'i', 'd', 'e'],
        "mute"@ == seq!['m', 'u', 't', 'e'],
        "quit"@ == seq!['q', 'u', 'i', 't'],
        "agent_"@ == seq!['a', 'g', 'e', 'n', 't', '_'],
        "anchor_"@ == seq!['a', 'n', 'c', 'h', 'o', 'r', '_'],
        "offset_up"@ == seq!['o', 'f', 'f', 's', 'e', 't', '_', 'u', 'p'],
        "offset_down"@ == seq!['o', 'f', 'f', 's', 'e', 't', '_', 'd', 'o', 'w', 'n'],
        "offset_reset"@ == seq!['o', 'f', 'f', 's', 'e', 't', '_', 'r', 'e', 's', 'e', 't'],
        "anchor_bottom-right"@ == seq!['a', 'n', 'c', 'h', 'o', 'r', '_', 'b', 'o', 't', 't', 'o', 'm', '-', 'r', 'i', 'g', 'h', 't'],
        "anchor_bottom-left"@ == seq!['a', 'n', 'c', 'h', 'o', 'r', '_', 'b', 'o', 't', 't', 'o', 'm', '-', 'l', 'e', 'f', 't'],
        "anchor_top-right"@ == seq!['a', 'n', 'c', 'h', 'o', 'r', '_', 't', 'o', 'p', '-', 'r', 'i', 'g', 'h', 't'],
        "anchor_top-left"@ == seq!['a', 'n', 'c', 'h', 'o', 'r', '_', 't', 'o', 'p', '-', 'l', 'e', 'f', 't'],
{
    reveal_strlit("show_hide");
    reveal_strlit("mute");
    reveal_strlit("quit");
    reveal_strlit("agent_");
    reveal_strlit("anchor_");
    reveal_strlit("offset_up");
    reveal_strlit("offset_down");
    reveal_strlit("offset_reset");
    reveal_strlit("anchor_bottom-right");
    reveal_strlit("anchor_bottom-left");
    reveal_strlit("anchor_top-right");
    reveal_strlit("anchor_top-left");
}

/// Selecting the entry of an agent switches to that agent and changes nothing else.
pub proof fn lemma_agent_entry_switches_agent(f: TrayFlags, a: (Seq<char>, Seq<char>))
    ensures
        menu_transition(f, agent_menu_entry(a).0) == (f, MenuActionView::SwitchAgent(a.0)),
{
    lemma_menu_id_spelling();
    let id = agent_menu_entry(a).0;
    assert(id[0] == 'a');
    assert(id.subrange(0, 6) =~= agent_id_prefix());
    assert(id.skip(6) =~= a.0);
}

/// Selecting a position entry anchors the agent at the corner its id names,
/// and selecting an offset entry nudges by 10 pixels up or down, or resets.
pub proof fn lemma_position_and_offset_entries(f: TrayFlags)
    ensures
        forall|j: int| 0 <= j < 4 ==> menu_transition(f, #[trigger] anchor_menu_entries()[j].0) == (
            f,
            MenuActionView::Anchor(anchor_menu_entries()[j].0.skip(7)),
        ),
        menu_transition(f, offset_menu_entries()[0].0) == (
            f,
            MenuActionView::Offset { delta: 10, reset: false },
        ),
        menu_transition(f, offset_menu_entries()[1].0) == (
            f,
            MenuActionView::Offset { delta: -10i32, reset: false },
        ),
        menu_transition(f, offset_menu_entries()[2].0) == (
            f,
            MenuActionView::Offset { delta: 0, reset: true },
        ),
{
    lemma_menu_id_spelling();
    assert("anchor_bottom-right"@ != "show_hide"@ && "anchor_bottom-right"@ != "mute"@ && "anchor_bottom-right"@ != "quit"@) by {
        assert("anchor_bottom-right"@[0] != "show_hide"@[0] && "anchor_bottom-right"@[0] != "mute"@[0] && "anchor_bottom-right"@[0] != "quit"@[0]);
    }
    assert(!agent_id_prefix().is_prefix_of("anchor_bottom-right"@)) by {
        assert("anchor_bottom-right"@[1] != agent_id_prefix()[1]);
    }
    assert(anchor_id_prefix().is_prefix_of("anchor_bottom-right"@)) by {
        assert("anchor_bottom-right"@.subrange(0, 7) =~= anchor_id_prefix());
    }
    assert("anchor_bottom-left"@ != "show_hide"@ && "anchor_bottom-left"@ != "mute"@ && "anchor_bottom-left"@ != "quit"@) by {
        assert("anchor_bottom-left"@[0] != "show_hide"@[0] && "anchor_bottom-left"@[0] != "mute"@[0] && "anchor_bottom-left"@[0] != "quit"@[0]);
    }
    assert(!agent_id_prefix().is_prefix_of("anchor_bottom-left"@)) by {
        assert("anchor_bottom-left"@[1] != agent_id_prefix()[1]);
    }
    assert(anchor_id_prefix().is_prefix_of("anchor_bottom-left"@)) by {
        assert("anchor_bottom-left"@.subrange(0, 7) =~= anchor_id_prefix());
    }
    assert("anchor_top-right"@ != "show_hide"@ && "anchor_top-right"@ != "mute"@ && "anchor_top-right"@ != "quit"@) by {
        assert("anchor_top-right"@[0] != "show_hide"@[0] && "anchor_top-right"@[0] != "mute"@[0] && "anchor_top-right"@[0] != "quit"@[0]);
    }
    assert(!agent_id_prefix().is_prefix_of("anchor_top-right"@)) by {
        assert("anchor_top-right"@[1] != agent_id_prefix()[1]);
    }
    assert(anchor_id_prefix().is_prefix_of("anchor_top-right"@)) by {
        assert("anchor_top-right"@.subrange(0, 7) =~= anchor_id_prefix());
    }
    assert("anchor_top-left"@ != "show_hide"@ && "anchor_top-left"@ != "mute"@ && "anchor_top-left"@ != "quit"@) by {
        assert("anchor_top-left"@[0] != "show_hide"@[0] && "anchor_top-left"@[0] != "mute"@[0] && "anchor_top-left"@[0] != "quit"@[0]);
    }
    assert(!agent_id_prefix().is_prefix_of("anchor_top-left"@)) by {
        assert("anchor_top-left"@[1] != agent_id_prefix()[1]);
    }
    assert(anchor_id_prefix().is_prefix_of("anchor_top-left"@)) by {
        assert("anchor_top-left"@.subrange(0, 7) =~= anchor_id_prefix());
    }
    assert("offset_up"@ != "show_hide"@ && "offset_up"@ != "mute"@ && "offset_up"@ != "quit"@) by {
        assert("offset_up"@[0] != "show_hide"@[0] && "offset_up"@[0] != "mute"@[0] && "offset_up"@[0] != "quit"@[0]);
    }
    assert(!agent_id_prefix().is_prefix_of("offset_up"@)) by {
        assert("offset_up"@[0] != agent_id_prefix()[0]);
    }
    assert(!anchor_id_prefix().is_prefix_of("offset_up"@)) by {
        assert("offset_up"@[0] != anchor_id_prefix()[0]);
    }
    assert("offset_down"@ != "show_hide"@ && "offset_down"@ != "mute"@ && "offset_down"@ != "quit"@) by {
        assert("offset_down"@[0] != "show_hide"@[0] && "offset_down"@[0] != "mute"@[0] && "offset_down"@[0] != "quit"@[0]);
    }
    assert(!agent_id_prefix().is_prefix_of("offset_down"@)) by {
        assert("offset_down"@[0] != agent_id_prefix()[0]);
    }
    assert(!anchor_id_prefix().is_prefix_of("offset_down"@)) by {
        assert("offset_down"@[0] != anchor_id_prefix()[0]);
    }
    assert("offset_reset"@ != "show_hide"@ && "offset_reset"@ != "mute"@ && "offset_reset"@ != "quit"@) by {
        assert("offset_reset"@[0] != "show_hide"@[0] && "offset_reset"@[0] != "mute"@[0] && "offset_reset"@[0] != "quit"@[0]);
    }
    assert(!agent_id_prefix().is_prefix_of("offset_reset"@)) by {
        assert("offset_reset"@[0] != agent_id_prefix()[0]);
    }
    assert(!anchor_id_prefix().is_prefix_of("offset_reset"@)) by {
        assert("offset_reset"@[0] != anchor_id_prefix()[0]);
    }
    assert("offset_down"@ != "offset_up"@) by {
        assert("offset_down"@.len() != "offset_up"@.len());
    }
    assert("offset_reset"@ != "offset_up"@ && "offset_reset"@ != "offset_down"@) by {
        assert("offset_reset"@.len() != "offset_up"@.len());
        assert("offset_reset"@.len() != "offset_down"@.len());
    }
    let e = anchor_menu_entries();
    assert forall|j: int| 0 <= j < 4 implies menu_transition(f, #[trigger] e[j].0) == (
        f,
        MenuActionView::Anchor(e[j].0.skip(7)),
    ) by {
        assert(j == 0 || j == 1 || j == 2 || j == 3);
    }
}

/// Every entry of the tray menu, for any list of agents and in any tray state,
/// is one that selecting does something.
pub proof fn lemma_tray_menu_entries_handled(f: TrayFlags, agents: Seq<(Seq<char>, Seq<char>)>)
    ensures
        forall|k: int| 0 <= k < tray_menu(agents).len() ==> menu_node_handled(f, #[trigger] tray_menu(agents)[k]),
{
    lemma_menu_id_spelling();
    lemma_position_and_offset_entries(f);
    let items = agents.map_values(|a: (Seq<char>, Seq<char>)| agent_menu_entry(a));
    assert forall|j: int| 0 <= j < items.len() implies menu_entry_handled(f, #[trigger] items[j].0) by {
        lemma_agent_entry_switches_agent(f, agents[j]);
    }
    let anchors = anchor_menu_entries();
    assert forall|j: int| 0 <= j < anchors.len() implies menu_entry_handled(f, #[trigger] anchors[j].0) by {}
    let offsets = offset_menu_entries();
    assert forall|j: int| 0 <= j < offsets.len() implies menu_entry_handled(f, #[trigger] offsets[j].0) by {
        assert(j == 0 || j == 1 || j == 2);
    }
    let m = tray_menu(agents);
    assert(menu_node_handled(f, m[0]));
    assert(menu_node_handled(f, m[1]));
    assert(menu_node_handled(f, m[3]));
    assert(menu_node_handled(f, m[4]));
    assert(menu_node_handled(f, m[5]));
    assert(menu_node_handled(f, m[7]));
}

/// The spelling of the tray menu labels, character by character.
proof fn lemma_menu_label_spelling()
    ensures
        "Hide Agent"@ == seq!['H', 'i', 'd', 'e', ' ', 'A', 'g', 'e', 'n', 't'],
        "Mute Sounds"@ == seq!['M', 'u', 't', 'e', ' ', 'S', 'o', 'u', 'n', 'd', 's'],
        "Quit Clippy Awakens"@ == seq!['Q', 'u', 'i', 't', ' ', 'C', 'l', 'i', 'p', 'p', 'y', ' ', 'A', 'w', 'a', 'k', 'e', 'n', 's'],
        "Bottom Right"@ == seq!['B', 'o', 't', 't', 'o', 'm', ' ', 'R', 'i', 'g', 'h', 't'],
        "Bottom Left"@ == seq!['B', 'o', 't', 't', 'o', 'm', ' ', 'L', 'e', 'f', 't'],
        "Top Right"@ == seq!['T', 'o', 'p', ' ', 'R', 'i', 'g', 'h', 't'],
        "Top Left"@ == seq!['T', 'o', 'p', ' ', 'L', 'e', 'f', 't'],
        "Nudge Up (+10px)"@ == seq!['N', 'u', 'd', 'g', 'e', ' ', 'U', 'p', ' ', '(', '+', '1', '0', 'p', 'x', ')'],
        "Nudge Down (-10px)"@ == seq!['N', 'u', 'd', 'g', 'e', ' ', 'D', 'o', 'w', 'n', ' ', '(', '-', '1', '0', 'p', 'x', ')'],
        "Reset Offset"@ == seq!['R', 'e', 's', 'e', 't', ' ', 'O', 'f', 'f', 's', 'e', 't'],
        " (custom)"@ == seq![' ', '(', 'c', 'u', 's', 't', 'o', 'm', ')'],
        "user"@ == seq!['u', 's', 'e', 'r'],
{
    reveal_strlit("Hide Agent");
    reveal_strlit("Mute Sounds");
    reveal_strlit("Quit Clippy Awakens");
    reveal_strlit("Bottom Right");
    reveal_strlit("Bottom Left");
    reveal_strlit("Top Right");
    reveal_strlit("Top Left");
    reveal_strlit("Nudge Up (+10px)");
    reveal_strlit("Nudge Down (-10px)");
    reveal_strlit("Reset Offset");
    reveal_strlit(" (custom)");
    reveal_strlit("user");
}

/// A character of a label as it appears in a corner name: a space becomes a
/// hyphen and an upper-case letter becomes lower case.
pub open spec fn slug_char(c: char) -> char {
    if c == ' ' {
        '-'
    } else if 'A' <= c <= 'Z' {
        ((c as int) + 32) as char
    } else {
        c
    }
}

/// A label as a corner name, e.g. "Bottom Right" as "bottom-right".
pub open spec fn label_slug(label: Seq<char>) -> Seq<char> {
    label.map_values(|c: char| slug_char(c))
}

/// Selecting "mute" flips the mute state, leaves the visibility, and reports
/// the new mute state; selecting "show_hide" flips the visibility, leaves the
/// mute state, and reports the new visibility; selecting "quit" changes
/// nothing and quits. This holds in every tray state.
pub proof fn lemma_fixed_menu_entries(f: TrayFlags)
    ensures
        menu_transition(f, "mute"@).0.muted == !f.muted,
        menu_transition(f, "mute"@).0.visible == f.visible,
        menu_transition(f, "mute"@).1 == MenuActionView::Mute(!f.muted),
        menu_transition(f, "show_hide"@).0.visible == !f.visible,
        menu_transition(f, "show_hide"@).0.muted == f.muted,
        menu_transition(f, "show_hide"@).1 == MenuActionView::Visibility(!f.visible),
        menu_transition(f, "quit"@).0 == f,
        menu_transition(f, "quit"@).1 == MenuActionView::Quit,
{
    lemma_menu_id_spelling();
}

/// What each entry of the tray menu does, read against its label: "Hide Agent"
/// flips the visibility, "Mute Sounds" flips the mute state, "Quit Clippy
/// Awakens" quits; each agent's entry switches to that agent and is labelled
/// with its name (marked custom for a user agent); each position entry anchors
/// at the corner its label names; "Nudge Up (+10px)" and "Nudge Down (-10px)"
/// move by 10 pixels and "Reset Offset" resets. None of them but the first two
/// changes the tray state.
pub proof fn lemma_menu_entries_do_what_labels_say(f: TrayFlags, agents: Seq<(Seq<char>, Seq<char>)>)
    ensures
        tray_menu(agents).len() == 8,
        tray_menu(agents)[0] matches MenuNodeView::Item(e) && e.1 == "Hide Agent"@
            && menu_transition(f, e.0).0.visible == !f.visible
            && menu_transition(f, e.0).0.muted == f.muted
            && menu_transition(f, e.0).1 == MenuActionView::Visibility(!f.visible),
        tray_menu(agents)[1] matches MenuNodeView::Item(e) && e.1 == "Mute Sounds"@
            && menu_transition(f, e.0).0.muted == !f.muted
            && menu_transition(f, e.0).0.visible == f.visible
            && menu_transition(f, e.0).1 == MenuActionView::Mute(!f.muted),
        tray_menu(agents)[7] matches MenuNodeView::Item(e) && e.1 == "Quit Clippy Awakens"@
            && menu_transition(f, e.0) == (f, MenuActionView::Quit),
        tray_menu(agents)[3] matches MenuNodeView::Submenu { label, items } && items.len()
            == agents.len() && forall|j: int|
            0 <= j < items.len() ==> {
                &&& menu_transition(f, #[trigger] items[j].0) == (
                    f,
                    MenuActionView::SwitchAgent(agents[j].0),
                )
                &&& items[j].1 == if agents[j].1 == "user"@ {
                    agents[j].0 + " (custom)"@
                } else {
                    agents[j].0
                }
            },
        tray_menu(agents)[4] matches MenuNodeView::Submenu { label, items } && items.len() == 4
            && items[0].1 == "Bottom Right"@ && items[1].1 == "Bottom Left"@ && items[2].1
            == "Top Right"@ && items[3].1 == "Top Left"@ && forall|j: int|
            0 <= j < items.len() ==> menu_transition(f, #[trigger] items[j].0) == (
                f,
                MenuActionView::Anchor(label_slug(items[j].1)),
            ),
        tray_menu(agents)[5] matches MenuNodeView::Submenu { label, items } && items.len() == 3
            && items[0].1 == "Nudge Up (+10px)"@ && menu_transition(f, items[0].0) == (
            f,
            MenuActionView::Offset { delta: 10, reset: false },
        ) && items[1].1 == "Nudge Down (-10px)"@ && menu_transition(f, items[1].0) == (
            f,
            MenuActionView::Offset { delta: -10i32, reset: false },
        ) && items[2].1 == "Reset Offset"@ && menu_transition(f, items[2].0) == (
            f,
            MenuActionView::Offset { delta: 0, reset: true },
        ),
{
    lemma_menu_id_spelling();
    lemma_menu_label_spelling();
    lemma_fixed_menu_entries(f);
    lemma_position_and_offset_entries(f);
    let m = tray_menu(agents);
    let items = agents.map_values(|a: (Seq<char>, Seq<char>)| agent_menu_entry(a));
    assert forall|j: int| 0 <= j < items.len() implies menu_transition(f, #[trigger] items[j].0) == (
        f,
        MenuActionView::SwitchAgent(agents[j].0),
    ) by {
        lemma_agent_entry_switches_agent(f, agents[j]);
    }
    let e = anchor_menu_entries();
    assert(e[0].0.skip(7) =~= label_slug(e[0].1));
    assert(e[1].0.skip(7) =~= label_slug(e[1].1));
    assert(e[2].0.skip(7) =~= label_slug(e[2].1));
    assert(e[3].0.skip(7) =~= label_slug(e[3].1));
    assert forall|j: int| 0 <= j < e.len() implies menu_transition(f, #[trigger] e[j].0) == (
        f,
        MenuActionView::Anchor(label_slug(e[j].1)),
    ) by {
        assert(j == 0 || j == 1 || j == 2 || j == 3);
    }
}

} // verus!

//! The persisted app configuration: its defaults, and how each saved setting
//! changes it. Reading and writing the file, and the JSON form, are the app's.

use vstd::prelude::*;
use vstd::string::*;

verus! {

/// The agent's drag position on screen. Each coordinate is held as the bit
/// pattern of its `f64` value (`f64::to_bits`), which is how the library
/// carries it without computing on floating point.
#[derive(Clone, Copy, Debug, PartialEq, Eq, Structural)]
pub struct Position {
    pub x_bits: u64,
    pub y_bits: u64,
}

/// The bits of `1536.0`, 80% of the width of a 1920x1080 screen.
pub const DEFAULT_X_BITS: u64 = 0x4098_0000_0000_0000;

/// The bits of `864.0`, 80% of the height of a 1920x1080 screen.
pub const DEFAULT_Y_BITS: u64 = 0x408B_0000_0000_0000;

/// The default position: the bottom-right area (80% of a 1920x1080 screen).
pub open spec fn default_position() -> Position {
    Position { x_bits: DEFAULT_X_BITS, y_bits: DEFAULT_Y_BITS }
}

impl Default for Position {
    fn default() -> (r: Self)
        ensures
            r == default_position(),
    {
        Position { x_bits: DEFAULT_X_BITS, y_bits: DEFAULT_Y_BITS }
    }
}

/// The app configuration.
pub struct AppConfig {
    pub agent: String,
    pub muted: bool,
    pub position: Position,
}

/// An `AppConfig` with its agent name taken by its view.
pub struct ConfigView {
    pub agent: Seq<char>,
    pub muted: bool,
    pub position: Position,
}

impl View for AppConfig {
    type V = ConfigView;

    open spec fn view(&self) -> ConfigView {
        ConfigView { agent: self.agent@, muted: self.muted, position: self.position }
    }
}

/// The default configuration: the Clippy agent, unmuted, at the default position.
pub open spec fn default_config() -> ConfigView {
    ConfigView { agent: "Clippy"@, muted: false, position: default_position() }
}

impl Default for AppConfig {
    fn default() -> (r: Self)
        ensures
            r@ == default_config(),
    {
        AppConfig { agent: String::from_str("Clippy"), muted: false, position: Position::default() }
    }
}

/// The configuration in effect given what loading it gave: the loaded one, or
/// the defaults when there was none (the file is missing or corrupt).
pub open spec fn effective_config(loaded: Option<ConfigView>) -> ConfigView {
    match loaded {
        Some(c) => c,
        None => default_config(),
    }
}

/// The view of an optional configuration.
pub open spec fn opt_config_view(loaded: Option<AppConfig>) -> Option<ConfigView> {
    match loaded {
        Some(c) => Some(c@),
        None => None,
    }
}

/// The configuration in effect: the loaded one, or the defaults.
pub fn config_or_default(loaded: Option<AppConfig>) -> (r: AppConfig)
    ensures
        r@ == effective_config(opt_config_view(loaded)),
{
    match loaded {
        Some(c) => c,
        None => AppConfig::default(),
    }
}

/// A setting that the webview saves.
pub enum ConfigChange {
    /// The agent was dragged to a new position.
    Position(Position),
    /// A different agent was chosen.
    Agent(String),
    /// Sounds were muted or unmuted.
    Muted(bool),
}

/// The configuration after `change`: only the changed setting differs.
pub open spec fn changed_config(c: ConfigView, change: ConfigChange) -> ConfigView {
    match change {
        ConfigChange::Position(p) => ConfigView { position: p, ..c },
        ConfigChange::Agent(a) => ConfigView { agent: a@, ..c },
        ConfigChange::Muted(m) => ConfigView { muted: m, ..c },
    }
}

/// The configuration to save when `change` is made: the loaded configuration
/// (or the defaults when there was none) with that one setting changed.
pub fn apply_config_change(loaded: Option<AppConfig>, change: ConfigChange) -> (r: AppConfig)
    ensures
        r@ == changed_config(effective_config(opt_config_view(loaded)), change),
{
    let mut cfg = config_or_default(loaded);
    match change {
        ConfigChange::Position(p) => {
            cfg.position = p;
        },
        ConfigChange::Agent(a) => {
            cfg.agent = a;
        },
        ConfigChange::Muted(m) => {
            cfg.muted = m;
        },
    }
    cfg
}

/// A change sets its own setting and leaves the other two as they were; a
/// second change of the same setting overrides the first.
pub proof fn lemma_change_touches_one_setting(c: ConfigView, change: ConfigChange, again: ConfigChange)
    ensures
        change matches ConfigChange::Position(p) ==> changed_config(c, change).position == p
            && changed_config(c, change).agent == c.agent && changed_config(c, change).muted
            == c.muted,
        change matches ConfigChange::Agent(a) ==> changed_config(c, change).agent == a@
            && changed_config(c, change).position == c.position && changed_config(c, change).muted
            == c.muted,
        change matches ConfigChange::Muted(m) ==> changed_config(c, change).muted == m
            && changed_config(c, change).agent == c.agent && changed_config(c, change).position
            == c.position,
        (change matches ConfigChange::Position(_) && again matches ConfigChange::Position(_)) || (
        change matches ConfigChange::Agent(_) && again matches ConfigChange::Agent(_)) || (
        change matches ConfigChange::Muted(_) && again matches ConfigChange::Muted(_))
            ==> changed_config(changed_config(c, change), again) == changed_config(c, again),
{
}

} // verus!

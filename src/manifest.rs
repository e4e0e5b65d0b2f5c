//! Contribution records of an extension manifest: commands, palette entries,
//! keybindings and views. Palette entries and keybindings carry a `when` rule
//! that `Match` decides.
use vstd::prelude::*;

verus! {

/// A command an extension registers.
#[derive(Clone, Debug)]
pub struct Command {
    /// Unique identifier of the command.
    pub command: String,
    /// Display name, shown in preferences and in root search.
    pub title: String,
    /// Supplemental text shown in root search results.
    pub subtitle: Option<String>,
    /// What the command does, shown in preferences.
    pub description: String,
    /// The command's icon; the extension's icon when absent.
    pub icon: Option<String>,
    /// Whether the command starts disabled (`false` when absent).
    pub disabled_by_default: Option<bool>,
}

/// A command search palette entry, active when its `when` rule holds.
#[derive(Clone, Debug)]
pub struct Palette {
    /// Identifier of the command the entry triggers.
    pub command: String,
    /// The activation rule.
    pub when: String,
    /// The range the rule's text length or entry count must lie in.
    pub lens: Option<[u32; 2]>,
    /// Display name; the command's title when absent.
    pub title: Option<String>,
    /// Supplemental text; the command's subtitle when absent.
    pub subtitle: Option<String>,
    /// The entry's icon; the command's icon when absent.
    pub icon: Option<String>,
}

/// A shortcut key binding.
#[derive(Clone, Debug)]
pub struct Keybinding {
    /// Identifier of the command the binding triggers.
    pub command: String,
    /// The default shortcut, e.g. `ctrl+p`.
    pub key: String,
    /// The shortcut on macOS.
    pub mac: Option<String>,
    /// The shortcut on Windows.
    pub windows: Option<String>,
    /// The shortcut on Linux.
    pub linux: Option<String>,
    /// Whether the shortcut works system-wide rather than in the active window.
    pub global: Option<bool>,
    /// The activation rule.
    pub when: Option<String>,
}

/// A preference page.
#[derive(Clone, Debug)]
pub struct Preference {
    pub title: String,
}

/// A view an extension contributes.
#[derive(Clone, Debug)]
pub struct View {
    pub command: Option<String>,
    pub label: String,
    pub title: Option<String>,
    pub icon: Option<String>,
    pub tools: Option<bool>,
    pub url: Option<bool>,
}

/// A window an extension contributes.
#[derive(Clone, Debug)]
pub struct Window {
    pub command: Option<String>,
    pub label: String,
    pub title: String,
    pub icon: Option<String>,
}

/// Everything an extension contributes.
#[derive(Clone, Debug)]
pub struct Contributes {
    pub commands: Option<Vec<Command>>,
    pub palettes: Option<Vec<Palette>>,
    pub keybindings: Option<Vec<Keybinding>>,
    pub preferences: Option<Preference>,
    pub actions: Option<String>,
    pub views: Option<Vec<View>>,
    pub window: Option<Vec<Window>>,
}

} // verus!

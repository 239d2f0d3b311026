//! The shell's configuration records and their defaults.
use vstd::prelude::*;

verus! {

/// An application pinned to the panel.
#[derive(Clone, Debug)]
pub struct AppEntry {
    pub name: String,
    /// Icon key, such as `chromium`.
    pub icon: String,
    /// Emoji shown on the panel; the user may change it.
    pub icon_emoji: String,
    /// Command line that starts the application (the `exec` key).
    pub command: String,
    pub pinned: bool,
}

/// Fields of an entry, as plain values.
pub open spec fn entry_view(e: AppEntry) -> (Seq<char>, Seq<char>, Seq<char>, Seq<char>, bool) {
    (e.name@, e.icon@, e.icon_emoji@, e.command@, e.pinned)
}

/// The applications of a new configuration.
pub open spec fn default_app_views() -> Seq<(Seq<char>, Seq<char>, Seq<char>, Seq<char>, bool)> {
    seq![
        ("Chromium"@, "chromium"@, "🌐"@, "chromium-browser"@, true),
        ("Writer"@, "libreoffice-writer"@, "📝"@, "libreoffice --writer"@, true),
        ("GIMP"@, "gimp"@, "🎨"@, "gimp"@, true),
        ("File Manager"@, "file-manager"@, "📁"@, "thunar"@, true),
        ("Terminale"@, "terminal"@, "⬛"@, "foot"@, true),
        ("Impostazioni"@, "settings"@, "⚙️"@, "__settings__"@, true),
    ]
}

fn entry(name: &str, icon: &str, icon_emoji: &str, command: &str) -> (e: AppEntry)
    ensures
        entry_view(e) == (name@, icon@, icon_emoji@, command@, true),
{
    AppEntry {
        name: String::from_str(name),
        icon: String::from_str(icon),
        icon_emoji: String::from_str(icon_emoji),
        command: String::from_str(command),
        pinned: true,
    }
}

/// The applications pinned in a new configuration.
pub fn default_apps() -> (apps: Vec<AppEntry>)
    ensures
        apps@.map_values(|e: AppEntry| entry_view(e)) == default_app_views(),
{
    let apps = vec![
        entry("Chromium", "chromium", "🌐", "chromium-browser"),
        entry("Writer", "libreoffice-writer", "📝", "libreoffice --writer"),
        entry("GIMP", "gimp", "🎨", "gimp"),
        entry("File Manager", "file-manager", "📁", "thunar"),
        entry("Terminale", "terminal", "⬛", "foot"),
        entry("Impostazioni", "settings", "⚙️", "__settings__"),
    ];
    assert(apps@.map_values(|e: AppEntry| entry_view(e)) =~= default_app_views());
    apps
}

/// WordPress credentials as edited in the settings.
#[derive(Clone, Debug)]
pub struct WpCfg {
    pub url: String,
    pub username: String,
    pub app_password: String,
}

/// Ghost key as edited in the settings.
#[derive(Clone, Debug)]
pub struct GhostCfg {
    pub url: String,
    pub admin_key: String,
}

/// Update source as edited in the settings.
#[derive(Clone, Debug)]
pub struct UpdateCfg {
    pub update_url: String,
    pub auto_check: bool,
}

impl Default for WpCfg {
    fn default() -> (c: Self)
        ensures
            c.url@.len() == 0 && c.username@.len() == 0 && c.app_password@.len() == 0,
    {
        WpCfg { url: String::new(), username: String::new(), app_password: String::new() }
    }
}

impl Default for GhostCfg {
    fn default() -> (c: Self)
        ensures
            c.url@.len() == 0 && c.admin_key@.len() == 0,
    {
        GhostCfg { url: String::new(), admin_key: String::new() }
    }
}

impl Default for UpdateCfg {
    /// No update source, automatic checks on.
    fn default() -> (c: Self)
        ensures
            c.update_url@.len() == 0,
            c.auto_check,
    {
        UpdateCfg { update_url: String::new(), auto_check: default_true() }
    }
}

/// Default of `auto_check` when the key is absent.
pub fn default_true() -> (b: bool)
    ensures
        b,
{
    true
}

} // verus!

//! The settings window: its sections, the list of applications, and the
//! report of the update script.
use vstd::prelude::*;
use crate::shell::config::{entry_view, AppEntry};
use crate::text::{chars_of, concat3, contains_chars, has_substring, same_text, skip_ws, trim};

verus! {

/// Titles of the sections of the settings window, in order.
pub fn sections() -> (s: Vec<&'static str>)
    ensures
        s@.map_values(|t: &str| t@) == seq!["Aspetto"@, "Layout"@, "Applicazioni"@, "AI & Budget"@, "Aggiornamenti"@],
{
    let s = vec!["Aspetto", "Layout", "Applicazioni", "AI & Budget", "Aggiornamenti"];
    assert(s@.map_values(|t: &str| t@) =~= seq!["Aspetto"@, "Layout"@, "Applicazioni"@, "AI & Budget"@, "Aggiornamenti"@]);
    s
}

/// Section opened from the welcome screen: "AI & Budget".
pub const AI_BUDGET_SECTION: usize = 3;

/// The blank entry offered for adding an application.
pub fn default_new_app() -> (e: AppEntry)
    ensures
        entry_view(e) == (Seq::<char>::empty(), "app"@, "🖥"@, Seq::<char>::empty(), true),
{
    AppEntry {
        name: String::new(),
        icon: String::from_str("app"),
        icon_emoji: String::from_str("🖥"),
        command: String::new(),
        pinned: true,
    }
}

pub open spec fn entries(apps: Seq<AppEntry>) -> Seq<(Seq<char>, Seq<char>, Seq<char>, Seq<char>, bool)> {
    apps.map_values(|e: AppEntry| entry_view(e))
}

/// Removes the application at `i`.
pub fn remove_app(apps: &mut Vec<AppEntry>, i: usize)
    requires
        i < old(apps)@.len(),
    ensures
        final(apps)@ == old(apps)@.remove(i as int),
{
    apps.remove(i);
}

/// Moves the application at `i` one place up.
pub fn move_app_up(apps: &mut Vec<AppEntry>, i: usize)
    requires
        0 < i < old(apps)@.len(),
    ensures
        final(apps)@ == old(apps)@.update(i - 1, old(apps)@[i as int]).update(i as int, old(apps)@[i - 1]),
{
    let item = apps.remove(i);
    apps.insert(i - 1, item);
    assert(apps@ =~= old(apps)@.update(i - 1, old(apps)@[i as int]).update(i as int, old(apps)@[i - 1]));
}

/// Adds a new application when it has a name; says whether it was added.
pub fn add_app(apps: &mut Vec<AppEntry>, new_app: &AppEntry) -> (added: bool)
    ensures
        added == (new_app.name@.len() > 0),
        added ==> entries(final(apps)@) == entries(old(apps)@).push(entry_view(*new_app)),
        !added ==> final(apps)@ == old(apps)@,
{
    if new_app.name.as_str().is_empty() {
        return false;
    }
    let ghost before = apps@;
    let e = AppEntry {
        name: new_app.name.clone(),
        icon: new_app.icon.clone(),
        icon_emoji: new_app.icon_emoji.clone(),
        command: new_app.command.clone(),
        pinned: new_app.pinned,
    };
    apps.push(e);
    assert(entries(apps@) =~= entries(before).push(entry_view(*new_app)));
    true
}

/// What the update script reported, each key when it is a string.
pub struct UpdateReport {
    pub status: Option<String>,
    pub message: Option<String>,
    pub current_version: Option<String>,
    pub available_version: Option<String>,
}

pub open spec fn text_or_empty(o: Option<String>) -> Seq<char> {
    match o {
        Some(s) => s@,
        None => Seq::empty(),
    }
}

/// The text shown for the update script's output: the report, or the raw
/// output when it is not JSON.
pub open spec fn spec_update_display(report: Option<UpdateReport>, raw: Seq<char>) -> Seq<char> {
    match report {
        None => raw,
        Some(r) => {
            let status = text_or_empty(r.status);
            let message = text_or_empty(r.message);
            let cur = text_or_empty(r.current_version);
            let avail = text_or_empty(r.available_version);
            let head = "["@ + status + "] "@ + message;
            if cur.len() > 0 && avail.len() > 0 && cur != avail {
                head + "\n  Corrente: "@ + cur + "  →  Disponibile: "@ + avail
            } else {
                head
            }
        },
    }
}

fn text_of(o: &Option<String>) -> (s: String)
    ensures
        s@ == text_or_empty(*o),
{
    match o {
        Some(s) => s.clone(),
        None => String::new(),
    }
}

/// Formats the update script's output for the settings window.
pub fn update_display(report: &Option<UpdateReport>, raw: &str) -> (d: String)
    ensures
        d@ == spec_update_display(*report, raw@),
{
    match report {
        None => String::from_str(raw),
        Some(r) => {
            let status = text_of(&r.status);
            let message = text_of(&r.message);
            let cur = text_of(&r.current_version);
            let avail = text_of(&r.available_version);
            let head = concat3("[", status.as_str(), "] ").concat(message.as_str());
            if !cur.as_str().is_empty() && !avail.as_str().is_empty() && !same_text(cur.as_str(), avail.as_str()) {
                head.concat("\n  Corrente: ").concat(cur.as_str()).concat("  →  Disponibile: ").concat(avail.as_str())
            } else {
                head
            }
        },
    }
}

/// Colour of the update report.
#[derive(Clone, Copy, Debug, PartialEq, Eq, Structural)]
pub enum UpdateTone {
    Failed,
    Available,
    UpToDate,
}

/// `error` in the text means a failure, else `update_available` an
/// available update, else the system is up to date.
pub fn update_tone(display: &str) -> (t: UpdateTone)
    ensures
        t == (if has_substring(display@, "error"@) {
            UpdateTone::Failed
        } else if has_substring(display@, "update_available"@) {
            UpdateTone::Available
        } else {
            UpdateTone::UpToDate
        }),
{
    let c = chars_of(display);
    let e = chars_of("error");
    let u = chars_of("update_available");
    if contains_chars(c.as_slice(), e.as_slice()) {
        UpdateTone::Failed
    } else if contains_chars(c.as_slice(), u.as_slice()) {
        UpdateTone::Available
    } else {
        UpdateTone::UpToDate
    }
}

/// The script's output: its standard output, or its error output when the
/// former is blank.
pub fn choose_update_output(stdout: &str, stderr: &str) -> (o: String)
    ensures
        o@ == (if trim(stdout@).len() == 0 { stderr@ } else { stdout@ }),
{
    let c = chars_of(stdout);
    let a = skip_ws(c.as_slice(), 0, c.len());
    assert(c@.subrange(0, c@.len() as int) =~= stdout@);
    proof {
        // trimming the end of an empty sequence leaves it empty
        assert(trim(stdout@) == crate::text::trim_end(c@.subrange(a as int, c@.len() as int)));
        if a < c@.len() {
            let t = c@.subrange(a as int, c@.len() as int);
            lemma_trim_end_keeps_non_ws(t);
        }
    }
    if a == c.len() {
        String::from_str(stderr)
    } else {
        String::from_str(stdout)
    }
}

proof fn lemma_trim_end_keeps_non_ws(t: Seq<char>)
    requires
        t.len() > 0,
        !crate::text::is_ws(t[0]),
    ensures
        crate::text::trim_end(t).len() > 0,
    decreases t.len(),
{
    if crate::text::is_ws(t.last()) {
        assert(t.len() > 1);
        assert(t.drop_last()[0] == t[0]);
        lemma_trim_end_keeps_non_ws(t.drop_last());
    }
}

/// The report given when the update script cannot be started.
pub fn update_failure_report(error: &str) -> (r: String)
    ensures
        r@ == "{\"status\":\"error\",\"message\":\"ai-os-update non trovato: "@ + error@
            + "\",\"current_version\":\"\",\"available_version\":\"\"}"@,
{
    concat3(
        "{\"status\":\"error\",\"message\":\"ai-os-update non trovato: ",
        error,
        "\",\"current_version\":\"\",\"available_version\":\"\"}",
    )
}

} // verus!

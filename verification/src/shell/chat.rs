//! The chat bar: what is sent, and how failures are explained to the user.
use vstd::prelude::*;
use crate::shell::theme::{from_rgb, rgb, Rgb};
use crate::text::{chars_of, concat2, contains_chars, has_substring, skip_ws, skip_ws_back, trim};

verus! {

/// First message shown in the chat.
pub fn greeting() -> (g: &'static str)
    ensures
        g@ == "Ciao! Come posso aiutarti?"@,
{
    "Ciao! Come posso aiutarti?"
}

/// The prompt sent for what the user typed: the text trimmed of white
/// space, and nothing when that leaves it empty.
pub fn prompt_to_send(input: &str) -> (p: Option<String>)
    ensures
        trim(input@).len() == 0 ==> p is None,
        trim(input@).len() > 0 ==> (p matches Some(s) && s@ == trim(input@)),
{
    let c = chars_of(input);
    let a = skip_ws(c.as_slice(), 0, c.len());
    let b = skip_ws_back(c.as_slice(), a, c.len());
    assert(c@.subrange(0, c@.len() as int) =~= input@);
    if a == b {
        None
    } else {
        let s = vstd::string::StrSliceExecFns::substring_char(input, a, b);
        Some(String::from_str(s))
    }
}

pub open spec fn mentions(text: Seq<char>, word: &str) -> bool {
    has_substring(text, word@)
}

/// The explanation shown for an error reported by the daemon.
pub open spec fn spec_friendly_error(reason: Seq<char>) -> Seq<char> {
    if mentions(reason, "Connection refused") || mentions(reason, "No such file or directory")
        || mentions(reason, "os error 111") || mentions(reason, "os error 2") {
        "Il daemon non è in esecuzione.\nAvvialo con:  systemctl --user start ai-daemon\noppure esegui direttamente: ai-daemon"@
    } else if mentions(reason, "401") || mentions(reason, "API key") {
        "Chiave API non valida o mancante.\nConfigurala in: Impostazioni → AI & Budget"@
    } else if mentions(reason, "Budget mensile") {
        reason
    } else {
        "Errore: "@ + reason
    }
}

fn has(text: &[char], word: &str) -> (r: bool)
    ensures
        r == has_substring(text@, word@),
{
    let w = chars_of(word);
    contains_chars(text, w.as_slice())
}

/// Explains an error: an unreachable daemon, a bad API key, an exhausted
/// budget (shown as is), or anything else prefixed with `Errore: `.
pub fn friendly_error(reason: &str) -> (m: String)
    ensures
        m@ == spec_friendly_error(reason@),
{
    let c = chars_of(reason);
    let t = c.as_slice();
    if has(t, "Connection refused") || has(t, "No such file or directory") || has(t, "os error 111")
        || has(t, "os error 2") {
        String::from_str(
            "Il daemon non è in esecuzione.\nAvvialo con:  systemctl --user start ai-daemon\noppure esegui direttamente: ai-daemon",
        )
    } else if has(t, "401") || has(t, "API key") {
        String::from_str("Chiave API non valida o mancante.\nConfigurala in: Impostazioni → AI & Budget")
    } else if has(t, "Budget mensile") {
        String::from_str(reason)
    } else {
        concat2("Errore: ", reason)
    }
}

/// How the budget indicator is coloured.
#[derive(Clone, Copy, Debug, PartialEq, Eq, Structural)]
pub enum BudgetTone {
    /// The monthly limit is reached.
    Blocked,
    /// Close to the limit.
    Warning,
    Fine,
}

pub fn budget_tone(blocked: bool, warning: bool) -> (t: BudgetTone)
    ensures
        t == (if blocked { BudgetTone::Blocked } else if warning { BudgetTone::Warning } else { BudgetTone::Fine }),
{
    if blocked {
        BudgetTone::Blocked
    } else if warning {
        BudgetTone::Warning
    } else {
        BudgetTone::Fine
    }
}

/// Colour of the budget indicator for each tone: red when blocked, amber
/// near the limit, green otherwise.
pub fn budget_color(t: BudgetTone) -> (c: Rgb)
    ensures
        c == (match t {
            BudgetTone::Blocked => rgb(224, 108, 117),
            BudgetTone::Warning => rgb(240, 192, 96),
            BudgetTone::Fine => rgb(107, 203, 139),
        }),
{
    match t {
        BudgetTone::Blocked => from_rgb(224, 108, 117),
        BudgetTone::Warning => from_rgb(240, 192, 96),
        BudgetTone::Fine => from_rgb(107, 203, 139),
    }
}

/// A daemon that cannot be reached (its socket refuses connections or does
/// not exist) is explained as a daemon that is not running, with the
/// commands that start it: each of the four ways the failure shows.
pub proof fn lemma_unreachable_daemon_is_explained(reason: Seq<char>)
    ensures
        has_substring(reason, "Connection refused"@) ==> spec_friendly_error(reason) == "Il daemon non è in esecuzione.\nAvvialo con:  systemctl --user start ai-daemon\noppure esegui direttamente: ai-daemon"@,
        has_substring(reason, "No such file or directory"@) ==> spec_friendly_error(reason) == "Il daemon non è in esecuzione.\nAvvialo con:  systemctl --user start ai-daemon\noppure esegui direttamente: ai-daemon"@,
        has_substring(reason, "os error 111"@) ==> spec_friendly_error(reason) == "Il daemon non è in esecuzione.\nAvvialo con:  systemctl --user start ai-daemon\noppure esegui direttamente: ai-daemon"@,
        has_substring(reason, "os error 2"@) ==> spec_friendly_error(reason) == "Il daemon non è in esecuzione.\nAvvialo con:  systemctl --user start ai-daemon\noppure esegui direttamente: ai-daemon"@,
{
}

/// With the daemon reachable, a rejected API key is explained as such, an
/// exhausted budget is shown as it is, and any other failure is shown after
/// `Errore: `.
pub proof fn lemma_other_errors_are_explained(reason: Seq<char>)
    ensures
        !has_substring(reason, "Connection refused"@) && !has_substring(reason, "No such file or directory"@)
            && !has_substring(reason, "os error 111"@) && !has_substring(reason, "os error 2"@) ==> {
            &&& (has_substring(reason, "401"@) || has_substring(reason, "API key"@)) ==> spec_friendly_error(reason)
                == "Chiave API non valida o mancante.\nConfigurala in: Impostazioni → AI & Budget"@
            &&& (!has_substring(reason, "401"@) && !has_substring(reason, "API key"@) && has_substring(reason, "Budget mensile"@))
                ==> spec_friendly_error(reason) == reason
            &&& (!has_substring(reason, "401"@) && !has_substring(reason, "API key"@) && !has_substring(reason, "Budget mensile"@))
                ==> spec_friendly_error(reason) == "Errore: "@ + reason
        },
{
}

} // verus!

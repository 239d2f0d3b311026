//! Decisions of the daemon: which blogs are configured, when the budget
//! counters roll over, and when a question is refused.
use vstd::prelude::*;
use crate::model::Model;
use crate::router::{route, TaskRouter};
use crate::text::{lowercase, utf8_len};
use crate::tools::{GhostConfig, WpConfig};

verus! {

/// `[wordpress]` section of the daemon configuration.
pub struct WordPressConfig {
    pub url: String,
    pub username: String,
    pub app_password: String,
}

/// `[ghost]` section of the daemon configuration.
pub struct GhostCfg {
    pub url: String,
    /// `{id}:{hex_secret}`.
    pub admin_key: String,
}

/// `[update]` section of the daemon configuration.
pub struct UpdateCfg {
    /// Base address that serves `version.txt`, the overlay archive and its checksum.
    pub update_url: Option<String>,
    /// Check for updates at boot.
    pub auto_check: bool,
}

/// Default of `auto_check`.
pub fn default_true() -> (b: bool)
    ensures
        b,
{
    true
}

/// The WordPress credentials handed to the tools: only when a site address
/// is set.
pub fn wordpress_tool_config(w: Option<&WordPressConfig>) -> (r: Option<WpConfig>)
    ensures
        match w {
            Some(c) if c.url@.len() > 0 => r matches Some(t) && t.url@ == c.url@
                && t.username@ == c.username@ && t.app_password@ == c.app_password@,
            _ => r is None,
        },
{
    match w {
        Some(c) => {
            if !c.url.as_str().is_empty() {
                Some(WpConfig {
                    url: c.url.clone(),
                    username: c.username.clone(),
                    app_password: c.app_password.clone(),
                })
            } else {
                None
            }
        },
        None => None,
    }
}

/// The Ghost key handed to the tools: only when both the site address and
/// the admin key are set.
pub fn ghost_tool_config(g: Option<&GhostCfg>) -> (r: Option<GhostConfig>)
    ensures
        match g {
            Some(c) if c.url@.len() > 0 && c.admin_key@.len() > 0 => r matches Some(t)
                && t.url@ == c.url@ && t.admin_key@ == c.admin_key@,
            _ => r is None,
        },
{
    match g {
        Some(c) => {
            if !c.url.as_str().is_empty() && !c.admin_key.as_str().is_empty() {
                Some(GhostConfig { url: c.url.clone(), admin_key: c.admin_key.clone() })
            } else {
                None
            }
        },
        None => None,
    }
}

/// What happens to the spending counters at a given date.
#[derive(Clone, Copy, Debug, PartialEq, Eq, Structural)]
pub enum Rollover {
    /// Same day: nothing is reset.
    Keep,
    /// A new day of the same month: the daily counter is reset.
    NewDay,
    /// A new month: both counters are reset.
    NewMonth,
}

/// The day and month the spending counters refer to.
pub struct BudgetCalendar {
    pub today_day: u32,
    pub today_month: u32,
}

/// The rollover due when the counters of (`day`, `month`) are used on
/// (`now_day`, `now_month`).
pub open spec fn spec_rollover(day: u32, month: u32, now_day: u32, now_month: u32) -> Rollover {
    if now_month != month {
        Rollover::NewMonth
    } else if now_day != day {
        Rollover::NewDay
    } else {
        Rollover::Keep
    }
}

impl BudgetCalendar {
    pub fn new(day: u32, month: u32) -> (c: Self)
        ensures
            c.today_day == day,
            c.today_month == month,
    {
        BudgetCalendar { today_day: day, today_month: month }
    }

    /// Moves the calendar to the current date and says which counters to
    /// reset.
    pub fn roll(&mut self, now_day: u32, now_month: u32) -> (r: Rollover)
        ensures
            r == spec_rollover(old(self).today_day, old(self).today_month, now_day, now_month),
            final(self).today_day == now_day,
            final(self).today_month == now_month,
    {
        if now_month != self.today_month {
            self.today_month = now_month;
            self.today_day = now_day;
            Rollover::NewMonth
        } else if now_day != self.today_day {
            self.today_day = now_day;
            Rollover::NewDay
        } else {
            Rollover::Keep
        }
    }
}

/// Rolling over twice on the same date resets nothing the second time.
pub proof fn lemma_rollover_settles(day: u32, month: u32, now_day: u32, now_month: u32)
    ensures
        spec_rollover(now_day, now_month, now_day, now_month) == Rollover::Keep,
{
}

/// Why a question is refused before it reaches the model, if it is.
pub fn refusal(blocked: bool) -> (r: Option<&'static str>)
    ensures
        blocked ==> (r matches Some(m) && m@ == "Budget mensile esaurito. Aggiorna il limite in Impostazioni."@),
        !blocked ==> r is None,
{
    if blocked {
        Some("Budget mensile esaurito. Aggiorna il limite in Impostazioni.")
    } else {
        None
    }
}

/// A message from the shell, as far as the daemon's decisions go.
pub enum ClientRequest {
    /// A question; its prompt.
    Ask { prompt: String },
    GetBudget,
    Ping,
}

/// The daemon's first step on a message.
pub enum Dispatch {
    /// Answer `Pong`.
    Pong,
    /// Report the budget status.
    Budget,
    /// Refuse the question with this reason.
    Refuse(&'static str),
    /// Answer the question with this model.
    Answer(Model),
}

/// Decides how to handle a message: pings and budget requests are answered
/// at once; a question is refused while the budget is blocked, and is
/// otherwise routed to a model.
pub fn dispatch(router: &TaskRouter, req: &ClientRequest, blocked: bool) -> (d: Dispatch)
    ensures
        match req {
            ClientRequest::Ping => d is Pong,
            ClientRequest::GetBudget => d is Budget,
            ClientRequest::Ask { prompt } => if blocked {
                d matches Dispatch::Refuse(m) && m@ == "Budget mensile esaurito. Aggiorna il limite in Impostazioni."@
            } else {
                d matches Dispatch::Answer(m) && m == route(lowercase(prompt@), prompt@.len() as int, utf8_len(prompt@) as int)
            },
        },
{
    match req {
        ClientRequest::Ping => Dispatch::Pong,
        ClientRequest::GetBudget => Dispatch::Budget,
        ClientRequest::Ask { prompt } => match refusal(blocked) {
            Some(reason) => Dispatch::Refuse(reason),
            None => Dispatch::Answer(router.classify(prompt.as_str())),
        },
    }
}

/// How a routed question ended: the answer's usage and text, or why it
/// failed.
pub enum Answered {
    Reply { tokens_in: u32, tokens_out: u32, text: String },
    Failure(String),
}

/// What the daemon does once a question has ended: the usage to charge to
/// the budget, the answer to remember with the prompt, and the error to
/// send back instead of an answer.
pub struct AfterAnswer {
    pub spend: Option<(u32, u32)>,
    pub remember: Option<String>,
    pub error: Option<String>,
}

/// An answer is charged and remembered; a failure is reported, and neither
/// the budget nor the memory changes.
pub fn after_answer(a: Answered) -> (r: AfterAnswer)
    ensures
        match a {
            Answered::Reply { tokens_in, tokens_out, text } => r.spend == Some((tokens_in, tokens_out))
                && (r.remember matches Some(t) && t@ == text@) && r.error is None,
            Answered::Failure(e) => r.spend is None && r.remember is None
                && (r.error matches Some(m) && m@ == e@),
        },
{
    match a {
        Answered::Reply { tokens_in, tokens_out, text } => AfterAnswer {
            spend: Some((tokens_in, tokens_out)),
            remember: Some(text),
            error: None,
        },
        Answered::Failure(e) => AfterAnswer { spend: None, remember: None, error: Some(e) },
    }
}

} // verus!

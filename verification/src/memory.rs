//! Session memory and the context handed to the model's system prompt.
use vstd::prelude::*;
use crate::text::{concat2, join, join_strings, truncate_chars, truncate_string, views};

verus! {

/// How many recent actions a session keeps.
pub const SESSION_CAPACITY: usize = 10;

/// How many characters of a prompt a session keeps.
pub const ACTION_CHARS: usize = 80;

/// Volatile memory of the current session: the most recent prompts.
pub struct Session {
    pub recent_actions: Vec<String>,
}

/// The list of actions after recording `action` into `actions`: the oldest
/// is dropped when the list is full, and the action is cut to its first
/// characters.
pub open spec fn after_add(actions: Seq<Seq<char>>, action: Seq<char>) -> Seq<Seq<char>> {
    let kept = if actions.len() >= SESSION_CAPACITY {
        actions.drop_first()
    } else {
        actions
    };
    kept.push(truncate_chars(action, ACTION_CHARS as nat))
}

impl Session {
    /// At most `SESSION_CAPACITY` actions are held.
    pub open spec fn wf(&self) -> bool {
        self.recent_actions@.len() <= SESSION_CAPACITY
    }

    /// The recorded actions, oldest first.
    pub open spec fn actions(&self) -> Seq<Seq<char>> {
        views(self.recent_actions@)
    }

    pub fn new() -> (s: Self)
        ensures
            s.actions() == Seq::<Seq<char>>::empty(),
            s.wf(),
    {
        Session { recent_actions: Vec::new() }
    }

    /// Records an action, keeping only the most recent ones.
    pub fn add(&mut self, action: &str)
        ensures
            final(self).actions() == after_add(old(self).actions(), action@),
            old(self).wf() ==> final(self).wf(),
    {
        let ghost before = self.actions();
        if self.recent_actions.len() >= SESSION_CAPACITY {
            self.recent_actions.remove(0);
            assert(self.actions() =~= before.drop_first());
        }
        let ghost kept = self.actions();
        let cut = truncate_string(action, ACTION_CHARS);
        self.recent_actions.push(cut);
        assert(self.actions() =~= kept.push(truncate_chars(action@, ACTION_CHARS as nat)));
    }
}

/// What the user told us about themselves.
pub struct UserProfile {
    pub writing_style: String,
    pub blog_platform: String,
}

/// Lines describing the profile and the session, in the order they appear
/// in the context.
pub open spec fn context_parts(writing_style: Seq<char>, blog_platform: Seq<char>, actions: Seq<Seq<char>>) -> Seq<Seq<char>> {
    let p1 = if writing_style.len() > 0 {
        seq!["Stile di scrittura: "@ + writing_style]
    } else {
        Seq::empty()
    };
    let p2 = if blog_platform.len() > 0 {
        seq!["Piattaforma blog: "@ + blog_platform]
    } else {
        Seq::empty()
    };
    let p3 = if actions.len() > 0 {
        seq!["Azioni recenti in sessione: "@ + join(actions, ", "@)]
    } else {
        Seq::empty()
    };
    p1 + p2 + p3
}

/// The context for the system prompt: `None` when there is nothing to say,
/// otherwise the parts joined by new lines.
pub open spec fn context_of(writing_style: Seq<char>, blog_platform: Seq<char>, actions: Seq<Seq<char>>) -> Option<Seq<char>> {
    let parts = context_parts(writing_style, blog_platform, actions);
    if parts.len() == 0 {
        None
    } else {
        Some(join(parts, "\n"@))
    }
}

/// Session and profile memory of the assistant.
pub struct Memory {
    session: Session,
    profile: UserProfile,
}

impl Memory {
    pub closed spec fn session_actions(&self) -> Seq<Seq<char>> {
        self.session.actions()
    }

    pub closed spec fn writing_style(&self) -> Seq<char> {
        self.profile.writing_style@
    }

    pub closed spec fn blog_platform(&self) -> Seq<char> {
        self.profile.blog_platform@
    }

    /// A memory with an empty session and the given stored profile.
    pub fn with_profile(profile: UserProfile) -> (m: Self)
        ensures
            m.session_actions() == Seq::<Seq<char>>::empty(),
            m.writing_style() == profile.writing_style@,
            m.blog_platform() == profile.blog_platform@,
    {
        Memory { session: Session::new(), profile }
    }

    /// Builds the context relevant to the system prompt.
    pub fn relevant_context(&self, _prompt: &str) -> (ctx: Option<String>)
        ensures
            ctx.is_none() == context_of(self.writing_style(), self.blog_platform(), self.session_actions()).is_none(),
            ctx matches Some(c) ==> Some(c@) == context_of(self.writing_style(), self.blog_platform(), self.session_actions()),
    {
        let mut parts: Vec<String> = Vec::new();
        if self.profile.writing_style.as_str().unicode_len() > 0 {
            parts.push(concat2("Stile di scrittura: ", self.profile.writing_style.as_str()));
        }
        if self.profile.blog_platform.as_str().unicode_len() > 0 {
            parts.push(concat2("Piattaforma blog: ", self.profile.blog_platform.as_str()));
        }
        if self.session.recent_actions.len() > 0 {
            let recent = join_strings(&self.session.recent_actions, ", ");
            parts.push(concat2("Azioni recenti in sessione: ", recent.as_str()));
        }
        assert(views(parts@) =~= context_parts(self.writing_style(), self.blog_platform(), self.session_actions()));
        if parts.len() == 0 {
            None
        } else {
            Some(join_strings(&parts, "\n"))
        }
    }

    /// Records a prompt in the session memory.
    pub fn record_interaction(&mut self, prompt: &str)
        ensures
            final(self).session_actions() == after_add(old(self).session_actions(), prompt@),
            final(self).writing_style() == old(self).writing_style(),
            final(self).blog_platform() == old(self).blog_platform(),
    {
        self.session.add(prompt);
    }
}

/// The context is absent exactly when the profile and the session are
/// all empty.
pub proof fn lemma_context_absent_iff_nothing_known(writing_style: Seq<char>, blog_platform: Seq<char>, actions: Seq<Seq<char>>)
    ensures
        context_of(writing_style, blog_platform, actions) is None
            <==> (writing_style.len() == 0 && blog_platform.len() == 0 && actions.len() == 0),
{
}

/// However many actions are recorded, a session holds at most its
/// capacity, and the last one recorded is the newest action cut short.
pub proof fn lemma_session_bounded(actions: Seq<Seq<char>>, action: Seq<char>)
    requires
        actions.len() <= SESSION_CAPACITY,
    ensures
        after_add(actions, action).len() <= SESSION_CAPACITY,
        after_add(actions, action).last() == truncate_chars(action, ACTION_CHARS as nat),
        truncate_chars(action, ACTION_CHARS as nat).len() <= ACTION_CHARS,
{
}

/// The action a session records is the beginning of the prompt: its first
/// 80 characters, or the whole prompt when it is shorter; the actions
/// recorded before stay, oldest first, except the oldest when the session
/// was full.
pub proof fn lemma_recorded_action_is_the_prompt_start(actions: Seq<Seq<char>>, action: Seq<char>)
    ensures
        after_add(actions, action).last().len() == (if action.len() <= 80 { action.len() } else { 80 }),
        forall|i: int| 0 <= i < after_add(actions, action).last().len() ==> #[trigger] after_add(actions, action).last()[i] == action[i],
        after_add(actions, action).drop_last() == (if actions.len() >= 10 { actions.subrange(1, actions.len() as int) } else { actions }),
{
    let r = after_add(actions, action);
    if actions.len() >= 10 {
        assert(r.drop_last() =~= actions.subrange(1, actions.len() as int));
    } else {
        assert(r.drop_last() =~= actions);
    }
}

} // verus!

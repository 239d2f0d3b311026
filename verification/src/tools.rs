//! Planning of the tools that the model may call: which tool, with which
//! arguments, against which configured blog.
use vstd::prelude::*;
use crate::blog::{
    parse_admin_key, strip_trailing, Article, ArticleStatus, GhostKeyError, GhostPublisher,
    WordPressPublisher,
};
use crate::text::{concat2, same_text, views};

verus! {

/// WordPress site credentials.
#[derive(Clone)]
pub struct WpConfig {
    pub url: String,
    pub username: String,
    pub app_password: String,
}

/// Ghost site and Admin API key (`{id}:{hex_secret}`).
#[derive(Clone)]
pub struct GhostConfig {
    pub url: String,
    pub admin_key: String,
}

/// What a tool reads of the JSON object it is called with: each key as a
/// string when its value is one, and each list as its elements, each a
/// string or not.
pub struct ToolInput {
    /// The `exec` key.
    pub program: Option<String>,
    pub args: Option<Vec<Option<String>>>,
    pub url: Option<String>,
    pub path: Option<String>,
    pub content: Option<String>,
    pub command: Option<String>,
    pub title: Option<String>,
    pub body: Option<String>,
    pub status: Option<String>,
    pub platform: Option<String>,
    pub tags: Option<Vec<Option<String>>>,
    pub action: Option<String>,
}

/// The blog that a blog tool works on.
pub enum BlogTarget {
    GhostBlog(GhostPublisher),
    WordPressBlog(WordPressPublisher),
}

/// A tool call, checked and ready to be carried out.
pub enum ToolCall {
    LaunchApp { program: String, args: Vec<String> },
    OpenUrl { url: String },
    WriteFile { path: String, content: String },
    ReadFile { path: String },
    RunShell { command: String },
    Notify { title: String, body: String },
    PublishBlog { article: Article, publish: bool, status: String, platform: String, target: BlogTarget },
    ListDrafts { platform: String, target: BlogTarget },
    UpdateSystem { flag: &'static str },
}

/// Why a tool call is refused.
pub enum ToolError {
    /// A required argument is absent or not a string.
    MissingArgument(&'static str),
    UnknownTool(String),
    /// The blog platform asked for has no configuration.
    NotConfigured(&'static str),
    /// The Ghost admin key is malformed.
    GhostKey(GhostKeyError),
}

impl ToolError {
    /// The message reported back to the model.
    pub fn message(&self) -> (m: String)
        ensures
            m@ == spec_error_message(*self),
    {
        match self {
            ToolError::MissingArgument(what) => String::from_str(what),
            ToolError::UnknownTool(name) => concat2("Tool sconosciuto: ", name.as_str()),
            ToolError::NotConfigured(what) => String::from_str(what),
            ToolError::GhostKey(e) => String::from_str(e.message()),
        }
    }
}

pub open spec fn ghost_key_message(e: GhostKeyError) -> Seq<char> {
    match e {
        GhostKeyError::MissingSeparator => "Ghost admin_key deve avere il formato 'id:hex_secret'"@,
        GhostKeyError::InvalidSecret => "Ghost admin_key: la parte secret non è hex valido"@,
    }
}

pub open spec fn spec_error_message(e: ToolError) -> Seq<char> {
    match e {
        ToolError::MissingArgument(what) => what@,
        ToolError::UnknownTool(name) => "Tool sconosciuto: "@ + name@,
        ToolError::NotConfigured(what) => what@,
        ToolError::GhostKey(k) => ghost_key_message(k),
    }
}

/// The string elements of a list, in order.
pub open spec fn present_strings(s: Seq<Option<String>>) -> Seq<Seq<char>>
    decreases s.len(),
{
    if s.len() == 0 {
        Seq::empty()
    } else {
        let rest = present_strings(s.drop_last());
        match s.last() {
            Some(x) => rest.push(x@),
            None => rest,
        }
    }
}

/// The string elements of an optional list (none when it is absent).
pub open spec fn listed_strings(o: Option<Vec<Option<String>>>) -> Seq<Seq<char>> {
    match o {
        Some(v) => present_strings(v@),
        None => Seq::empty(),
    }
}

/// The string of an optional argument, or a default.
pub open spec fn text_or(o: Option<String>, d: Seq<char>) -> Seq<char> {
    match o {
        Some(s) => s@,
        None => d,
    }
}

/// The flag given to the update script for an `update_system` action.
pub open spec fn spec_update_flag(action: Seq<char>) -> Seq<char> {
    if action == "apply"@ {
        "--apply"@
    } else if action == "apply-packages"@ {
        "--apply-packages"@
    } else {
        "--check"@
    }
}

/// Names of the tools that `plan` knows.
pub open spec fn known_tools() -> Seq<Seq<char>> {
    seq![
        "launch_app"@, "open_url"@, "write_file"@, "read_file"@, "run_shell"@,
        "notify"@, "publish_blog"@, "list_drafts"@, "update_system"@,
    ]
}

/// The publisher configured for a blog platform, as `plan` selects it:
/// `"ghost"` means Ghost, anything else WordPress.
pub open spec fn target_ok(
    engine: &ToolEngine,
    platform: Seq<char>,
    t: BlogTarget,
) -> bool {
    if platform == "ghost"@ {
        &&& engine.ghost_config matches Some(g)
        &&& t matches BlogTarget::GhostBlog(p)
        &&& parse_admin_key(g.admin_key@) matches Ok((id, secret))
        &&& p.key_id() == id && p.secret() == secret
        &&& p.base_url() == strip_trailing(g.url@, '/')
    } else {
        &&& engine.wp_config matches Some(w)
        &&& t matches BlogTarget::WordPressBlog(p)
        &&& p.base_url() == strip_trailing(w.url@, '/')
        &&& p.username() == w.username@
        &&& p.app_password() == w.app_password@
    }
}

/// Runs the tools that the model asks for.
pub struct ToolEngine {
    pub wp_config: Option<WpConfig>,
    pub ghost_config: Option<GhostConfig>,
}

/// The outcome of selecting the blog for `platform`: `Ok` exactly when it
/// is configured (and, for Ghost, its key is well formed), with the error
/// message for a missing configuration given by `unconfigured_ghost` and
/// `unconfigured_wp`.
pub open spec fn target_spec(
    engine: &ToolEngine,
    platform: Seq<char>,
    unconfigured_ghost: Seq<char>,
    unconfigured_wp: Seq<char>,
    r: Result<BlogTarget, ToolError>,
) -> bool {
    if platform == "ghost"@ {
        match engine.ghost_config {
            None => r matches Err(ToolError::NotConfigured(m)) && m@ == unconfigured_ghost,
            Some(g) => match parse_admin_key(g.admin_key@) {
                Err(k) => r matches Err(ToolError::GhostKey(e)) && e == k,
                Ok(_) => r matches Ok(t) && target_ok(engine, platform, t),
            },
        }
    } else {
        match engine.wp_config {
            None => r matches Err(ToolError::NotConfigured(m)) && m@ == unconfigured_wp,
            Some(_) => r matches Ok(t) && target_ok(engine, platform, t),
        }
    }
}

/// The meaning of `plan`: for each known tool, the call it yields or the
/// error it gives.
pub open spec fn plan_spec(engine: &ToolEngine, name: Seq<char>, input: ToolInput, r: Result<ToolCall, ToolError>) -> bool {
    if name == "launch_app"@ {
        match input.program {
            None => r matches Err(ToolError::MissingArgument(m)) && m@ == "exec mancante"@,
            Some(p) => r matches Ok(ToolCall::LaunchApp { program, args })
                && program@ == p@ && views(args@) == listed_strings(input.args),
        }
    } else if name == "open_url"@ {
        match input.url {
            None => r matches Err(ToolError::MissingArgument(m)) && m@ == "url mancante"@,
            Some(u) => r matches Ok(ToolCall::OpenUrl { url }) && url@ == u@,
        }
    } else if name == "write_file"@ {
        match input.path {
            None => r matches Err(ToolError::MissingArgument(m)) && m@ == "path mancante"@,
            Some(p) => r matches Ok(ToolCall::WriteFile { path, content })
                && path@ == p@ && content@ == text_or(input.content, ""@),
        }
    } else if name == "read_file"@ {
        match input.path {
            None => r matches Err(ToolError::MissingArgument(m)) && m@ == "path mancante"@,
            Some(p) => r matches Ok(ToolCall::ReadFile { path }) && path@ == p@,
        }
    } else if name == "run_shell"@ {
        match input.command {
            None => r matches Err(ToolError::MissingArgument(m)) && m@ == "command mancante"@,
            Some(c) => r matches Ok(ToolCall::RunShell { command }) && command@ == c@,
        }
    } else if name == "notify"@ {
        r matches Ok(ToolCall::Notify { title, body })
            && title@ == text_or(input.title, "AI-OS"@) && body@ == text_or(input.body, ""@)
    } else if name == "publish_blog"@ {
        let platform_name = text_or(input.platform, "wordpress"@);
        let status_name = text_or(input.status, "draft"@);
        match r {
            Ok(ToolCall::PublishBlog { article, publish, status, platform, target }) => {
                &&& target_ok(engine, platform_name, target)
                &&& article.title@ == text_or(input.title, "Senza titolo"@)
                &&& article.content@ == text_or(input.content, ""@)
                &&& views(article.tags@) == listed_strings(input.tags)
                &&& article.status == (if status_name == "publish"@ { ArticleStatus::Published } else { ArticleStatus::Draft })
                &&& publish == (status_name == "publish"@)
                &&& status@ == status_name
                &&& platform@ == platform_name
            },
            Ok(_) => false,
            Err(e) => target_spec(
                engine, platform_name,
                "Ghost non configurato in ~/.config/ai-os/config.toml"@,
                "WordPress non configurato in ~/.config/ai-os/config.toml"@,
                Err(e),
            ),
        }
    } else if name == "list_drafts"@ {
        let platform_name = text_or(input.platform, "wordpress"@);
        match r {
            Ok(ToolCall::ListDrafts { platform, target }) => {
                &&& target_ok(engine, platform_name, target)
                &&& platform@ == platform_name
            },
            Ok(_) => false,
            Err(e) => target_spec(engine, platform_name, "Ghost non configurato"@, "WordPress non configurato"@, Err(e)),
        }
    } else if name == "update_system"@ {
        r matches Ok(ToolCall::UpdateSystem { flag })
            && flag@ == spec_update_flag(text_or(input.action, "check"@))
    } else {
        r matches Err(ToolError::UnknownTool(n)) && n@ == name
    }
}

fn text_or_default(o: &Option<String>, d: &str) -> (r: String)
    ensures
        r@ == text_or(*o, d@),
{
    match o {
        Some(s) => s.clone(),
        None => String::from_str(d),
    }
}

fn strings_of(o: &Option<Vec<Option<String>>>) -> (r: Vec<String>)
    ensures
        views(r@) == listed_strings(*o),
{
    let mut r: Vec<String> = Vec::new();
    match o {
        None => {
            assert(views(r@) =~= Seq::<Seq<char>>::empty());
        },
        Some(v) => {
            let mut i: usize = 0;
            while i < v.len()
                invariant
                    i <= v@.len(),
                    views(r@) == present_strings(v@.subrange(0, i as int)),
                decreases v@.len() - i,
            {
                assert(v@.subrange(0, i + 1).drop_last() =~= v@.subrange(0, i as int));
                match &v[i] {
                    Some(s) => {
                        r.push(s.clone());
                        assert(views(r@) =~= present_strings(v@.subrange(0, i as int)).push(s@));
                    },
                    None => {},
                }
                i = i + 1;
            }
            assert(v@.subrange(0, v@.len() as int) =~= v@);
        },
    }
    r
}

/// The flag given to the update script for an `update_system` action.
pub fn update_flag(action: &str) -> (f: &'static str)
    ensures
        f@ == spec_update_flag(action@),
{
    if same_text(action, "apply") {
        "--apply"
    } else if same_text(action, "apply-packages") {
        "--apply-packages"
    } else {
        "--check"
    }
}

/// Whether `serde_json` parses the text as a JSON value.
pub uninterp spec fn json_text(s: Seq<char>) -> bool;

/// Calls `serde_json::from_str` for a `serde_json::Value` and tells whether
/// it succeeded.
#[verifier::external_body]
fn is_json(s: &str) -> (r: bool)
    ensures
        r == json_text(s@),
{
    serde_json::from_str::<serde_json::Value>(s).is_ok()
}

/// What the `update_system` tool answers once the update script has run.
pub enum UpdateOutcome {
    /// The script's standard output is JSON: it is the answer as it is.
    Report,
    /// Otherwise: a status by the exit code and both outputs as the message.
    Fallback { status: &'static str, message: String },
}

/// The answer of the `update_system` tool from the script's exit status and
/// outputs: its standard output when that is JSON; otherwise `ok` or
/// `error` by the exit status, with the standard output followed by the
/// error output as the message.
pub fn update_outcome(success: bool, stdout: &str, stderr: &str) -> (o: UpdateOutcome)
    ensures
        json_text(stdout@) ==> o is Report,
        !json_text(stdout@) ==> (o matches UpdateOutcome::Fallback { status, message }
            && status@ == (if success { "ok"@ } else { "error"@ })
            && message@ == stdout@ + stderr@),
{
    if is_json(stdout) {
        UpdateOutcome::Report
    } else {
        UpdateOutcome::Fallback { status: if success { "ok" } else { "error" }, message: concat2(stdout, stderr) }
    }
}

impl ToolEngine {
    pub fn new(wp_config: Option<WpConfig>, ghost_config: Option<GhostConfig>) -> (e: Self)
        ensures
            e.wp_config == wp_config,
            e.ghost_config == ghost_config,
    {
        ToolEngine { wp_config, ghost_config }
    }

    /// The publisher for a blog platform: `"ghost"` selects Ghost, anything
    /// else WordPress; an unconfigured platform is refused with the message
    /// given for it.
    pub fn blog_target(&self, platform: &str, unconfigured_ghost: &'static str, unconfigured_wp: &'static str) -> (r: Result<BlogTarget, ToolError>)
        ensures
            target_spec(self, platform@, unconfigured_ghost@, unconfigured_wp@, r),
    {
        if same_text(platform, "ghost") {
            match &self.ghost_config {
                None => Err(ToolError::NotConfigured(unconfigured_ghost)),
                Some(g) => match GhostPublisher::new(g.url.as_str(), g.admin_key.as_str()) {
                    Ok(p) => Ok(BlogTarget::GhostBlog(p)),
                    Err(e) => Err(ToolError::GhostKey(e)),
                },
            }
        } else {
            match &self.wp_config {
                None => Err(ToolError::NotConfigured(unconfigured_wp)),
                Some(w) => Ok(BlogTarget::WordPressBlog(
                    WordPressPublisher::new(w.url.as_str(), w.username.as_str(), w.app_password.as_str()),
                )),
            }
        }
    }

    /// Checks a tool call by name and input, and prepares it.
    pub fn plan(&self, name: &str, input: &ToolInput) -> (r: Result<ToolCall, ToolError>)
        ensures
            plan_spec(self, name@, *input, r),
    {
        if same_text(name, "launch_app") {
            match &input.program {
                None => Err(ToolError::MissingArgument("exec mancante")),
                Some(p) => Ok(ToolCall::LaunchApp { program: p.clone(), args: strings_of(&input.args) }),
            }
        } else if same_text(name, "open_url") {
            match &input.url {
                None => Err(ToolError::MissingArgument("url mancante")),
                Some(u) => Ok(ToolCall::OpenUrl { url: u.clone() }),
            }
        } else if same_text(name, "write_file") {
            match &input.path {
                None => Err(ToolError::MissingArgument("path mancante")),
                Some(p) => Ok(ToolCall::WriteFile { path: p.clone(), content: text_or_default(&input.content, "") }),
            }
        } else if same_text(name, "read_file") {
            match &input.path {
                None => Err(ToolError::MissingArgument("path mancante")),
                Some(p) => Ok(ToolCall::ReadFile { path: p.clone() }),
            }
        } else if same_text(name, "run_shell") {
            match &input.command {
                None => Err(ToolError::MissingArgument("command mancante")),
                Some(c) => Ok(ToolCall::RunShell { command: c.clone() }),
            }
        } else if same_text(name, "notify") {
            Ok(ToolCall::Notify {
                title: text_or_default(&input.title, "AI-OS"),
                body: text_or_default(&input.body, ""),
            })
        } else if same_text(name, "publish_blog") {
            let title = text_or_default(&input.title, "Senza titolo");
            let content = text_or_default(&input.content, "");
            let status = text_or_default(&input.status, "draft");
            let platform = text_or_default(&input.platform, "wordpress");
            let tags = strings_of(&input.tags);
            let publish = same_text(status.as_str(), "publish");
            let article = Article {
                title,
                content,
                tags,
                status: if publish { ArticleStatus::Published } else { ArticleStatus::Draft },
            };
            match self.blog_target(
                platform.as_str(),
                "Ghost non configurato in ~/.config/ai-os/config.toml",
                "WordPress non configurato in ~/.config/ai-os/config.toml",
            ) {
                Ok(target) => Ok(ToolCall::PublishBlog { article, publish, status, platform, target }),
                Err(e) => Err(e),
            }
        } else if same_text(name, "list_drafts") {
            let platform = text_or_default(&input.platform, "wordpress");
            match self.blog_target(platform.as_str(), "Ghost non configurato", "WordPress non configurato") {
                Ok(target) => Ok(ToolCall::ListDrafts { platform, target }),
                Err(e) => Err(e),
            }
        } else if same_text(name, "update_system") {
            let action = text_or_default(&input.action, "check");
            Ok(ToolCall::UpdateSystem { flag: update_flag(action.as_str()) })
        } else {
            Err(ToolError::UnknownTool(String::from_str(name)))
        }
    }
}

/// `read_file` only reads: with a path it yields a read of exactly that
/// path, and without one it is refused.
pub proof fn lemma_read_file_only_reads(engine: &ToolEngine, input: ToolInput, r: Result<ToolCall, ToolError>)
    requires
        plan_spec(engine, "read_file"@, input, r),
    ensures
        match input.path {
            Some(p) => r matches Ok(ToolCall::ReadFile { path }) && path@ == p@,
            None => r matches Err(ToolError::MissingArgument(_)),
        },
{
    reveal_strlit("read_file");
    reveal_strlit("launch_app");
    reveal_strlit("open_url");
    reveal_strlit("write_file");
    assert("read_file"@.len() == 9 && "launch_app"@.len() == 10 && "open_url"@.len() == 8);
    assert("read_file"@[0] != "write_file"@[0]);
}

/// `write_file` with a path writes exactly that path, with the content
/// given (nothing when none is given).
pub proof fn lemma_write_file_writes_the_given_content(engine: &ToolEngine, input: ToolInput, r: Result<ToolCall, ToolError>)
    requires
        plan_spec(engine, "write_file"@, input, r),
    ensures
        match input.path {
            Some(p) => r matches Ok(ToolCall::WriteFile { path, content }) && path@ == p@
                && content@ == (match input.content { Some(c) => c@, None => Seq::<char>::empty() }),
            None => r matches Err(ToolError::MissingArgument(_)),
        },
{
    reveal_strlit("write_file");
    reveal_strlit("launch_app");
    reveal_strlit("open_url");
    reveal_strlit("");
    assert("write_file"@[0] != "launch_app"@[0]);
    assert("write_file"@.len() == 10 && "open_url"@.len() == 8);
}

/// Every call that the planner yields is the one of the tool asked for: no
/// other tool yields a launch, a file write or read, a shell command, a
/// notification, a blog request or an update.
pub proof fn lemma_calls_match_their_tool(engine: &ToolEngine, name: Seq<char>, input: ToolInput, r: Result<ToolCall, ToolError>)
    requires
        plan_spec(engine, name, input, r),
    ensures
        r matches Ok(ToolCall::LaunchApp { .. }) ==> name == "launch_app"@,
        r matches Ok(ToolCall::OpenUrl { .. }) ==> name == "open_url"@,
        r matches Ok(ToolCall::WriteFile { .. }) ==> name == "write_file"@,
        r matches Ok(ToolCall::ReadFile { .. }) ==> name == "read_file"@,
        r matches Ok(ToolCall::RunShell { .. }) ==> name == "run_shell"@,
        r matches Ok(ToolCall::Notify { .. }) ==> name == "notify"@,
        r matches Ok(ToolCall::PublishBlog { .. }) ==> name == "publish_blog"@,
        r matches Ok(ToolCall::ListDrafts { .. }) ==> name == "list_drafts"@,
        r matches Ok(ToolCall::UpdateSystem { .. }) ==> name == "update_system"@,
{
}

} // verus!

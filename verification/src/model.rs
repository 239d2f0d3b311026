//! Shared vocabulary: the language models, task kinds and shell actions.
use vstd::prelude::*;

verus! {

/// The language model that serves a request.
#[derive(Clone, Debug, PartialEq, Eq, Structural)]
pub enum Model {
    /// Fast, cheap answers.
    Haiku,
    /// Writing, analysis and code.
    Sonnet,
    /// Deep reasoning and long plans.
    Opus,
}

impl Model {
    /// Output token limit used for this model, sized to its kind of task.
    pub fn max_tokens(&self) -> (n: u32)
        ensures
            n == spec_max_tokens(*self),
    {
        match self {
            Model::Haiku => 512,
            Model::Sonnet => 4096,
            Model::Opus => 8192,
        }
    }

    /// Human-readable model name.
    pub fn display_name(&self) -> (name: &'static str)
        ensures
            *self == Model::Haiku ==> name@ == "Haiku"@,
            *self == Model::Sonnet ==> name@ == "Sonnet"@,
            *self == Model::Opus ==> name@ == "Opus"@,
    {
        match self {
            Model::Haiku => "Haiku",
            Model::Sonnet => "Sonnet",
            Model::Opus => "Opus",
        }
    }
}

/// Output token limit of each model.
pub open spec fn spec_max_tokens(m: Model) -> u32 {
    match m {
        Model::Haiku => 512,
        Model::Sonnet => 4096,
        Model::Opus => 8192,
    }
}

/// Category of a task.
#[derive(Clone, Debug, PartialEq, Eq, Structural)]
pub enum TaskKind {
    /// Simple commands: open an app, quick facts.
    Simple,
    /// Searches, summaries, medium tasks.
    Medium,
    /// Articles, reviews, complex analysis.
    Writing,
}

/// Something the daemon asks the shell to do.
#[derive(Clone, Debug)]
pub enum Action {
    LaunchApp { command: String, args: Vec<String> },
    OpenFile { path: String },
    OpenUrl { url: String },
    Notify { title: String, body: String },
    ShowBudget,
    OpenSettings,
}

} // verus!

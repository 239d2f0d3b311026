//! The conversation with the model: the system prompt, and the decisions
//! taken on each reply while the model calls tools.
use vstd::prelude::*;
use crate::text::{concat2, has_substring, join, join_strings, same_text, views};

verus! {

/// Requests after which a conversation with tool calls is abandoned.
pub const MAX_TOOL_ITERATIONS: u8 = 10;

/// Description of the platform the assistant runs on.
pub open spec fn platform_text(on_macos: bool) -> Seq<char> {
    if on_macos {
        "macOS (sviluppo). Per aprire app usa launch_app con exec='open' e args=['-a','NomeApp']. Per aprire URL usa open_url. Esempi: Safari → exec='open', args=['-a','Safari']; Firefox → exec='open', args=['-a','Firefox']."@
    } else {
        "Linux / Raspberry Pi 4. Browser predefinito: chromium-browser."@
    }
}

/// The system prompt: who the assistant is, the platform, and the user's
/// context when there is one.
pub open spec fn system_prompt(ctx: Option<Seq<char>>, on_macos: bool) -> Seq<char> {
    let base = "Sei l'assistente AI integrato in AI-OS. Sistema attuale: "@ + platform_text(on_macos)
        + " Puoi aprire applicazioni, gestire file, navigare sul web, eseguire comandi shell e scrivere articoli per il blog. Quando l'utente ti chiede di fare qualcosa sul sistema, usa i tool disponibili — non limitarti a descrivere cosa fare, fallo direttamente. Rispondi sempre in italiano. Sii conciso e pratico."@;
    match ctx {
        Some(c) => base + "\n\nCONTESTO UTENTE:\n"@ + c,
        None => base,
    }
}

/// Builds the system prompt; `on_macos` tells which platform the build
/// targets.
pub fn build_system_prompt(ctx: Option<&str>, on_macos: bool) -> (s: String)
    ensures
        s@ == system_prompt(
            match ctx {
                Some(c) => Some(c@),
                None => None,
            },
            on_macos,
        ),
{
    let platform = if on_macos {
        "macOS (sviluppo). Per aprire app usa launch_app con exec='open' e args=['-a','NomeApp']. Per aprire URL usa open_url. Esempi: Safari → exec='open', args=['-a','Safari']; Firefox → exec='open', args=['-a','Firefox']."
    } else {
        "Linux / Raspberry Pi 4. Browser predefinito: chromium-browser."
    };
    let s = concat2("Sei l'assistente AI integrato in AI-OS. Sistema attuale: ", platform);
    let mut s = s.concat(
        " Puoi aprire applicazioni, gestire file, navigare sul web, eseguire comandi shell e scrivere articoli per il blog. Quando l'utente ti chiede di fare qualcosa sul sistema, usa i tool disponibili — non limitarti a descrivere cosa fare, fallo direttamente. Rispondi sempre in italiano. Sii conciso e pratico.",
    );
    if let Some(c) = ctx {
        s.append("\n\nCONTESTO UTENTE:\n");
        s.append(c);
    }
    s
}

/// The user's context, when there is one, is appended to the base prompt
/// under its own heading; the base prompt asks for answers in Italian.
pub proof fn lemma_system_prompt_shape(c: Seq<char>, on_macos: bool)
    ensures
        system_prompt(Some(c), on_macos) == system_prompt(None, on_macos) + "\n\nCONTESTO UTENTE:\n"@ + c,
        has_substring(system_prompt(None, on_macos), "Rispondi sempre in italiano"@),
        !has_substring(system_prompt(None, on_macos), "CONTESTO UTENTE"@),
{
    let head = "Sei l'assistente AI integrato in AI-OS. Sistema attuale: "@ + platform_text(on_macos);
    let tail = " Puoi aprire applicazioni, gestire file, navigare sul web, eseguire comandi shell e scrivere articoli per il blog. Quando l'utente ti chiede di fare qualcosa sul sistema, usa i tool disponibili — non limitarti a descrivere cosa fare, fallo direttamente. Rispondi sempre in italiano. Sii conciso e pratico."@;
    let needle = "Rispondi sempre in italiano"@;
    reveal_strlit(" Puoi aprire applicazioni, gestire file, navigare sul web, eseguire comandi shell e scrivere articoli per il blog. Quando l'utente ti chiede di fare qualcosa sul sistema, usa i tool disponibili — non limitarti a descrivere cosa fare, fallo direttamente. Rispondi sempre in italiano. Sii conciso e pratico.");
    reveal_strlit("Rispondi sempre in italiano");
    let k = 254int;
    assert(tail.subrange(k, k + needle.len()) =~= needle);
    let base = head + tail;
    let i = head.len() + k;
    assert(base.subrange(i, i + needle.len()) =~= tail.subrange(k, k + needle.len()));
    // the base prompt has no capital T, which the context heading has
    reveal_strlit("Sei l'assistente AI integrato in AI-OS. Sistema attuale: ");
    reveal_strlit("macOS (sviluppo). Per aprire app usa launch_app con exec='open' e args=['-a','NomeApp']. Per aprire URL usa open_url. Esempi: Safari → exec='open', args=['-a','Safari']; Firefox → exec='open', args=['-a','Firefox'].");
    reveal_strlit("Linux / Raspberry Pi 4. Browser predefinito: chromium-browser.");
    reveal_strlit("CONTESTO UTENTE");
    assert(forall|j: int| 0 <= j < tail.len() ==> tail[j] != 'T');
    assert(forall|j: int| 0 <= j < head.len() ==> head[j] != 'T');
    assert(forall|j: int| 0 <= j < base.len() ==> base[j] != 'T') by {
        assert forall|j: int| 0 <= j < base.len() implies base[j] != 'T' by {
            if j < head.len() {
                assert(base[j] == head[j]);
            } else {
                assert(base[j] == tail[j - head.len()]);
            }
        }
    }
    let heading = "CONTESTO UTENTE"@;
    assert(heading[3] == 'T');
    assert forall|p: int| 0 <= p <= base.len() - heading.len() implies #[trigger] base.subrange(p, p + heading.len()) != heading by {
        assert(base.subrange(p, p + heading.len())[3] == base[p + 3]);
    }
}

/// What the conversation reads of one block of the model's reply: its
/// `type`, `text`, `id` and `name` keys, each when it is a string.
pub struct ContentBlock {
    pub kind: Option<String>,
    pub text: Option<String>,
    pub id: Option<String>,
    pub name: Option<String>,
}

/// A tool call found in a reply.
pub struct ToolUse {
    /// Position of the block in the reply, where its input is.
    pub block: usize,
    pub id: String,
    pub name: String,
}

/// What to do after a reply.
pub enum Step {
    /// The answer is complete; this is its text.
    Finish(String),
    /// Run these tools, send their results, and ask again.
    RunTools(Vec<ToolUse>),
}

/// Why a conversation ends without an answer.
pub enum AskError {
    /// More than `MAX_TOOL_ITERATIONS` requests would be needed.
    TooManyIterations,
    /// The reply stopped for a reason other than the end of the turn or a
    /// tool call.
    UnexpectedStop(Option<String>),
}

pub open spec fn opt_text(o: Option<String>) -> Option<Seq<char>> {
    match o {
        Some(s) => Some(s@),
        None => None,
    }
}

pub open spec fn has_kind(b: ContentBlock, kind: Seq<char>) -> bool {
    opt_text(b.kind) == Some(kind)
}

/// Texts of the text blocks of a reply, in order.
pub open spec fn reply_texts(blocks: Seq<ContentBlock>) -> Seq<Seq<char>>
    decreases blocks.len(),
{
    if blocks.len() == 0 {
        Seq::empty()
    } else {
        let rest = reply_texts(blocks.drop_last());
        let b = blocks.last();
        if has_kind(b, "text"@) && b.text is Some {
            rest.push(b.text->0@)
        } else {
            rest
        }
    }
}

/// Tool calls of a reply, in order, as (block position, id, name); a
/// missing id or name reads as empty.
pub open spec fn reply_tool_uses(blocks: Seq<ContentBlock>) -> Seq<(int, Seq<char>, Seq<char>)>
    decreases blocks.len(),
{
    if blocks.len() == 0 {
        Seq::empty()
    } else {
        let rest = reply_tool_uses(blocks.drop_last());
        let b = blocks.last();
        if has_kind(b, "tool_use"@) {
            rest.push((
                blocks.len() - 1,
                match opt_text(b.id) { Some(s) => s, None => Seq::empty() },
                match opt_text(b.name) { Some(s) => s, None => Seq::empty() },
            ))
        } else {
            rest
        }
    }
}

pub open spec fn tool_use_view(t: ToolUse) -> (int, Seq<char>, Seq<char>) {
    (t.block as int, t.id@, t.name@)
}

/// The answer sent back for one tool call: the call's id, the text of its
/// outcome, and whether it failed.
pub struct ToolResult {
    pub tool_use_id: String,
    pub content: String,
    pub is_error: bool,
}

pub open spec fn tool_result_view(r: ToolResult) -> (Seq<char>, Seq<char>, bool) {
    (r.tool_use_id@, r.content@, r.is_error)
}

/// The result entry for a call with id `id` whose tool gave `outcome`: its
/// output when it succeeded, its error message (flagged) when it failed.
pub open spec fn result_entry(id: Seq<char>, outcome: Result<String, String>) -> (Seq<char>, Seq<char>, bool) {
    match outcome {
        Ok(v) => (id, v@, false),
        Err(e) => (id, e@, true),
    }
}

/// The results to send after running the tools of a reply: one entry per
/// call, in the order of the calls, paired with the call's id.
/// `outcomes[j]` is what running the `j`-th call gave.
pub fn tool_results(uses: &Vec<ToolUse>, outcomes: Vec<Result<String, String>>) -> (r: Vec<ToolResult>)
    requires
        outcomes@.len() == uses@.len(),
    ensures
        r@.len() == uses@.len(),
        forall|j: int| 0 <= j < uses@.len() ==> tool_result_view(#[trigger] r@[j]) == result_entry(uses@[j].id@, outcomes@[j]),
{
    let mut r: Vec<ToolResult> = Vec::new();
    let mut j: usize = 0;
    while j < uses.len()
        invariant
            j <= uses@.len(),
            outcomes@.len() == uses@.len(),
            r@.len() == j,
            forall|k: int| 0 <= k < j ==> tool_result_view(#[trigger] r@[k]) == result_entry(uses@[k].id@, outcomes@[k]),
        decreases uses@.len() - j,
    {
        let entry = match &outcomes[j] {
            Ok(v) => ToolResult { tool_use_id: uses[j].id.clone(), content: v.clone(), is_error: false },
            Err(e) => ToolResult { tool_use_id: uses[j].id.clone(), content: e.clone(), is_error: true },
        };
        r.push(entry);
        j = j + 1;
    }
    r
}

/// The running state of one question to the model.
pub struct AskSession {
    iterations: u8,
    total_in: u32,
    total_out: u32,
}

impl AskSession {
    /// Requests sent so far.
    pub closed spec fn requests(&self) -> nat {
        self.iterations as nat
    }

    /// Input tokens billed so far.
    pub closed spec fn tokens_in(&self) -> nat {
        self.total_in as nat
    }

    /// Output tokens billed so far.
    pub closed spec fn tokens_out(&self) -> nat {
        self.total_out as nat
    }

    pub closed spec fn wf(&self) -> bool {
        self.iterations <= MAX_TOOL_ITERATIONS
    }

    pub fn new() -> (s: Self)
        ensures
            s.wf(),
            s.requests() == 0,
            s.tokens_in() == 0,
            s.tokens_out() == 0,
    {
        AskSession { iterations: 0, total_in: 0, total_out: 0 }
    }

    /// Accounts for a new request; refused once the limit is reached.
    pub fn begin_request(&mut self) -> (r: Result<(), AskError>)
        requires
            old(self).wf(),
        ensures
            final(self).wf(),
            r is Ok <==> old(self).requests() < MAX_TOOL_ITERATIONS,
            r matches Err(e) ==> e is TooManyIterations,
            r is Ok ==> final(self).requests() == old(self).requests() + 1,
            r is Err ==> final(self).requests() == old(self).requests(),
            final(self).tokens_in() == old(self).tokens_in(),
            final(self).tokens_out() == old(self).tokens_out(),
    {
        if self.iterations >= MAX_TOOL_ITERATIONS {
            Err(AskError::TooManyIterations)
        } else {
            self.iterations = self.iterations + 1;
            Ok(())
        }
    }

    /// Whether a reply's usage can be added without overflowing the totals.
    pub fn can_add_usage(&self, input_tokens: u32, output_tokens: u32) -> (ok: bool)
        ensures
            ok == (self.tokens_in() + input_tokens <= u32::MAX && self.tokens_out() + output_tokens <= u32::MAX),
    {
        input_tokens <= u32::MAX - self.total_in && output_tokens <= u32::MAX - self.total_out
    }

    /// Input tokens billed so far.
    pub fn total_in(&self) -> (n: u32)
        ensures
            n == self.tokens_in(),
    {
        self.total_in
    }

    /// Output tokens billed so far.
    pub fn total_out(&self) -> (n: u32)
        ensures
            n == self.tokens_out(),
    {
        self.total_out
    }

    /// Takes a reply: adds its usage, then finishes on `end_turn` with the
    /// text blocks joined by new lines, asks for the tool calls on
    /// `tool_use`, and fails on any other stop reason.
    pub fn on_reply(
        &mut self,
        input_tokens: u32,
        output_tokens: u32,
        stop_reason: Option<&str>,
        blocks: &Vec<ContentBlock>,
    ) -> (r: Result<Step, AskError>)
        requires
            old(self).tokens_in() + input_tokens <= u32::MAX,
            old(self).tokens_out() + output_tokens <= u32::MAX,
        ensures
            final(self).tokens_in() == old(self).tokens_in() + input_tokens,
            final(self).tokens_out() == old(self).tokens_out() + output_tokens,
            final(self).requests() == old(self).requests(),
            old(self).wf() ==> final(self).wf(),
            match stop_reason {
                Some(s) if s@ == "end_turn"@ => r matches Ok(Step::Finish(t))
                    && t@ == join(reply_texts(blocks@), "\n"@),
                Some(s) if s@ == "tool_use"@ => r matches Ok(Step::RunTools(uses))
                    && uses@.map_values(|u: ToolUse| tool_use_view(u)) == reply_tool_uses(blocks@),
                _ => r matches Err(AskError::UnexpectedStop(s)) && opt_text(s) == (match stop_reason {
                    Some(x) => Some(x@),
                    None => None,
                }),
            },
    {
        self.total_in = self.total_in + input_tokens;
        self.total_out = self.total_out + output_tokens;
        match stop_reason {
            Some(s) => {
                if same_text(s, "end_turn") {
                    let texts = collect_texts(blocks);
                    Ok(Step::Finish(join_strings(&texts, "\n")))
                } else if same_text(s, "tool_use") {
                    Ok(Step::RunTools(collect_tool_uses(blocks)))
                } else {
                    Err(AskError::UnexpectedStop(Some(String::from_str(s))))
                }
            },
            None => Err(AskError::UnexpectedStop(None)),
        }
    }
}

impl AskError {
    /// The message of a conversation that ran out of requests; `None` for
    /// an unexpected stop, whose reason is reported as it was received.
    pub fn fixed_message(&self) -> (m: Option<&'static str>)
        ensures
            *self is TooManyIterations ==> (m matches Some(t) && t@ == "Troppi cicli di tool use (10)"@),
            *self is UnexpectedStop ==> m is None,
    {
        match self {
            AskError::TooManyIterations => Some("Troppi cicli di tool use (10)"),
            AskError::UnexpectedStop(_) => None,
        }
    }
}

fn is_kind(b: &ContentBlock, kind: &str) -> (r: bool)
    ensures
        r == has_kind(*b, kind@),
{
    match &b.kind {
        Some(k) => same_text(k.as_str(), kind),
        None => false,
    }
}

fn collect_texts(blocks: &Vec<ContentBlock>) -> (v: Vec<String>)
    ensures
        views(v@) == reply_texts(blocks@),
{
    let mut v: Vec<String> = Vec::new();
    let mut i: usize = 0;
    while i < blocks.len()
        invariant
            i <= blocks@.len(),
            views(v@) == reply_texts(blocks@.subrange(0, i as int)),
        decreases blocks@.len() - i,
    {
        let ghost before = v@;
        assert(blocks@.subrange(0, i + 1).drop_last() =~= blocks@.subrange(0, i as int));
        assert(blocks@.subrange(0, i + 1).last() == blocks@[i as int]);
        let b = &blocks[i];
        if is_kind(b, "text") {
            match &b.text {
                Some(t) => {
                    let t2 = t.clone();
                    v.push(t2);
                    assert(views(v@) =~= views(before).push(t2@));
                },
                None => {},
            }
        }
        i = i + 1;
    }
    assert(blocks@.subrange(0, blocks@.len() as int) =~= blocks@);
    v
}

fn text_or_empty(o: &Option<String>) -> (r: String)
    ensures
        r@ == (match opt_text(*o) { Some(s) => s, None => Seq::empty() }),
{
    match o {
        Some(s) => s.clone(),
        None => String::new(),
    }
}

fn collect_tool_uses(blocks: &Vec<ContentBlock>) -> (v: Vec<ToolUse>)
    ensures
        v@.map_values(|u: ToolUse| tool_use_view(u)) == reply_tool_uses(blocks@),
{
    let mut v: Vec<ToolUse> = Vec::new();
    let mut i: usize = 0;
    while i < blocks.len()
        invariant
            i <= blocks@.len(),
            v@.map_values(|u: ToolUse| tool_use_view(u)) == reply_tool_uses(blocks@.subrange(0, i as int)),
        decreases blocks@.len() - i,
    {
        let ghost before = v@;
        assert(blocks@.subrange(0, i + 1).drop_last() =~= blocks@.subrange(0, i as int));
        assert(blocks@.subrange(0, i + 1).last() == blocks@[i as int]);
        let b = &blocks[i];
        if is_kind(b, "tool_use") {
            let u = ToolUse { block: i, id: text_or_empty(&b.id), name: text_or_empty(&b.name) };
            let ghost uv = tool_use_view(u);
            v.push(u);
            assert(v@.map_values(|u: ToolUse| tool_use_view(u)) =~= before.map_values(|u: ToolUse| tool_use_view(u)).push(uv));
        }
        i = i + 1;
    }
    assert(blocks@.subrange(0, blocks@.len() as int) =~= blocks@);
    v
}

} // verus!

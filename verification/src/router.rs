//! Choice of the cheapest adequate model for a prompt, by keywords and length.
use vstd::prelude::*;
use crate::model::Model;
use crate::text::{chars_of, contains_chars, has_substring, lowercase, to_lowercase, utf8_len};

verus! {

/// Keywords that ask for deep reasoning.
pub open spec fn opus_keywords() -> Seq<Seq<char>> {
    seq![
        "progetta"@, "design"@, "architettura"@, "architecture"@,
        "piano strategico"@, "strategic plan"@, "roadmap"@,
        "confronta in dettaglio"@, "compare in detail"@,
        "analisi approfondita"@, "deep analysis"@, "analisi completa"@,
        "ragiona su"@, "reason about"@, "valuta pro e contro"@,
        "ottimizza il sistema"@, "refactor completo"@,
    ]
}

/// Keywords for writing, code, analysis and long content.
pub open spec fn sonnet_keywords() -> Seq<Seq<char>> {
    seq![
        "scrivi"@, "write"@, "redigi"@, "draft"@, "componi"@, "compose"@,
        "articolo"@, "article"@, "blog"@, "post"@, "newsletter"@,
        "revisiona"@, "review"@, "correggi"@, "proofreading"@,
        "codice"@, "code"@, "funzione"@, "function"@, "script"@,
        "implementa"@, "implement"@, "programma"@, "program"@,
        "genera"@, "generate"@, "crea un"@, "create a"@,
        "analizza"@, "analyze"@, "analyse"@, "spiega"@, "explain"@,
        "riassumi"@, "summarize"@, "traduci"@, "translate"@,
        "elenca i passaggi"@, "step by step"@, "passo per passo"@,
        "in dettaglio"@, "in detail"@, "dettagliatamente"@,
    ]
}

/// Some keyword of `kws` occurs in `text`.
pub open spec fn mentions_any(text: Seq<char>, kws: Seq<Seq<char>>) -> bool {
    exists|i: int| 0 <= i < kws.len() && has_substring(text, #[trigger] kws[i])
}

/// The model chosen for a prompt whose lower-case form is `lower`, which is
/// `char_len` characters long and whose UTF-8 encoding is `byte_len` bytes
/// long: more than 800 characters call for the reasoning model, more than
/// 200 bytes for the writing model.
pub open spec fn route(lower: Seq<char>, char_len: int, byte_len: int) -> Model {
    if mentions_any(lower, opus_keywords()) {
        Model::Opus
    } else if char_len > 800 {
        Model::Opus
    } else if mentions_any(lower, sonnet_keywords()) {
        Model::Sonnet
    } else if byte_len > 200 {
        Model::Sonnet
    } else {
        Model::Haiku
    }
}

fn opus_keyword_list() -> (v: Vec<&'static str>)
    ensures
        v@.map_values(|k: &str| k@) == opus_keywords(),
{
    let v = vec![
        "progetta", "design", "architettura", "architecture",
        "piano strategico", "strategic plan", "roadmap",
        "confronta in dettaglio", "compare in detail",
        "analisi approfondita", "deep analysis", "analisi completa",
        "ragiona su", "reason about", "valuta pro e contro",
        "ottimizza il sistema", "refactor completo",
    ];
    assert(v@.map_values(|k: &str| k@) =~= opus_keywords());
    v
}

fn sonnet_keyword_list() -> (v: Vec<&'static str>)
    ensures
        v@.map_values(|k: &str| k@) == sonnet_keywords(),
{
    let v = vec![
        "scrivi", "write", "redigi", "draft", "componi", "compose",
        "articolo", "article", "blog", "post", "newsletter",
        "revisiona", "review", "correggi", "proofreading",
        "codice", "code", "funzione", "function", "script",
        "implementa", "implement", "programma", "program",
        "genera", "generate", "crea un", "create a",
        "analizza", "analyze", "analyse", "spiega", "explain",
        "riassumi", "summarize", "traduci", "translate",
        "elenca i passaggi", "step by step", "passo per passo",
        "in dettaglio", "in detail", "dettagliatamente",
    ];
    assert(v@.map_values(|k: &str| k@) =~= sonnet_keywords());
    v
}

fn mentions_any_of(text: &[char], kws: &Vec<&'static str>) -> (r: bool)
    ensures
        r == mentions_any(text@, kws@.map_values(|k: &str| k@)),
{
    let ghost spec_kws = kws@.map_values(|k: &str| k@);
    let mut i: usize = 0;
    while i < kws.len()
        invariant
            i <= kws@.len(),
            spec_kws == kws@.map_values(|k: &str| k@),
            forall|j: int| 0 <= j < i ==> !has_substring(text@, #[trigger] spec_kws[j]),
        decreases kws@.len() - i,
    {
        let kw = chars_of(kws[i]);
        if contains_chars(text, kw.as_slice()) {
            assert(has_substring(text@, spec_kws[i as int]));
            return true;
        }
        i = i + 1;
    }
    false
}

/// Chooses the model for prompts by keyword and length, with no API call.
pub struct TaskRouter;

impl TaskRouter {
    pub fn new() -> (r: Self) {
        TaskRouter
    }

    /// The routing decision, given the prompt already lower-cased and the
    /// character and byte lengths of the original prompt.
    pub fn route(&self, lowered: &str, char_len: usize, byte_len: usize) -> (m: Model)
        ensures
            m == route(lowered@, char_len as int, byte_len as int),
    {
        let p = chars_of(lowered);
        if mentions_any_of(p.as_slice(), &opus_keyword_list()) {
            return Model::Opus;
        }
        if char_len > 800 {
            return Model::Opus;
        }
        if mentions_any_of(p.as_slice(), &sonnet_keyword_list()) {
            return Model::Sonnet;
        }
        if byte_len > 200 {
            return Model::Sonnet;
        }
        Model::Haiku
    }

    /// Classifies a prompt: keywords are looked up in its lower-case form,
    /// lengths are those of the prompt as given.
    pub fn classify(&self, prompt: &str) -> (m: Model)
        ensures
            m == route(lowercase(prompt@), prompt@.len() as int, utf8_len(prompt@) as int),
    {
        let lowered = to_lowercase(prompt);
        let char_len = prompt.unicode_len();
        let byte_len = prompt.as_bytes().len();
        self.route(lowered.as_str(), char_len, byte_len)
    }
}

/// A prompt has at least as many bytes as characters.
pub proof fn lemma_utf8_len_at_least_chars(s: Seq<char>)
    ensures
        utf8_len(s) >= s.len(),
    decreases s.len(),
{
    if s.len() > 0 {
        lemma_utf8_len_at_least_chars(s.drop_first());
        assert(vstd::utf8::encode_scalar(s[0] as u32).len() >= 1);
    }
}

/// A prompt longer than 800 characters always goes to the reasoning model.
pub proof fn lemma_long_prompts_use_opus(prompt: Seq<char>)
    requires
        prompt.len() > 800,
    ensures
        route(lowercase(prompt), prompt.len() as int, utf8_len(prompt) as int) == Model::Opus,
{
}

/// A reasoning keyword sends a prompt to the reasoning model, whatever its
/// length.
pub proof fn lemma_reasoning_keywords_use_opus(prompt: Seq<char>, i: int)
    requires
        0 <= i < opus_keywords().len(),
        has_substring(lowercase(prompt), opus_keywords()[i]),
    ensures
        route(lowercase(prompt), prompt.len() as int, utf8_len(prompt) as int) == Model::Opus,
{
}

/// A prompt longer than 200 bytes never goes to the fast model.
pub proof fn lemma_medium_prompts_skip_haiku(prompt: Seq<char>)
    requires
        utf8_len(prompt) > 200,
    ensures
        route(lowercase(prompt), prompt.len() as int, utf8_len(prompt) as int) != Model::Haiku,
{
}

/// A prompt of at most 200 bytes with no keyword goes to the fast model.
pub proof fn lemma_short_plain_prompts_use_haiku(prompt: Seq<char>)
    requires
        utf8_len(prompt) <= 200,
        forall|i: int| 0 <= i < opus_keywords().len() ==> !has_substring(lowercase(prompt), #[trigger] opus_keywords()[i]),
        forall|i: int| 0 <= i < sonnet_keywords().len() ==> !has_substring(lowercase(prompt), #[trigger] sonnet_keywords()[i]),
    ensures
        route(lowercase(prompt), prompt.len() as int, utf8_len(prompt) as int) == Model::Haiku,
{
    lemma_utf8_len_at_least_chars(prompt);
}

/// Each reasoning keyword, found in the lower-case prompt, sends the prompt
/// to the reasoning model, whatever its length.
pub proof fn lemma_reasoning_prompts_use_opus(prompt: Seq<char>)
    ensures
        (has_substring(lowercase(prompt), "progetta"@) ||
            has_substring(lowercase(prompt), "design"@) ||
            has_substring(lowercase(prompt), "architettura"@) ||
            has_substring(lowercase(prompt), "architecture"@) ||
            has_substring(lowercase(prompt), "piano strategico"@) ||
            has_substring(lowercase(prompt), "strategic plan"@) ||
            has_substring(lowercase(prompt), "roadmap"@) ||
            has_substring(lowercase(prompt), "confronta in dettaglio"@) ||
            has_substring(lowercase(prompt), "compare in detail"@) ||
            has_substring(lowercase(prompt), "analisi approfondita"@) ||
            has_substring(lowercase(prompt), "deep analysis"@) ||
            has_substring(lowercase(prompt), "analisi completa"@) ||
            has_substring(lowercase(prompt), "ragiona su"@) ||
            has_substring(lowercase(prompt), "reason about"@) ||
            has_substring(lowercase(prompt), "valuta pro e contro"@) ||
            has_substring(lowercase(prompt), "ottimizza il sistema"@) ||
            has_substring(lowercase(prompt), "refactor completo"@)) ==> route(lowercase(prompt), prompt.len() as int, utf8_len(prompt) as int) == Model::Opus,
{
    if has_substring(lowercase(prompt), "progetta"@) {
        assert(opus_keywords()[0] == "progetta"@);
    }
    if has_substring(lowercase(prompt), "design"@) {
        assert(opus_keywords()[1] == "design"@);
    }
    if has_substring(lowercase(prompt), "architettura"@) {
        assert(opus_keywords()[2] == "architettura"@);
    }
    if has_substring(lowercase(prompt), "architecture"@) {
        assert(opus_keywords()[3] == "architecture"@);
    }
    if has_substring(lowercase(prompt), "piano strategico"@) {
        assert(opus_keywords()[4] == "piano strategico"@);
    }
    if has_substring(lowercase(prompt), "strategic plan"@) {
        assert(opus_keywords()[5] == "strategic plan"@);
    }
    if has_substring(lowercase(prompt), "roadmap"@) {
        assert(opus_keywords()[6] == "roadmap"@);
    }
    if has_substring(lowercase(prompt), "confronta in dettaglio"@) {
        assert(opus_keywords()[7] == "confronta in dettaglio"@);
    }
    if has_substring(lowercase(prompt), "compare in detail"@) {
        assert(opus_keywords()[8] == "compare in detail"@);
    }
    if has_substring(lowercase(prompt), "analisi approfondita"@) {
        assert(opus_keywords()[9] == "analisi approfondita"@);
    }
    if has_substring(lowercase(prompt), "deep analysis"@) {
        assert(opus_keywords()[10] == "deep analysis"@);
    }
    if has_substring(lowercase(prompt), "analisi completa"@) {
        assert(opus_keywords()[11] == "analisi completa"@);
    }
    if has_substring(lowercase(prompt), "ragiona su"@) {
        assert(opus_keywords()[12] == "ragiona su"@);
    }
    if has_substring(lowercase(prompt), "reason about"@) {
        assert(opus_keywords()[13] == "reason about"@);
    }
    if has_substring(lowercase(prompt), "valuta pro e contro"@) {
        assert(opus_keywords()[14] == "valuta pro e contro"@);
    }
    if has_substring(lowercase(prompt), "ottimizza il sistema"@) {
        assert(opus_keywords()[15] == "ottimizza il sistema"@);
    }
    if has_substring(lowercase(prompt), "refactor completo"@) {
        assert(opus_keywords()[16] == "refactor completo"@);
    }
}

/// A prompt of at most 800 characters with no reasoning keyword but with a
/// writing, code or analysis keyword goes to the writing model.
pub proof fn lemma_writing_prompts_use_sonnet(prompt: Seq<char>)
    ensures
        (!has_substring(lowercase(prompt), "progetta"@) &&
            !has_substring(lowercase(prompt), "design"@) &&
            !has_substring(lowercase(prompt), "architettura"@) &&
            !has_substring(lowercase(prompt), "architecture"@) &&
            !has_substring(lowercase(prompt), "piano strategico"@) &&
            !has_substring(lowercase(prompt), "strategic plan"@) &&
            !has_substring(lowercase(prompt), "roadmap"@) &&
            !has_substring(lowercase(prompt), "confronta in dettaglio"@) &&
            !has_substring(lowercase(prompt), "compare in detail"@) &&
            !has_substring(lowercase(prompt), "analisi approfondita"@) &&
            !has_substring(lowercase(prompt), "deep analysis"@) &&
            !has_substring(lowercase(prompt), "analisi completa"@) &&
            !has_substring(lowercase(prompt), "ragiona su"@) &&
            !has_substring(lowercase(prompt), "reason about"@) &&
            !has_substring(lowercase(prompt), "valuta pro e contro"@) &&
            !has_substring(lowercase(prompt), "ottimizza il sistema"@) &&
            !has_substring(lowercase(prompt), "refactor completo"@)) &&
        prompt.len() <= 800 &&
        (has_substring(lowercase(prompt), "scrivi"@) ||
            has_substring(lowercase(prompt), "write"@) ||
            has_substring(lowercase(prompt), "redigi"@) ||
            has_substring(lowercase(prompt), "draft"@) ||
            has_substring(lowercase(prompt), "componi"@) ||
            has_substring(lowercase(prompt), "compose"@) ||
            has_substring(lowercase(prompt), "articolo"@) ||
            has_substring(lowercase(prompt), "article"@) ||
            has_substring(lowercase(prompt), "blog"@) ||
            has_substring(lowercase(prompt), "post"@) ||
            has_substring(lowercase(prompt), "newsletter"@) ||
            has_substring(lowercase(prompt), "revisiona"@) ||
            has_substring(lowercase(prompt), "review"@) ||
            has_substring(lowercase(prompt), "correggi"@) ||
            has_substring(lowercase(prompt), "proofreading"@) ||
            has_substring(lowercase(prompt), "codice"@) ||
            has_substring(lowercase(prompt), "code"@) ||
            has_substring(lowercase(prompt), "funzione"@) ||
            has_substring(lowercase(prompt), "function"@) ||
            has_substring(lowercase(prompt), "script"@) ||
            has_substring(lowercase(prompt), "implementa"@) ||
            has_substring(lowercase(prompt), "implement"@) ||
            has_substring(lowercase(prompt), "programma"@) ||
            has_substring(lowercase(prompt), "program"@) ||
            has_substring(lowercase(prompt), "genera"@) ||
            has_substring(lowercase(prompt), "generate"@) ||
            has_substring(lowercase(prompt), "crea un"@) ||
            has_substring(lowercase(prompt), "create a"@) ||
            has_substring(lowercase(prompt), "analizza"@) ||
            has_substring(lowercase(prompt), "analyze"@) ||
            has_substring(lowercase(prompt), "analyse"@) ||
            has_substring(lowercase(prompt), "spiega"@) ||
            has_substring(lowercase(prompt), "explain"@) ||
            has_substring(lowercase(prompt), "riassumi"@) ||
            has_substring(lowercase(prompt), "summarize"@) ||
            has_substring(lowercase(prompt), "traduci"@) ||
            has_substring(lowercase(prompt), "translate"@) ||
            has_substring(lowercase(prompt), "elenca i passaggi"@) ||
            has_substring(lowercase(prompt), "step by step"@) ||
            has_substring(lowercase(prompt), "passo per passo"@) ||
            has_substring(lowercase(prompt), "in dettaglio"@) ||
            has_substring(lowercase(prompt), "in detail"@) ||
            has_substring(lowercase(prompt), "dettagliatamente"@)) ==> route(lowercase(prompt), prompt.len() as int, utf8_len(prompt) as int) == Model::Sonnet,
{
    assert(opus_keywords() =~= seq!["progetta"@, "design"@, "architettura"@, "architecture"@, "piano strategico"@, "strategic plan"@, "roadmap"@, "confronta in dettaglio"@, "compare in detail"@, "analisi approfondita"@, "deep analysis"@, "analisi completa"@, "ragiona su"@, "reason about"@, "valuta pro e contro"@, "ottimizza il sistema"@, "refactor completo"@]);
    if has_substring(lowercase(prompt), "scrivi"@) {
        assert(sonnet_keywords()[0] == "scrivi"@);
    }
    if has_substring(lowercase(prompt), "write"@) {
        assert(sonnet_keywords()[1] == "write"@);
    }
    if has_substring(lowercase(prompt), "redigi"@) {
        assert(sonnet_keywords()[2] == "redigi"@);
    }
    if has_substring(lowercase(prompt), "draft"@) {
        assert(sonnet_keywords()[3] == "draft"@);
    }
    if has_substring(lowercase(prompt), "componi"@) {
        assert(sonnet_keywords()[4] == "componi"@);
    }
    if has_substring(lowercase(prompt), "compose"@) {
        assert(sonnet_keywords()[5] == "compose"@);
    }
    if has_substring(lowercase(prompt), "articolo"@) {
        assert(sonnet_keywords()[6] == "articolo"@);
    }
    if has_substring(lowercase(prompt), "article"@) {
        assert(sonnet_keywords()[7] == "article"@);
    }
    if has_substring(lowercase(prompt), "blog"@) {
        assert(sonnet_keywords()[8] == "blog"@);
    }
    if has_substring(lowercase(prompt), "post"@) {
        assert(sonnet_keywords()[9] == "post"@);
    }
    if has_substring(lowercase(prompt), "newsletter"@) {
        assert(sonnet_keywords()[10] == "newsletter"@);
    }
    if has_substring(lowercase(prompt), "revisiona"@) {
        assert(sonnet_keywords()[11] == "revisiona"@);
    }
    if has_substring(lowercase(prompt), "review"@) {
        assert(sonnet_keywords()[12] == "review"@);
    }
    if has_substring(lowercase(prompt), "correggi"@) {
        assert(sonnet_keywords()[13] == "correggi"@);
    }
    if has_substring(lowercase(prompt), "proofreading"@) {
        assert(sonnet_keywords()[14] == "proofreading"@);
    }
    if has_substring(lowercase(prompt), "codice"@) {
        assert(sonnet_keywords()[15] == "codice"@);
    }
    if has_substring(lowercase(prompt), "code"@) {
        assert(sonnet_keywords()[16] == "code"@);
    }
    if has_substring(lowercase(prompt), "funzione"@) {
        assert(sonnet_keywords()[17] == "funzione"@);
    }
    if has_substring(lowercase(prompt), "function"@) {
        assert(sonnet_keywords()[18] == "function"@);
    }
    if has_substring(lowercase(prompt), "script"@) {
        assert(sonnet_keywords()[19] == "script"@);
    }
    if has_substring(lowercase(prompt), "implementa"@) {
        assert(sonnet_keywords()[20] == "implementa"@);
    }
    if has_substring(lowercase(prompt), "implement"@) {
        assert(sonnet_keywords()[21] == "implement"@);
    }
    if has_substring(lowercase(prompt), "programma"@) {
        assert(sonnet_keywords()[22] == "programma"@);
    }
    if has_substring(lowercase(prompt), "program"@) {
        assert(sonnet_keywords()[23] == "program"@);
    }
    if has_substring(lowercase(prompt), "genera"@) {
        assert(sonnet_keywords()[24] == "genera"@);
    }
    if has_substring(lowercase(prompt), "generate"@) {
        assert(sonnet_keywords()[25] == "generate"@);
    }
    if has_substring(lowercase(prompt), "crea un"@) {
        assert(sonnet_keywords()[26] == "crea un"@);
    }
    if has_substring(lowercase(prompt), "create a"@) {
        assert(sonnet_keywords()[27] == "create a"@);
    }
    if has_substring(lowercase(prompt), "analizza"@) {
        assert(sonnet_keywords()[28] == "analizza"@);
    }
    if has_substring(lowercase(prompt), "analyze"@) {
        assert(sonnet_keywords()[29] == "analyze"@);
    }
    if has_substring(lowercase(prompt), "analyse"@) {
        assert(sonnet_keywords()[30] == "analyse"@);
    }
    if has_substring(lowercase(prompt), "spiega"@) {
        assert(sonnet_keywords()[31] == "spiega"@);
    }
    if has_substring(lowercase(prompt), "explain"@) {
        assert(sonnet_keywords()[32] == "explain"@);
    }
    if has_substring(lowercase(prompt), "riassumi"@) {
        assert(sonnet_keywords()[33] == "riassumi"@);
    }
    if has_substring(lowercase(prompt), "summarize"@) {
        assert(sonnet_keywords()[34] == "summarize"@);
    }
    if has_substring(lowercase(prompt), "traduci"@) {
        assert(sonnet_keywords()[35] == "traduci"@);
    }
    if has_substring(lowercase(prompt), "translate"@) {
        assert(sonnet_keywords()[36] == "translate"@);
    }
    if has_substring(lowercase(prompt), "elenca i passaggi"@) {
        assert(sonnet_keywords()[37] == "elenca i passaggi"@);
    }
    if has_substring(lowercase(prompt), "step by step"@) {
        assert(sonnet_keywords()[38] == "step by step"@);
    }
    if has_substring(lowercase(prompt), "passo per passo"@) {
        assert(sonnet_keywords()[39] == "passo per passo"@);
    }
    if has_substring(lowercase(prompt), "in dettaglio"@) {
        assert(sonnet_keywords()[40] == "in dettaglio"@);
    }
    if has_substring(lowercase(prompt), "in detail"@) {
        assert(sonnet_keywords()[41] == "in detail"@);
    }
    if has_substring(lowercase(prompt), "dettagliatamente"@) {
        assert(sonnet_keywords()[42] == "dettagliatamente"@);
    }
}

} // verus!

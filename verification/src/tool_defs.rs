//! The catalogue of tools offered to the model, with their parameters.
use vstd::prelude::*;
use crate::text::views;
use crate::tools::{plan_spec, ToolCall, ToolEngine, ToolError, ToolInput};

verus! {

/// Type of a tool parameter.
#[derive(Clone, Copy, Debug, PartialEq, Eq, Structural)]
pub enum ParamKind {
    Text,
    TextList,
}

/// One parameter of a tool.
pub struct ParamDef {
    pub name: String,
    pub kind: ParamKind,
    pub description: String,
    /// Allowed values; empty when any value is allowed.
    pub allowed: Vec<String>,
}

/// One tool, as described to the model.
pub struct ToolDef {
    pub name: String,
    pub description: String,
    pub params: Vec<ParamDef>,
    /// Names of the required parameters; `None` when the schema lists none.
    pub required: Option<Vec<String>>,
}

/// Mathematical form of a parameter.
#[verifier::ext_equal]
pub struct ParamSpec {
    pub name: Seq<char>,
    pub kind: ParamKind,
    pub description: Seq<char>,
    pub allowed: Seq<Seq<char>>,
}

/// Mathematical form of a tool.
#[verifier::ext_equal]
pub struct ToolSpec {
    pub name: Seq<char>,
    pub description: Seq<char>,
    pub params: Seq<ParamSpec>,
    pub required: Option<Seq<Seq<char>>>,
}

pub open spec fn param_view(p: ParamDef) -> ParamSpec {
    ParamSpec { name: p.name@, kind: p.kind, description: p.description@, allowed: views(p.allowed@) }
}

pub open spec fn tool_view(t: ToolDef) -> ToolSpec {
    ToolSpec {
        name: t.name@,
        description: t.description@,
        params: t.params@.map_values(|p: ParamDef| param_view(p)),
        required: match t.required {
            Some(r) => Some(views(r@)),
            None => None,
        },
    }
}

pub open spec fn pspec(name: &str, kind: ParamKind, description: &str, allowed: Seq<Seq<char>>) -> ParamSpec {
    ParamSpec { name: name@, kind, description: description@, allowed }
}

/// The tools offered to the model, in order.
pub open spec fn tool_catalog() -> Seq<ToolSpec> {
    seq![
        ToolSpec {
            name: "launch_app"@,
            description: "Apre un'applicazione sul sistema operativo. Usalo quando l'utente vuole aprire un programma."@,
            params: seq![
                pspec("exec", ParamKind::Text, "Comando da eseguire (es. 'chromium-browser', 'libreoffice', 'gimp')", seq![]),
                pspec("args", ParamKind::TextList, "Argomenti opzionali", seq![]),
            ],
            required: Some(seq!["exec"@]),
        },
        ToolSpec {
            name: "open_url"@,
            description: "Apre un URL nel browser Chromium. Usalo quando l'utente vuole visitare un sito web."@,
            params: seq![pspec("url", ParamKind::Text, "URL da aprire (completo di https://)", seq![])],
            required: Some(seq!["url"@]),
        },
        ToolSpec {
            name: "write_file"@,
            description: "Scrive o crea un file sul filesystem. Usalo per salvare articoli, note, codice."@,
            params: seq![
                pspec("path", ParamKind::Text, "Percorso del file (es. ~/Documenti/articolo.md)", seq![]),
                pspec("content", ParamKind::Text, "Contenuto del file", seq![]),
            ],
            required: Some(seq!["path"@, "content"@]),
        },
        ToolSpec {
            name: "read_file"@,
            description: "Legge il contenuto di un file. Usalo per vedere file esistenti prima di modificarli."@,
            params: seq![pspec("path", ParamKind::Text, "Percorso del file da leggere", seq![])],
            required: Some(seq!["path"@]),
        },
        ToolSpec {
            name: "run_shell"@,
            description: "Esegue un comando shell. Usalo per operazioni di sistema, informazioni sull'hardware, gestione processi."@,
            params: seq![pspec("command", ParamKind::Text, "Comando shell da eseguire", seq![])],
            required: Some(seq!["command"@]),
        },
        ToolSpec {
            name: "notify"@,
            description: "Mostra una notifica di sistema all'utente."@,
            params: seq![
                pspec("title", ParamKind::Text, "Titolo della notifica", seq![]),
                pspec("body", ParamKind::Text, "Testo della notifica", seq![]),
            ],
            required: Some(seq!["title"@, "body"@]),
        },
        ToolSpec {
            name: "publish_blog"@,
            description: "Pubblica o salva come bozza un articolo sul blog (WordPress o Ghost). Usalo quando l'utente vuole pubblicare o salvare un articolo."@,
            params: seq![
                pspec("title", ParamKind::Text, "Titolo dell'articolo", seq![]),
                pspec("content", ParamKind::Text, "Contenuto in markdown", seq![]),
                pspec("status", ParamKind::Text, "'draft' per bozza, 'publish' per pubblicare subito", seq!["draft"@, "publish"@]),
                pspec("platform", ParamKind::Text, "Piattaforma blog: 'wordpress' (default) o 'ghost'", seq!["wordpress"@, "ghost"@]),
                pspec("tags", ParamKind::TextList, "Lista di tag per l'articolo", seq![]),
            ],
            required: Some(seq!["title"@, "content"@, "status"@]),
        },
        ToolSpec {
            name: "list_drafts"@,
            description: "Elenca le bozze presenti sul blog (WordPress o Ghost)."@,
            params: seq![
                pspec("platform", ParamKind::Text, "Piattaforma blog: 'wordpress' (default) o 'ghost'", seq!["wordpress"@, "ghost"@]),
            ],
            required: None,
        },
        ToolSpec {
            name: "update_system"@,
            description: "Controlla o installa aggiornamenti di AI-OS. Usalo quando l'utente chiede di aggiornare il sistema, controllare la versione o installare una nuova versione."@,
            params: seq![
                pspec(
                    "action",
                    ParamKind::Text,
                    "'check' controlla se ci sono aggiornamenti disponibili; 'apply' scarica e installa i nuovi binari AI-OS; 'apply-packages' aggiorna i pacchetti di sistema (apt)",
                    seq!["check"@, "apply"@, "apply-packages"@],
                ),
            ],
            required: Some(seq!["action"@]),
        },
    ]
}

fn texts(items: &[&str]) -> (v: Vec<String>)
    ensures
        views(v@) == items@.map_values(|s: &str| s@),
{
    let mut v: Vec<String> = Vec::new();
    let mut i: usize = 0;
    while i < items.len()
        invariant
            i <= items@.len(),
            views(v@) == items@.subrange(0, i as int).map_values(|s: &str| s@),
        decreases items@.len() - i,
    {
        let ghost before = v@;
        let s = String::from_str(items[i]);
        v.push(s);
        assert(v@ == before.push(s));
        assert(views(v@) =~= views(before).push(s@));
        assert(items@.subrange(0, i + 1) =~= items@.subrange(0, i as int).push(items@[i as int]));
        assert(views(v@) =~= items@.subrange(0, i + 1).map_values(|s: &str| s@));
        i = i + 1;
    }
    assert(items@.subrange(0, items@.len() as int) =~= items@);
    v
}

fn param(name: &str, kind: ParamKind, description: &str, allowed: &[&str]) -> (p: ParamDef)
    ensures
        param_view(p) == pspec(name, kind, description, allowed@.map_values(|s: &str| s@)),
{
    ParamDef {
        name: String::from_str(name),
        kind,
        description: String::from_str(description),
        allowed: texts(allowed),
    }
}

fn tool(name: &str, description: &str, params: Vec<ParamDef>, required: Option<&[&str]>) -> (t: ToolDef)
    ensures
        t.name@ == name@,
        t.description@ == description@,
        t.params@ == params@,
        match required {
            Some(r) => t.required matches Some(q) && views(q@) == r@.map_values(|s: &str| s@),
            None => t.required is None,
        },
{
    ToolDef {
        name: String::from_str(name),
        description: String::from_str(description),
        params,
        required: match required {
            Some(r) => Some(texts(r)),
            None => None,
        },
    }
}

impl ToolEngine {
    /// The tools offered to the model, with their parameter schemas.
    pub fn tool_definitions() -> (defs: Vec<ToolDef>)
        ensures
            defs@.map_values(|t: ToolDef| tool_view(t)) == tool_catalog(),
    {
        let none: &[&str] = &[];
        let launch = tool(
            "launch_app",
            "Apre un'applicazione sul sistema operativo. Usalo quando l'utente vuole aprire un programma.",
            vec![
                param("exec", ParamKind::Text, "Comando da eseguire (es. 'chromium-browser', 'libreoffice', 'gimp')", none),
                param("args", ParamKind::TextList, "Argomenti opzionali", none),
            ],
            Some(&["exec"]),
        );
        let open = tool(
            "open_url",
            "Apre un URL nel browser Chromium. Usalo quando l'utente vuole visitare un sito web.",
            vec![param("url", ParamKind::Text, "URL da aprire (completo di https://)", none)],
            Some(&["url"]),
        );
        let write = tool(
            "write_file",
            "Scrive o crea un file sul filesystem. Usalo per salvare articoli, note, codice.",
            vec![
                param("path", ParamKind::Text, "Percorso del file (es. ~/Documenti/articolo.md)", none),
                param("content", ParamKind::Text, "Contenuto del file", none),
            ],
            Some(&["path", "content"]),
        );
        let read = tool(
            "read_file",
            "Legge il contenuto di un file. Usalo per vedere file esistenti prima di modificarli.",
            vec![param("path", ParamKind::Text, "Percorso del file da leggere", none)],
            Some(&["path"]),
        );
        let shell = tool(
            "run_shell",
            "Esegue un comando shell. Usalo per operazioni di sistema, informazioni sull'hardware, gestione processi.",
            vec![param("command", ParamKind::Text, "Comando shell da eseguire", none)],
            Some(&["command"]),
        );
        let notify = tool(
            "notify",
            "Mostra una notifica di sistema all'utente.",
            vec![
                param("title", ParamKind::Text, "Titolo della notifica", none),
                param("body", ParamKind::Text, "Testo della notifica", none),
            ],
            Some(&["title", "body"]),
        );
        let publish = tool(
            "publish_blog",
            "Pubblica o salva come bozza un articolo sul blog (WordPress o Ghost). Usalo quando l'utente vuole pubblicare o salvare un articolo.",
            vec![
                param("title", ParamKind::Text, "Titolo dell'articolo", none),
                param("content", ParamKind::Text, "Contenuto in markdown", none),
                param("status", ParamKind::Text, "'draft' per bozza, 'publish' per pubblicare subito", &["draft", "publish"]),
                param("platform", ParamKind::Text, "Piattaforma blog: 'wordpress' (default) o 'ghost'", &["wordpress", "ghost"]),
                param("tags", ParamKind::TextList, "Lista di tag per l'articolo", none),
            ],
            Some(&["title", "content", "status"]),
        );
        let drafts = tool(
            "list_drafts",
            "Elenca le bozze presenti sul blog (WordPress o Ghost).",
            vec![param("platform", ParamKind::Text, "Piattaforma blog: 'wordpress' (default) o 'ghost'", &["wordpress", "ghost"])],
            None,
        );
        let update = tool(
            "update_system",
            "Controlla o installa aggiornamenti di AI-OS. Usalo quando l'utente chiede di aggiornare il sistema, controllare la versione o installare una nuova versione.",
            vec![
                param(
                    "action",
                    ParamKind::Text,
                    "'check' controlla se ci sono aggiornamenti disponibili; 'apply' scarica e installa i nuovi binari AI-OS; 'apply-packages' aggiorna i pacchetti di sistema (apt)",
                    &["check", "apply", "apply-packages"],
                ),
            ],
            Some(&["action"]),
        );
        let defs = vec![launch, open, write, read, shell, notify, publish, drafts, update];
        proof {
            let cat = tool_catalog();
            assert(tool_view(defs@[0]) =~~= cat[0]);
            assert(tool_view(defs@[1]) =~~= cat[1]);
            assert(tool_view(defs@[2]) =~~= cat[2]);
            assert(tool_view(defs@[3]) =~~= cat[3]);
            assert(tool_view(defs@[4]) =~~= cat[4]);
            assert(tool_view(defs@[5]) =~~= cat[5]);
            assert(tool_view(defs@[6]) =~~= cat[6]);
            assert(tool_view(defs@[7]) =~~= cat[7]);
            assert(tool_view(defs@[8]) =~~= cat[8]);
            assert(defs@.map_values(|t: ToolDef| tool_view(t)) =~= cat);
        }
        defs
    }
}

/// Every tool offered to the model is one that the planner handles:
/// planning a call to an offered tool never answers that it is unknown.
pub proof fn lemma_offered_tools_are_planned(
    engine: &ToolEngine,
    i: int,
    input: ToolInput,
    r: Result<ToolCall, ToolError>,
)
    requires
        0 <= i < tool_catalog().len(),
        plan_spec(engine, tool_catalog()[i].name, input, r),
    ensures
        !(r matches Err(ToolError::UnknownTool(_))),
{
}

/// A call that the planner refuses for a missing argument names a field
/// that the offered tool lists as required.
pub proof fn lemma_refused_fields_are_required(
    engine: &ToolEngine,
    i: int,
    input: ToolInput,
    m: &'static str,
)
    requires
        0 <= i < tool_catalog().len(),
        plan_spec(engine, tool_catalog()[i].name, input, Err(ToolError::MissingArgument(m))),
    ensures
        tool_catalog()[i].required matches Some(req)
            && exists|j: int| 0 <= j < req.len() && m@ == #[trigger] req[j] + " mancante"@,
{
    reveal_strlit("launch_app");
    reveal_strlit("open_url");
    reveal_strlit("write_file");
    reveal_strlit("read_file");
    reveal_strlit("run_shell");
    reveal_strlit("notify");
    reveal_strlit("publish_blog");
    reveal_strlit("list_drafts");
    reveal_strlit("update_system");
    reveal_strlit(" mancante");
    reveal_strlit("exec");
    reveal_strlit("exec mancante");
    reveal_strlit("url");
    reveal_strlit("url mancante");
    reveal_strlit("path");
    reveal_strlit("path mancante");
    reveal_strlit("command");
    reveal_strlit("command mancante");
    // the planner's branches are told apart by the tools' names
    assert("launch_app"@.len() == 10 && "open_url"@.len() == 8 && "write_file"@.len() == 10);
    assert("read_file"@.len() == 9 && "run_shell"@.len() == 9 && "notify"@.len() == 6);
    assert("publish_blog"@.len() == 12 && "list_drafts"@.len() == 11 && "update_system"@.len() == 13);
    assert("launch_app"@[0] != "write_file"@[0]);
    assert("read_file"@[1] != "run_shell"@[1]);
    let req = tool_catalog()[i].required->0;
    if i == 0 {
        assert(m@ =~= req[0] + " mancante"@);
    } else if i == 1 {
        assert(m@ =~= req[0] + " mancante"@);
    } else if i == 2 {
        assert(m@ =~= req[0] + " mancante"@);
    } else if i == 3 {
        assert(m@ =~= req[0] + " mancante"@);
    } else if i == 4 {
        assert(m@ =~= req[0] + " mancante"@);
    }
}

} // verus!

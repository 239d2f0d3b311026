//! The application panel: where it sits, and what a click on an icon does.
use vstd::prelude::*;
use crate::shell::config::AppEntry;
use crate::text::{is_whitespace, is_ws, same_text, views};

verus! {

/// Side of the screen the panel sits on.
#[derive(Clone, Copy, Debug, PartialEq, Eq, Structural)]
pub enum PanelSide {
    Left,
    Right,
    Top,
    Bottom,
}

/// The side for a configured position: `right`, `top` and `bottom` are
/// recognised, anything else means left.
pub open spec fn spec_panel_side(position: Seq<char>) -> PanelSide {
    if position == "right"@ {
        PanelSide::Right
    } else if position == "top"@ {
        PanelSide::Top
    } else if position == "bottom"@ {
        PanelSide::Bottom
    } else {
        PanelSide::Left
    }
}

pub fn panel_side(position: &str) -> (s: PanelSide)
    ensures
        s == spec_panel_side(position@),
{
    if same_text(position, "right") {
        PanelSide::Right
    } else if same_text(position, "top") {
        PanelSide::Top
    } else if same_text(position, "bottom") {
        PanelSide::Bottom
    } else {
        PanelSide::Left
    }
}

/// Words of `s` after the word `cur` in progress: maximal runs of
/// characters that are not white space.
pub open spec fn words_from(s: Seq<char>, cur: Seq<char>) -> Seq<Seq<char>>
    decreases s.len(),
{
    let done = if cur.len() > 0 { seq![cur] } else { Seq::empty() };
    if s.len() == 0 {
        done
    } else if is_ws(s[0]) {
        done + words_from(s.drop_first(), Seq::empty())
    } else {
        words_from(s.drop_first(), cur.push(s[0]))
    }
}

/// The white-space separated words of `s`, as `split_whitespace` gives them.
pub open spec fn words(s: Seq<char>) -> Seq<Seq<char>> {
    words_from(s, Seq::empty())
}

/// Splits a string into its white-space separated words.
pub fn split_words(s: &str) -> (w: Vec<String>)
    ensures
        views(w@) == words(s@),
{
    let n = s.unicode_len();
    let mut w: Vec<String> = Vec::new();
    let mut start: usize = 0;
    let mut i: usize = 0;
    assert(s@.subrange(0, n as int) =~= s@);
    assert(s@.subrange(0, 0) =~= Seq::<char>::empty());
    assert(views(w@) =~= Seq::<Seq<char>>::empty());
    assert(views(w@) + words(s@) =~= words(s@));
    while i < n
        invariant
            n == s@.len(),
            start <= i <= n,
            words(s@) == views(w@) + words_from(s@.subrange(i as int, n as int), s@.subrange(start as int, i as int)),
        decreases n - i,
    {
        let c = s.get_char(i);
        let ghost rest = s@.subrange(i as int, n as int);
        let ghost cur = s@.subrange(start as int, i as int);
        assert(rest[0] == c);
        assert(rest.drop_first() =~= s@.subrange(i + 1, n as int));
        if is_whitespace(c) {
            if start < i {
                let word = String::from_str(s.substring_char(start, i));
                let ghost before = w@;
                w.push(word);
                assert(views(w@) =~= views(before).push(cur));
                assert(views(w@) + words_from(s@.subrange(i + 1, n as int), Seq::empty()) =~= views(before) + (seq![cur] + words_from(s@.subrange(i + 1, n as int), Seq::empty())));
            } else {
                assert(cur.len() == 0);
                assert(Seq::<Seq<char>>::empty() + words_from(s@.subrange(i + 1, n as int), Seq::empty()) =~= words_from(s@.subrange(i + 1, n as int), Seq::empty()));
            }
            start = i + 1;
            assert(s@.subrange(start as int, i + 1) =~= Seq::<char>::empty());
        } else {
            assert(cur.push(c) =~= s@.subrange(start as int, i + 1));
        }
        i = i + 1;
    }
    let ghost cur = s@.subrange(start as int, n as int);
    if start < n {
        let word = String::from_str(s.substring_char(start, n));
        let ghost before = w@;
        w.push(word);
        assert(views(w@) =~= views(before).push(cur));
        assert(views(before) + seq![cur] =~= views(before).push(cur));
    } else {
        assert(views(w@) + Seq::<Seq<char>>::empty() =~= views(w@));
    }
    w
}

/// What a click on an application icon starts.
pub enum Launch {
    /// The settings entry: open the settings window.
    OpenSettings,
    /// Start a program with arguments.
    Run { program: String, args: Vec<String> },
    /// The command line is blank: nothing to start.
    Nothing,
}

/// What launching a command line does: the settings entry opens the
/// settings, otherwise its first word is the program and the rest its
/// arguments.
pub fn launch_for(command: &str) -> (l: Launch)
    ensures
        command@ == "__settings__"@ ==> l is OpenSettings,
        command@ != "__settings__"@ ==> match l {
            Launch::Run { program, args } => words(command@).len() > 0 && program@ == words(command@)[0]
                && views(args@) == words(command@).drop_first(),
            Launch::Nothing => words(command@).len() == 0,
            Launch::OpenSettings => false,
        },
{
    if same_text(command, "__settings__") {
        return Launch::OpenSettings;
    }
    let mut parts = split_words(command);
    if parts.len() == 0 {
        Launch::Nothing
    } else {
        let ghost all = views(parts@);
        let program = parts.remove(0);
        assert(views(parts@) =~= all.drop_first());
        Launch::Run { program, args: parts }
    }
}

/// What a click or a context menu on an icon asks for.
#[derive(Clone, Copy, Debug, PartialEq, Eq, Structural)]
pub enum IconAction {
    NoAction,
    Launch,
    OpenPicker(usize),
}

/// The panel of application icons.
pub struct Panel {
    /// Application whose icon picker is open.
    pub picker_for: Option<usize>,
}

impl Panel {
    pub fn new() -> (p: Self)
        ensures
            p.picker_for is None,
    {
        Panel { picker_for: None }
    }

    /// Carries out an icon action: a launch opens the settings (through
    /// `settings_open`) or returns the program to start; a picker request
    /// records which application it is for.
    pub fn handle_action(&mut self, action: IconAction, app: &AppEntry, settings_open: &mut bool) -> (start: Option<(String, Vec<String>)>)
        ensures
            match action {
                IconAction::NoAction => final(self).picker_for == old(self).picker_for
                    && *final(settings_open) == *old(settings_open) && start is None,
                IconAction::OpenPicker(i) => final(self).picker_for == Some(i)
                    && *final(settings_open) == *old(settings_open) && start is None,
                IconAction::Launch => final(self).picker_for == old(self).picker_for && (
                    if app.command@ == "__settings__"@ {
                        *final(settings_open) && start is None
                    } else {
                        *final(settings_open) == *old(settings_open) && match start {
                            Some((program, args)) => words(app.command@).len() > 0
                                && program@ == words(app.command@)[0]
                                && views(args@) == words(app.command@).drop_first(),
                            None => words(app.command@).len() == 0,
                        }
                    }),
            },
    {
        match action {
            IconAction::NoAction => None,
            IconAction::OpenPicker(i) => {
                self.picker_for = Some(i);
                None
            },
            IconAction::Launch => match launch_for(app.command.as_str()) {
                Launch::OpenSettings => {
                    *settings_open = true;
                    None
                },
                Launch::Run { program, args } => Some((program, args)),
                Launch::Nothing => None,
            },
        }
    }

    /// The application the icon picker is open for, closing the picker when
    /// its application no longer exists.
    pub fn picker_target(&mut self, app_count: usize) -> (t: Option<usize>)
        ensures
            match old(self).picker_for {
                Some(i) if i < app_count => t == Some(i) && final(self).picker_for == Some(i),
                _ => t is None && final(self).picker_for is None,
            },
    {
        match self.picker_for {
            Some(i) => {
                if i < app_count {
                    Some(i)
                } else {
                    self.picker_for = None;
                    None
                }
            },
            None => None,
        }
    }
}

/// Emoji offered by the icon picker, with their labels, in order.
pub open spec fn emoji_table() -> Seq<(Seq<char>, Seq<char>)> {
    seq![
        ("🌐"@, "Browser"@), ("📝"@, "Editor"@), ("🎨"@, "Grafica"@),
        ("📁"@, "File"@), ("⬛"@, "Terminale"@), ("⚙️"@, "Impost."@),
        ("📦"@, "App"@), ("🎵"@, "Musica"@), ("🎬"@, "Video"@),
        ("📧"@, "Email"@), ("📅"@, "Calendario"@), ("🔒"@, "Sicurezza"@),
        ("💻"@, "Codice"@), ("📊"@, "Tabelle"@), ("📰"@, "Notizie"@),
        ("🗂️"@, "Archivio"@), ("🖨️"@, "Stampa"@), ("📷"@, "Foto"@),
        ("🗒️"@, "Note"@), ("🔧"@, "Strumenti"@), ("🌍"@, "Mappa"@),
        ("💬"@, "Chat"@), ("📡"@, "Rete"@), ("🎮"@, "Giochi"@),
    ]
}

/// Emoji offered by the icon picker, with their labels.
pub fn emoji_choices() -> (v: Vec<(&'static str, &'static str)>)
    ensures
        v@.map_values(|p: (&'static str, &'static str)| (p.0@, p.1@)) == emoji_table(),
{
    let v = vec![
        ("🌐", "Browser"), ("📝", "Editor"), ("🎨", "Grafica"),
        ("📁", "File"), ("⬛", "Terminale"), ("⚙️", "Impost."),
        ("📦", "App"), ("🎵", "Musica"), ("🎬", "Video"),
        ("📧", "Email"), ("📅", "Calendario"), ("🔒", "Sicurezza"),
        ("💻", "Codice"), ("📊", "Tabelle"), ("📰", "Notizie"),
        ("🗂️", "Archivio"), ("🖨️", "Stampa"), ("📷", "Foto"),
        ("🗒️", "Note"), ("🔧", "Strumenti"), ("🌍", "Mappa"),
        ("💬", "Chat"), ("📡", "Rete"), ("🎮", "Giochi"),
    ];
    assert(v@.map_values(|p: (&'static str, &'static str)| (p.0@, p.1@)) =~= emoji_table());
    v
}

} // verus!

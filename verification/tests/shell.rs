use ai_os::shell::chat::{budget_color, budget_tone, friendly_error, greeting, prompt_to_send, BudgetTone};
use ai_os::shell::config::{default_apps, default_true, AppEntry, UpdateCfg};
use ai_os::shell::onboarding::{Onboarding, OnboardingAction};
use ai_os::shell::panel::{emoji_choices, launch_for, panel_side, split_words, IconAction, Launch, Panel, PanelSide};
use ai_os::shell::settings::{
    add_app, choose_update_output, default_new_app, move_app_up, remove_app, sections, update_display,
    update_failure_report, update_tone, UpdateReport, UpdateTone,
};
use ai_os::shell::theme::{app_color, icon_color, background_color, from_rgb, hex_slices_valid, hex_to_color, icon_letter, Rgb, Theme};

fn app(name: &str, command: &str) -> AppEntry {
    AppEntry {
        name: name.into(),
        icon: "x".into(),
        icon_emoji: "📦".into(),
        command: command.into(),
        pinned: true,
    }
}

#[test]
fn default_configuration() {
    let apps = default_apps();
    assert_eq!(apps.len(), 6);
    assert_eq!(apps[1].name, "Writer");
    assert_eq!(apps[1].command, "libreoffice --writer");
    assert_eq!(apps[5].command, "__settings__");
    assert_eq!(apps[5].icon_emoji, "⚙️");
    let u = UpdateCfg::default();
    assert!(u.auto_check && u.update_url.is_empty());
    assert!(default_true());
    let n = default_new_app();
    assert_eq!((n.name.as_str(), n.icon.as_str(), n.icon_emoji.as_str()), ("", "app", "🖥"));
}

#[test]
fn panel_positions() {
    assert_eq!(panel_side("right"), PanelSide::Right);
    assert_eq!(panel_side("top"), PanelSide::Top);
    assert_eq!(panel_side("bottom"), PanelSide::Bottom);
    assert_eq!(panel_side("left"), PanelSide::Left);
    assert_eq!(panel_side("diagonal"), PanelSide::Left);
}

#[test]
fn words_split_on_white_space() {
    assert_eq!(split_words("  libreoffice \t--writer\n x "), vec!["libreoffice", "--writer", "x"]);
    assert!(split_words(" \u{3000} ").is_empty());
}

#[test]
fn launching_an_icon() {
    match launch_for("libreoffice --writer") {
        Launch::Run { program, args } => {
            assert_eq!(program, "libreoffice");
            assert_eq!(args, vec!["--writer".to_string()]);
        }
        _ => panic!("expected a program"),
    }
    assert!(matches!(launch_for("__settings__"), Launch::OpenSettings));
    assert!(matches!(launch_for("   "), Launch::Nothing));
}

#[test]
fn icon_actions() {
    let mut p = Panel::new();
    let mut settings = false;
    let started = p.handle_action(IconAction::Launch, &app("GIMP", "gimp -n"), &mut settings);
    assert_eq!(started, Some(("gimp".to_string(), vec!["-n".to_string()])));
    assert!(!settings);
    assert_eq!(p.handle_action(IconAction::Launch, &app("S", "__settings__"), &mut settings), None);
    assert!(settings);
    assert_eq!(p.handle_action(IconAction::OpenPicker(4), &app("S", "x"), &mut settings), None);
    assert_eq!(p.picker_for, Some(4));
    assert_eq!(p.picker_target(5), Some(4));
    assert_eq!(p.picker_target(4), None);
    assert_eq!(p.picker_for, None);
}

#[test]
fn accent_colors() {
    assert_eq!(hex_to_color("#7EC8E3"), Some(from_rgb(126, 200, 227)));
    assert_eq!(hex_to_color("##00ff10"), Some(Rgb { r: 0, g: 255, b: 16 }));
    assert_eq!(hex_to_color("+f+f+f"), Some(Rgb { r: 15, g: 15, b: 15 }));
    assert_eq!(hex_to_color("#12345"), None);
    assert_eq!(hex_to_color("zz0000"), None);
    assert_eq!(hex_to_color("-10000"), None);
    assert!(hex_slices_valid("#7EC8E3"));
    assert!(!hex_slices_valid("aéaaa"));
    assert!(hex_slices_valid("éééé"));
    assert_eq!(hex_to_color("ééé"), None);
}

#[test]
fn themes() {
    let dark = Theme::from_config("dark", "#nothex");
    assert_eq!(dark.accent, from_rgb(126, 200, 227));
    assert_eq!(dark.bg, from_rgb(26, 27, 38));
    let light = Theme::from_config("light", "#102030");
    assert_eq!(light.accent, from_rgb(16, 32, 48));
    assert_eq!(light.surface, from_rgb(255, 255, 255));
    let auto = Theme::from_config("auto", "");
    assert_eq!(auto.accent, from_rgb(126, 200, 227));
    assert_eq!(background_color("light"), from_rgb(245, 246, 250));
    assert_eq!(background_color("auto"), from_rgb(26, 27, 38));
}

#[test]
fn letter_icon_colors() {
    assert_eq!(app_color("Chromium"), from_rgb(66, 133, 244));
    assert_eq!(app_color("LibreOffice Calc"), from_rgb(0, 100, 200));
    assert_eq!(app_color("Terminale"), from_rgb(40, 40, 40));
    assert_eq!(app_color("File Manager"), from_rgb(255, 160, 0));
    // "Zed": 90, 101, 100 -> ((90*31)+101)*31+100 = 89721, 89721 % 8 = 1
    assert_eq!(app_color("Zed"), from_rgb(52, 168, 83));
    assert_eq!(icon_letter("gimp"), 'G');
    assert_eq!(icon_letter(""), '?');
    assert_eq!(icon_letter("ßeta"), 'S');
}

#[test]
fn chat_errors_are_explained() {
    assert_eq!(greeting(), "Ciao! Come posso aiutarti?");
    assert_eq!(
        friendly_error("Connection refused (os error 111)"),
        "Il daemon non è in esecuzione.\nAvvialo con:  systemctl --user start ai-daemon\noppure esegui direttamente: ai-daemon"
    );
    assert_eq!(
        friendly_error("Errore API: 401"),
        "Chiave API non valida o mancante.\nConfigurala in: Impostazioni → AI & Budget"
    );
    assert_eq!(friendly_error("Budget mensile esaurito."), "Budget mensile esaurito.");
    assert_eq!(friendly_error("boom"), "Errore: boom");
    assert_eq!(budget_tone(true, true), BudgetTone::Blocked);
    assert_eq!(budget_tone(false, true), BudgetTone::Warning);
    assert_eq!(budget_tone(false, false), BudgetTone::Fine);
}

#[test]
fn prompts_are_trimmed() {
    assert_eq!(prompt_to_send("  ciao \n"), Some("ciao".to_string()));
    assert_eq!(prompt_to_send(" \t "), None);
}

#[test]
fn onboarding_reads_the_api_key() {
    assert!(Onboarding::needs_show(false, ""));
    assert!(Onboarding::needs_show(false, "api_key = \"\"\n"));
    assert!(Onboarding::needs_show(false, "[budget]\n  api_key = ''"));
    assert!(Onboarding::needs_show(false, "api_key"));
    assert!(!Onboarding::needs_show(false, "# c\napi_key = \"sk-ant-1\"\r\napi_key = \"\""));
    assert!(!Onboarding::needs_show(true, ""));
    assert!(!Onboarding::new().dismissed);
}

#[test]
fn onboarding_ignores_comments_after_the_key() {
    assert!(Onboarding::needs_show(false, "api_key = \"\"   # chiave Anthropic\n"));
    assert!(Onboarding::needs_show(false, "api_key = # nothing yet"));
    assert!(!Onboarding::needs_show(false, "api_key = \"sk-ant-1\" # mine"));
}

#[test]
fn onboarding_actions_differ() {
    assert_ne!(OnboardingAction::OpenSettings, OnboardingAction::Dismiss);
    assert_ne!(OnboardingAction::NoAction, OnboardingAction::Dismiss);
}

#[test]
fn application_list_edits() {
    let mut apps = vec![app("A", "a"), app("B", "b"), app("C", "c")];
    move_app_up(&mut apps, 2);
    assert_eq!(apps.iter().map(|a| a.name.as_str()).collect::<Vec<_>>(), vec!["A", "C", "B"]);
    remove_app(&mut apps, 0);
    assert_eq!(apps.iter().map(|a| a.name.as_str()).collect::<Vec<_>>(), vec!["C", "B"]);
    assert!(!add_app(&mut apps, &default_new_app()));
    assert!(add_app(&mut apps, &app("D", "d")));
    assert_eq!(apps.len(), 3);
    assert_eq!(apps[2].command, "d");
}

#[test]
fn update_reports() {
    assert_eq!(sections(), vec!["Aspetto", "Layout", "Applicazioni", "AI & Budget", "Aggiornamenti"]);
    let r = UpdateReport {
        status: Some("update_available".into()),
        message: Some("nuova versione".into()),
        current_version: Some("0.1.0".into()),
        available_version: Some("0.2.0".into()),
    };
    let d = update_display(&Some(r), "raw");
    assert_eq!(d, "[update_available] nuova versione\n  Corrente: 0.1.0  →  Disponibile: 0.2.0");
    assert_eq!(update_tone(&d), UpdateTone::Available);
    let same = UpdateReport {
        status: Some("ok".into()),
        message: None,
        current_version: Some("1".into()),
        available_version: Some("1".into()),
    };
    assert_eq!(update_display(&Some(same), "raw"), "[ok] ");
    assert_eq!(update_display(&None, "plain text"), "plain text");
    assert_eq!(update_tone("[error] x"), UpdateTone::Failed);
    assert_eq!(update_tone("[ok] up to date"), UpdateTone::UpToDate);
    assert_eq!(choose_update_output("  \n", "err"), "err");
    assert_eq!(choose_update_output(" out ", "err"), " out ");
    assert_eq!(
        update_failure_report("not found"),
        "{\"status\":\"error\",\"message\":\"ai-os-update non trovato: not found\",\"current_version\":\"\",\"available_version\":\"\"}"
    );
}

#[test]
fn emoji_picker_table() {
    let v = emoji_choices();
    assert_eq!(v.len(), 24);
    assert_eq!(v[0], ("🌐", "Browser"));
    assert_eq!(v[1], ("📝", "Editor"));
    assert_eq!(v[5], ("⚙️", "Impost."));
    assert_eq!(v[23], ("🎮", "Giochi"));
}

#[test]
fn icon_colors_from_a_lower_case_name() {
    // keywords are looked for in the name as given
    assert_eq!(icon_color("gimp", b"GIMP"), from_rgb(100, 60, 140));
    assert_ne!(icon_color("GIMP", b"GIMP"), from_rgb(100, 60, 140));
    assert_eq!(icon_color("terminale", b"Terminale"), from_rgb(40, 40, 40));
    assert_eq!(app_color("GIMP"), icon_color("gimp", b"GIMP"));
}

#[test]
fn budget_indicator_colors() {
    assert_eq!(budget_color(budget_tone(true, true)), from_rgb(224, 108, 117));
    assert_eq!(budget_color(budget_tone(false, true)), from_rgb(240, 192, 96));
    assert_eq!(budget_color(BudgetTone::Fine), from_rgb(107, 203, 139));
}

#[test]
fn onboarding_answers_dismiss_it() {
    let mut o = Onboarding::new();
    assert_eq!(o.answer(OnboardingAction::NoAction), OnboardingAction::NoAction);
    assert!(!o.dismissed);
    assert!(o.is_shown());
    assert_eq!(o.answer(OnboardingAction::OpenSettings), OnboardingAction::OpenSettings);
    assert!(o.dismissed);
    assert!(!o.is_shown());
    assert_eq!(o.answer(OnboardingAction::NoAction), OnboardingAction::NoAction);
    assert!(!o.is_shown());
}

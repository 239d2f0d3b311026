use ai_os::conversation::{
    build_system_prompt, tool_results, AskError, AskSession, ContentBlock, Step, ToolUse, MAX_TOOL_ITERATIONS,
};

fn block(kind: &str, text: Option<&str>, id: Option<&str>, name: Option<&str>) -> ContentBlock {
    ContentBlock {
        kind: Some(kind.to_string()),
        text: text.map(String::from),
        id: id.map(String::from),
        name: name.map(String::from),
    }
}

#[test]
fn system_prompt_for_linux_with_context() {
    let p = build_system_prompt(Some("Stile di scrittura: breve"), false);
    assert_eq!(
        p,
        "Sei l'assistente AI integrato in AI-OS. Sistema attuale: Linux / Raspberry Pi 4. Browser predefinito: chromium-browser. Puoi aprire applicazioni, gestire file, navigare sul web, eseguire comandi shell e scrivere articoli per il blog. Quando l'utente ti chiede di fare qualcosa sul sistema, usa i tool disponibili — non limitarti a descrivere cosa fare, fallo direttamente. Rispondi sempre in italiano. Sii conciso e pratico.\n\nCONTESTO UTENTE:\nStile di scrittura: breve"
    );
}

#[test]
fn system_prompt_for_macos_without_context() {
    let p = build_system_prompt(None, true);
    assert!(p.starts_with("Sei l'assistente AI integrato in AI-OS. Sistema attuale: macOS (sviluppo)."));
    assert!(p.ends_with("Sii conciso e pratico."));
    assert!(!p.contains("CONTESTO"));
}

#[test]
fn at_most_ten_requests() {
    let mut s = AskSession::new();
    for _ in 0..MAX_TOOL_ITERATIONS {
        assert!(s.begin_request().is_ok());
    }
    match s.begin_request() {
        Err(e) => {
            assert!(matches!(e, AskError::TooManyIterations));
            assert_eq!(e.fixed_message(), Some("Troppi cicli di tool use (10)"));
        }
        Ok(()) => panic!("the eleventh request must be refused"),
    }
}

#[test]
fn end_turn_joins_text_blocks() {
    let mut s = AskSession::new();
    s.begin_request().ok().unwrap();
    let blocks = vec![
        block("text", Some("Primo"), None, None),
        block("tool_use", None, Some("t1"), Some("notify")),
        block("text", Some("Secondo"), None, None),
        block("text", None, None, None),
    ];
    match s.on_reply(10, 5, Some("end_turn"), &blocks) {
        Ok(Step::Finish(t)) => assert_eq!(t, "Primo\nSecondo"),
        _ => panic!("expected the answer"),
    }
    assert_eq!(s.total_in(), 10);
    assert_eq!(s.total_out(), 5);
}

#[test]
fn tool_use_lists_calls() {
    let mut s = AskSession::new();
    let blocks = vec![
        block("text", Some("Ok"), None, None),
        block("tool_use", None, Some("t1"), Some("notify")),
        block("tool_use", None, None, None),
    ];
    match s.on_reply(1, 2, Some("tool_use"), &blocks) {
        Ok(Step::RunTools(uses)) => {
            assert_eq!(uses.len(), 2);
            assert_eq!(uses[0].block, 1);
            assert_eq!(uses[0].id, "t1");
            assert_eq!(uses[0].name, "notify");
            assert_eq!(uses[1].block, 2);
            assert_eq!(uses[1].id, "");
            assert_eq!(uses[1].name, "");
        }
        _ => panic!("expected tool calls"),
    }
    s.on_reply(3, 4, Some("tool_use"), &vec![]).ok().unwrap();
    assert_eq!(s.total_in(), 4);
    assert_eq!(s.total_out(), 6);
}

#[test]
fn other_stop_reasons_fail() {
    let mut s = AskSession::new();
    match s.on_reply(0, 0, Some("max_tokens"), &vec![]) {
        Err(AskError::UnexpectedStop(Some(r))) => assert_eq!(r, "max_tokens"),
        _ => panic!("expected a failure"),
    }
    match s.on_reply(0, 0, None, &vec![]) {
        Err(e) => {
            assert!(matches!(e, AskError::UnexpectedStop(None)));
            assert_eq!(e.fixed_message(), None);
        }
        _ => panic!("expected a failure"),
    }
}

#[test]
fn usage_overflow_is_detected() {
    let mut s = AskSession::new();
    assert!(s.can_add_usage(u32::MAX, 0));
    s.on_reply(u32::MAX - 1, 0, Some("tool_use"), &vec![]).ok().unwrap();
    assert!(s.can_add_usage(1, 7));
    assert!(!s.can_add_usage(2, 0));
}

#[test]
fn context_is_appended_under_its_heading() {
    for mac in [false, true] {
        let base = build_system_prompt(None, mac);
        assert!(base.contains("Rispondi sempre in italiano"));
        assert!(!base.contains("CONTESTO UTENTE"));
        assert_eq!(build_system_prompt(Some("x y"), mac), format!("{base}\n\nCONTESTO UTENTE:\nx y"));
    }
}

#[test]
fn tool_results_pair_ids_with_outcomes() {
    let uses = vec![
        ToolUse { block: 1, id: "tu_1".into(), name: "notify".into() },
        ToolUse { block: 3, id: "tu_2".into(), name: "read_file".into() },
    ];
    let r = tool_results(&uses, vec![Ok("{\"status\":\"ok\"}".into()), Err("path mancante".into())]);
    assert_eq!(r.len(), 2);
    assert_eq!((r[0].tool_use_id.as_str(), r[0].content.as_str(), r[0].is_error), ("tu_1", "{\"status\":\"ok\"}", false));
    assert_eq!((r[1].tool_use_id.as_str(), r[1].content.as_str(), r[1].is_error), ("tu_2", "path mancante", true));
    assert!(tool_results(&vec![], vec![]).is_empty());
}

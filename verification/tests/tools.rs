use ai_os::blog::{ArticleStatus, GhostKeyError};
use ai_os::tool_defs::ParamKind;
use ai_os::tools::{update_flag, update_outcome, UpdateOutcome, BlogTarget, GhostConfig, ToolCall, ToolEngine, ToolError, ToolInput, WpConfig};

fn empty_input() -> ToolInput {
    ToolInput {
        program: None,
        args: None,
        url: None,
        path: None,
        content: None,
        command: None,
        title: None,
        body: None,
        status: None,
        platform: None,
        tags: None,
        action: None,
    }
}

fn s(x: &str) -> Option<String> {
    Some(x.to_string())
}

fn engine() -> ToolEngine {
    ToolEngine::new(
        Some(WpConfig { url: "https://wp.it/".into(), username: "u".into(), app_password: "p".into() }),
        Some(GhostConfig { url: "https://g.io".into(), admin_key: "kid:00ff".into() }),
    )
}

fn err_message(r: Result<ToolCall, ToolError>) -> String {
    match r {
        Err(e) => e.message(),
        Ok(_) => panic!("expected an error"),
    }
}

#[test]
fn launch_app_needs_exec() {
    let e = engine();
    assert_eq!(err_message(e.plan("launch_app", &empty_input())), "exec mancante");
    let mut i = empty_input();
    i.program = s("gimp");
    i.args = Some(vec![s("-n"), None, s("file.png")]);
    match e.plan("launch_app", &i) {
        Ok(ToolCall::LaunchApp { program, args }) => {
            assert_eq!(program, "gimp");
            assert_eq!(args, vec!["-n".to_string(), "file.png".to_string()]);
        }
        _ => panic!("expected a launch"),
    }
}

#[test]
fn missing_arguments_are_named() {
    let e = engine();
    assert_eq!(err_message(e.plan("open_url", &empty_input())), "url mancante");
    assert_eq!(err_message(e.plan("write_file", &empty_input())), "path mancante");
    assert_eq!(err_message(e.plan("read_file", &empty_input())), "path mancante");
    assert_eq!(err_message(e.plan("run_shell", &empty_input())), "command mancante");
}

#[test]
fn unknown_tool_is_refused() {
    let e = engine();
    assert_eq!(err_message(e.plan("format_disk", &empty_input())), "Tool sconosciuto: format_disk");
}

#[test]
fn defaults_fill_optional_arguments() {
    let e = engine();
    match e.plan("notify", &empty_input()) {
        Ok(ToolCall::Notify { title, body }) => {
            assert_eq!(title, "AI-OS");
            assert_eq!(body, "");
        }
        _ => panic!("expected a notification"),
    }
    let mut i = empty_input();
    i.path = s("~/a.md");
    match e.plan("write_file", &i) {
        Ok(ToolCall::WriteFile { path, content }) => {
            assert_eq!(path, "~/a.md");
            assert_eq!(content, "");
        }
        _ => panic!("expected a write"),
    }
}

#[test]
fn update_actions_map_to_flags() {
    assert_eq!(update_flag("apply"), "--apply");
    assert_eq!(update_flag("apply-packages"), "--apply-packages");
    assert_eq!(update_flag("check"), "--check");
    assert_eq!(update_flag("whatever"), "--check");
    match engine().plan("update_system", &empty_input()) {
        Ok(ToolCall::UpdateSystem { flag }) => assert_eq!(flag, "--check"),
        _ => panic!("expected an update"),
    }
}

#[test]
fn publish_blog_defaults_to_wordpress_draft() {
    let e = engine();
    let mut i = empty_input();
    i.tags = Some(vec![s("a"), None]);
    match e.plan("publish_blog", &i) {
        Ok(ToolCall::PublishBlog { article, publish, status, platform, target }) => {
            assert_eq!(article.title, "Senza titolo");
            assert_eq!(article.content, "");
            assert_eq!(article.tags, vec!["a".to_string()]);
            assert_eq!(article.status, ArticleStatus::Draft);
            assert!(!publish);
            assert_eq!(status, "draft");
            assert_eq!(platform, "wordpress");
            match target {
                BlogTarget::WordPressBlog(wp) => assert_eq!(wp.posts_url(), "https://wp.it/wp-json/wp/v2/posts"),
                _ => panic!("expected WordPress"),
            }
        }
        _ => panic!("expected a publication"),
    }
}

#[test]
fn publish_blog_on_ghost() {
    let e = engine();
    let mut i = empty_input();
    i.platform = s("ghost");
    i.status = s("publish");
    i.title = s("T");
    match e.plan("publish_blog", &i) {
        Ok(ToolCall::PublishBlog { article, publish, target, .. }) => {
            assert!(publish);
            assert_eq!(article.status, ArticleStatus::Published);
            match target {
                BlogTarget::GhostBlog(g) => assert_eq!(g.secret_bytes(), &[0x00, 0xff]),
                _ => panic!("expected Ghost"),
            }
        }
        _ => panic!("expected a publication"),
    }
}

#[test]
fn unconfigured_blogs_are_refused() {
    let e = ToolEngine::new(None, None);
    let mut i = empty_input();
    assert_eq!(
        err_message(e.plan("publish_blog", &i)),
        "WordPress non configurato in ~/.config/ai-os/config.toml"
    );
    assert_eq!(err_message(e.plan("list_drafts", &i)), "WordPress non configurato");
    i.platform = s("ghost");
    assert_eq!(err_message(e.plan("publish_blog", &i)), "Ghost non configurato in ~/.config/ai-os/config.toml");
    assert_eq!(err_message(e.plan("list_drafts", &i)), "Ghost non configurato");
}

#[test]
fn malformed_ghost_key_is_refused() {
    let e = ToolEngine::new(None, Some(GhostConfig { url: "https://g.io".into(), admin_key: "nocolon".into() }));
    let mut i = empty_input();
    i.platform = s("ghost");
    match e.plan("list_drafts", &i) {
        Err(ToolError::GhostKey(k)) => assert_eq!(k, GhostKeyError::MissingSeparator),
        _ => panic!("expected a key error"),
    }
    assert_eq!(err_message(e.plan("list_drafts", &i)), "Ghost admin_key deve avere il formato 'id:hex_secret'");
}

#[test]
fn offered_tools_are_all_planned() {
    let defs = ToolEngine::tool_definitions();
    let names: Vec<&str> = defs.iter().map(|d| d.name.as_str()).collect();
    assert_eq!(
        names,
        vec![
            "launch_app", "open_url", "write_file", "read_file", "run_shell", "notify", "publish_blog",
            "list_drafts", "update_system"
        ]
    );
    let e = engine();
    for d in &defs {
        let r = e.plan(&d.name, &empty_input());
        assert!(!matches!(r, Err(ToolError::UnknownTool(_))));
    }
}

#[test]
fn refused_fields_are_listed_as_required() {
    let defs = ToolEngine::tool_definitions();
    let e = engine();
    for d in &defs {
        if let Err(ToolError::MissingArgument(m)) = e.plan(&d.name, &empty_input()) {
            let field = m.strip_suffix(" mancante").unwrap();
            assert!(d.required.as_ref().unwrap().iter().any(|r| r == field), "{} {}", d.name, m);
        }
    }
}

#[test]
fn tool_schemas() {
    let defs = ToolEngine::tool_definitions();
    let publish = &defs[6];
    assert_eq!(publish.params.len(), 5);
    assert_eq!(publish.params[2].name, "status");
    assert_eq!(publish.params[2].allowed, vec!["draft".to_string(), "publish".to_string()]);
    assert_eq!(publish.params[4].kind, ParamKind::TextList);
    assert_eq!(
        publish.required,
        Some(vec!["title".to_string(), "content".to_string(), "status".to_string()])
    );
    assert!(defs[7].required.is_none());
    assert_eq!(defs[5].description, "Mostra una notifica di sistema all'utente.");
}

#[test]
fn update_script_outcomes() {
    assert!(matches!(update_outcome(true, "{\"status\":\"up_to_date\"}", ""), UpdateOutcome::Report));
    assert!(matches!(update_outcome(false, " [1, 2] ", "warn"), UpdateOutcome::Report));
    match update_outcome(false, "not json ", "boom") {
        UpdateOutcome::Fallback { status, message } => {
            assert_eq!(status, "error");
            assert_eq!(message, "not json boom");
        }
        UpdateOutcome::Report => panic!("expected a fallback"),
    }
    match update_outcome(true, "", "") {
        UpdateOutcome::Fallback { status, message } => {
            assert_eq!(status, "ok");
            assert_eq!(message, "");
        }
        UpdateOutcome::Report => panic!("expected a fallback"),
    }
}

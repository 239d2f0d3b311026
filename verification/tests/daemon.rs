use ai_os::daemon::{
    after_answer, Answered,
    default_true, dispatch, ghost_tool_config, ClientRequest, Dispatch, refusal, wordpress_tool_config, BudgetCalendar, GhostCfg, Rollover,
    WordPressConfig,
};
use ai_os::model::Model;
use ai_os::router::TaskRouter;

#[test]
fn blogs_need_an_address() {
    let wp = WordPressConfig { url: String::new(), username: "u".into(), app_password: "p".into() };
    assert!(wordpress_tool_config(Some(&wp)).is_none());
    assert!(wordpress_tool_config(None).is_none());
    let wp = WordPressConfig { url: "https://x".into(), username: "u".into(), app_password: "p".into() };
    let c = wordpress_tool_config(Some(&wp)).unwrap();
    assert_eq!((c.url.as_str(), c.username.as_str(), c.app_password.as_str()), ("https://x", "u", "p"));
}

#[test]
fn ghost_needs_address_and_key() {
    let g = GhostCfg { url: "https://g".into(), admin_key: String::new() };
    assert!(ghost_tool_config(Some(&g)).is_none());
    let g = GhostCfg { url: String::new(), admin_key: "a:b".into() };
    assert!(ghost_tool_config(Some(&g)).is_none());
    let g = GhostCfg { url: "https://g".into(), admin_key: "a:b".into() };
    let c = ghost_tool_config(Some(&g)).unwrap();
    assert_eq!(c.admin_key, "a:b");
}

#[test]
fn counters_roll_over_by_day_and_month() {
    let mut c = BudgetCalendar::new(14, 3);
    assert_eq!(c.roll(14, 3), Rollover::Keep);
    assert_eq!(c.roll(15, 3), Rollover::NewDay);
    assert_eq!(c.today_day, 15);
    assert_eq!(c.roll(15, 4), Rollover::NewMonth);
    assert_eq!((c.today_day, c.today_month), (15, 4));
    assert_eq!(c.roll(15, 4), Rollover::Keep);
    // same day number in another month is still a new month
    assert_eq!(c.roll(15, 5), Rollover::NewMonth);
}

#[test]
fn blocked_budget_refuses_questions() {
    assert_eq!(refusal(true), Some("Budget mensile esaurito. Aggiorna il limite in Impostazioni."));
    assert_eq!(refusal(false), None);
    assert!(default_true());
}

#[test]
fn messages_are_dispatched() {
    let r = TaskRouter::new();
    assert!(matches!(dispatch(&r, &ClientRequest::Ping, true), Dispatch::Pong));
    assert!(matches!(dispatch(&r, &ClientRequest::GetBudget, true), Dispatch::Budget));
    let ask = ClientRequest::Ask { prompt: "scrivi un post".into() };
    match dispatch(&r, &ask, true) {
        Dispatch::Refuse(m) => assert_eq!(m, "Budget mensile esaurito. Aggiorna il limite in Impostazioni."),
        _ => panic!("expected a refusal"),
    }
    match dispatch(&r, &ask, false) {
        Dispatch::Answer(m) => assert_eq!(m, Model::Sonnet),
        _ => panic!("expected an answer"),
    }
}

#[test]
fn answers_are_charged_and_remembered_failures_are_not() {
    let a = after_answer(Answered::Reply { tokens_in: 12, tokens_out: 34, text: "fatto".into() });
    assert_eq!(a.spend, Some((12, 34)));
    assert_eq!(a.remember.as_deref(), Some("fatto"));
    assert!(a.error.is_none());
    let f = after_answer(Answered::Failure("rete assente".into()));
    assert!(f.spend.is_none() && f.remember.is_none());
    assert_eq!(f.error.as_deref(), Some("rete assente"));
}

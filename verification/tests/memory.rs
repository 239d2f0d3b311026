use ai_os::memory::{Memory, Session, UserProfile};

#[test]
fn session_keeps_ten_most_recent() {
    let mut s = Session::new();
    for i in 0..12 {
        s.add(&format!("azione {i}"));
    }
    assert_eq!(s.recent_actions.len(), 10);
    assert_eq!(s.recent_actions[0], "azione 2");
    assert_eq!(s.recent_actions[9], "azione 11");
}

#[test]
fn session_cuts_actions_to_eighty_characters() {
    let mut s = Session::new();
    let long = "è".repeat(100);
    s.add(&long);
    assert_eq!(s.recent_actions[0].chars().count(), 80);
    assert_eq!(s.recent_actions[0], "è".repeat(80));
    s.add("breve");
    assert_eq!(s.recent_actions[1], "breve");
}

#[test]
fn context_is_absent_when_nothing_is_known() {
    let m = Memory::with_profile(UserProfile { writing_style: String::new(), blog_platform: String::new() });
    assert_eq!(m.relevant_context("x"), None);
}

#[test]
fn context_lists_profile_and_recent_actions() {
    let mut m = Memory::with_profile(UserProfile {
        writing_style: "ironico".to_string(),
        blog_platform: String::new(),
    });
    assert_eq!(m.relevant_context("x").as_deref(), Some("Stile di scrittura: ironico"));
    m.record_interaction("apri gimp");
    m.record_interaction("scrivi post");
    assert_eq!(
        m.relevant_context("x").as_deref(),
        Some("Stile di scrittura: ironico\nAzioni recenti in sessione: apri gimp, scrivi post")
    );
    let m2 = Memory::with_profile(UserProfile {
        writing_style: "breve".to_string(),
        blog_platform: "ghost".to_string(),
    });
    assert_eq!(m2.relevant_context("y").as_deref(), Some("Stile di scrittura: breve\nPiattaforma blog: ghost"));
}

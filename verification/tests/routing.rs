use ai_os::model::Model;
use ai_os::router::TaskRouter;

#[test]
fn writing_prompts_use_sonnet() {
    let r = TaskRouter::new();
    assert_eq!(r.classify("Scrivi un articolo sul Raspberry Pi"), Model::Sonnet);
    assert_eq!(r.classify("explain closures"), Model::Sonnet);
}

#[test]
fn reasoning_prompts_use_opus() {
    let r = TaskRouter::new();
    assert_eq!(r.classify("Progetta l'architettura del backend"), Model::Opus);
    assert_eq!(r.classify("give me a ROADMAP"), Model::Opus);
}

#[test]
fn short_commands_use_haiku() {
    let r = TaskRouter::new();
    assert_eq!(r.classify("apri firefox"), Model::Haiku);
    assert_eq!(r.classify(""), Model::Haiku);
}

#[test]
fn long_prompts_use_opus() {
    let r = TaskRouter::new();
    let p = "a".repeat(801);
    assert_eq!(r.classify(&p), Model::Opus);
    let p = "a".repeat(800);
    assert_eq!(r.classify(&p), Model::Sonnet);
}

#[test]
fn medium_prompts_use_sonnet() {
    let r = TaskRouter::new();
    assert_eq!(r.classify(&"a".repeat(201)), Model::Sonnet);
    assert_eq!(r.classify(&"a".repeat(200)), Model::Haiku);
}

#[test]
fn long_limit_counts_characters_medium_limit_bytes() {
    let r = TaskRouter::new();
    // 101 characters of two bytes each: 202 bytes.
    assert_eq!(r.classify(&"é".repeat(101)), Model::Sonnet);
    // 401 characters of two bytes each: 802 bytes, but only 401 characters.
    assert_eq!(r.classify(&"è".repeat(401)), Model::Sonnet);
    // 801 characters of two bytes each.
    assert_eq!(r.classify(&"è".repeat(801)), Model::Opus);
}

#[test]
fn route_uses_given_length() {
    let r = TaskRouter::new();
    assert_eq!(r.route("ciao", 900, 900), Model::Opus);
    assert_eq!(r.route("ciao", 300, 900), Model::Sonnet);
    assert_eq!(r.route("ciao", 300, 300), Model::Sonnet);
    assert_eq!(r.route("ciao", 3, 3), Model::Haiku);
    // keywords are matched as given: the lower-casing happens before
    assert_eq!(r.route("SCRIVI", 6, 6), Model::Haiku);
}

#[test]
fn model_limits_and_names() {
    assert_eq!(Model::Haiku.max_tokens(), 512);
    assert_eq!(Model::Sonnet.max_tokens(), 4096);
    assert_eq!(Model::Opus.max_tokens(), 8192);
    assert_eq!(Model::Haiku.display_name(), "Haiku");
    assert_eq!(Model::Sonnet.display_name(), "Sonnet");
    assert_eq!(Model::Opus.display_name(), "Opus");
}

use ai_os::blog::{
    markdown_to_mobiledoc, new_ghost, trim_trailing_slashes, Article, ArticleStatus, GhostKeyError,
    GhostPublisher, TagIds, WordPressPublisher,
};

fn article() -> Article {
    Article {
        title: "Titolo".to_string(),
        content: "# Ciao\n\n~~via~~".to_string(),
        tags: vec!["rust".to_string(), "pi".to_string()],
        status: ArticleStatus::Draft,
    }
}

#[test]
fn trailing_slashes_are_removed() {
    assert_eq!(trim_trailing_slashes("https://blog.it///"), "https://blog.it");
    assert_eq!(trim_trailing_slashes("https://blog.it"), "https://blog.it");
    assert_eq!(trim_trailing_slashes("///"), "");
}

#[test]
fn wordpress_basic_auth_header() {
    let wp = WordPressPublisher::new("https://blog.it/", "user", "pass");
    assert_eq!(wp.auth_header(), "Basic dXNlcjpwYXNz");
    let wp2 = WordPressPublisher::new("https://blog.it", "admin", "ab cd");
    assert_eq!(wp2.auth_header(), "Basic YWRtaW46YWIgY2Q=");
}

#[test]
fn wordpress_endpoints() {
    let wp = WordPressPublisher::new("https://blog.it/", "u", "p");
    assert_eq!(wp.posts_url(), "https://blog.it/wp-json/wp/v2/posts");
    assert_eq!(wp.drafts_url(), "https://blog.it/wp-json/wp/v2/posts?status=draft&per_page=20");
    assert_eq!(wp.tag_search_url("rust"), "https://blog.it/wp-json/wp/v2/tags?search=rust");
    assert_eq!(wp.tags_url(), "https://blog.it/wp-json/wp/v2/tags");
}

#[test]
fn wordpress_body_renders_markdown() {
    let wp = WordPressPublisher::new("https://blog.it", "u", "p");
    let b = wp.post_body(&article(), "publish", vec![3, 7]);
    assert_eq!(b.title, "Titolo");
    assert_eq!(b.content, "<h1>Ciao</h1>\n<p><del>via</del></p>\n");
    assert_eq!(b.status, "publish");
    assert_eq!(b.tags, vec![3, 7]);
    assert_eq!(b.format, "standard");
}

#[test]
fn tag_ids_collect_found_and_created() {
    let mut t = TagIds::new();
    let hits = vec![(7, "rustacean".to_string()), (4, "rust".to_string())];
    assert!(!t.found("rust", &hits));
    // only a tag with exactly the name searched for counts
    assert!(t.found("rus", &hits));
    t.created(Some(9));
    assert!(t.found("linux", &vec![]));
    t.created(None);
    assert_eq!(t.ids, vec![4, 9]);
}

#[test]
fn tag_search_needs_the_exact_name() {
    let mut t = TagIds::new();
    let hits = vec![(7, "rustacean".to_string())];
    assert!(t.found("rust", &hits));
    t.created(Some(9));
    assert_eq!(t.ids, vec![9]);
}

#[test]
fn ghost_key_is_split_and_decoded() {
    let g = GhostPublisher::new("https://g.io/", "abc:0aFF10").ok().unwrap();
    assert_eq!(g.key_id_string(), "abc");
    assert_eq!(g.secret_bytes(), &[0x0a, 0xff, 0x10]);
    assert_eq!(g.posts_url(), "https://g.io/ghost/api/admin/posts/");
    assert_eq!(g.drafts_url(), "https://g.io/ghost/api/admin/posts/?filter=status:draft&fields=title");
    // only the first colon separates
    let g2 = new_ghost("https://g.io", "id:ab:cd").err();
    assert_eq!(g2, Some(GhostKeyError::InvalidSecret));
}

#[test]
fn ghost_key_errors() {
    assert_eq!(GhostPublisher::new("u", "nocolon").err(), Some(GhostKeyError::MissingSeparator));
    assert_eq!(GhostPublisher::new("u", "id:abc").err(), Some(GhostKeyError::InvalidSecret));
    assert_eq!(GhostPublisher::new("u", "id:zz").err(), Some(GhostKeyError::InvalidSecret));
    assert_eq!(
        GhostKeyError::MissingSeparator.message(),
        "Ghost admin_key deve avere il formato 'id:hex_secret'"
    );
    assert_eq!(GhostKeyError::InvalidSecret.message(), "Ghost admin_key: la parte secret non è hex valido");
    let empty = GhostPublisher::new("u", "id:").ok().unwrap();
    assert_eq!(empty.secret_bytes(), &[] as &[u8]);
}

#[test]
fn ghost_claims_last_five_minutes() {
    let c = GhostPublisher::claims(1_000);
    assert_eq!(c.iat, 1_000);
    assert_eq!(c.exp, 1_300);
    assert_eq!(c.aud, "/admin/");
    assert_eq!(GhostPublisher::authorization("tok"), "Ghost tok");
}

#[test]
fn mobiledoc_wraps_markdown() {
    assert_eq!(
        markdown_to_mobiledoc("a \"b\"\n\\"),
        "{\"atoms\":[],\"cards\":[[\"markdown\",{\"markdown\":\"a \\\"b\\\"\\n\\\\\"}]],\"markups\":[],\"sections\":[[10,0]],\"version\":\"0.3.1\"}"
    );
    let doc = markdown_to_mobiledoc("x\u{1}");
    let v: serde_json::Value = serde_json::from_str(&doc).unwrap();
    assert_eq!(v["cards"][0][1]["markdown"], "x\u{1}");
    assert!(doc.contains("\\u0001"));
}

#[test]
fn ghost_body_carries_article() {
    let b = GhostPublisher::post_body(&article(), "published");
    assert_eq!(b.title, "Titolo");
    assert_eq!(b.status, "published");
    assert_eq!(b.tags, vec!["rust".to_string(), "pi".to_string()]);
    assert_eq!(b.mobiledoc, markdown_to_mobiledoc("# Ciao\n\n~~via~~"));
}

#[test]
fn ghost_token_is_signed_with_the_admin_key() {
    let g = GhostPublisher::new("https://g.io/", "abc:0aFF10").ok().unwrap();
    let token = g.jwt_token(1000);
    let header = jsonwebtoken::decode_header(&token).unwrap();
    assert_eq!(header.alg, jsonwebtoken::Algorithm::HS256);
    assert_eq!(header.kid.as_deref(), Some("abc"));
    let mut validation = jsonwebtoken::Validation::new(jsonwebtoken::Algorithm::HS256);
    validation.validate_exp = false;
    validation.set_audience(&["/admin/"]);
    let data = jsonwebtoken::decode::<serde_json::Value>(
        &token,
        &jsonwebtoken::DecodingKey::from_secret(&[0x0a, 0xff, 0x10]),
        &validation,
    )
    .unwrap();
    assert_eq!(data.claims["iat"], 1000);
    assert_eq!(data.claims["exp"], 1300);
    assert_eq!(data.claims["aud"], "/admin/");
    // a different secret does not verify
    let wrong = jsonwebtoken::decode::<serde_json::Value>(
        &token,
        &jsonwebtoken::DecodingKey::from_secret(&[0x0a, 0xff, 0x11]),
        &validation,
    );
    assert!(wrong.is_err());
}

#[test]
fn tag_lookup_takes_exact_names_only() {
    let mut t = TagIds::new();
    let hits = vec![(1, "Rust".to_string()), (2, "rust".to_string())];
    assert!(!t.found("rust", &hits));
    assert_eq!(t.ids, vec![2]);
}

#[test]
fn mobiledoc_reads_back_the_markdown() {
    for md in ["# Titolo\n\n\"citato\" \\ fine", "tab\tbell\u{7}", "", "é 🎮"] {
        let v: serde_json::Value = serde_json::from_str(&markdown_to_mobiledoc(md)).unwrap();
        assert_eq!(v["cards"][0][1]["markdown"], md);
        assert_eq!(v["version"], "0.3.1");
        assert_eq!((v["sections"][0][0].as_u64(), v["sections"][0][1].as_u64()), (Some(10), Some(0)));
    }
}

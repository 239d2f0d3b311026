//! Blog publishing: articles, and the requests sent to WordPress and Ghost.
use vstd::prelude::*;
use crate::text::{chars_of, concat2, concat3, same_text};

verus! {

/// A blog article.
#[derive(Clone, Debug)]
pub struct Article {
    pub title: String,
    /// Markdown body.
    pub content: String,
    pub tags: Vec<String>,
    pub status: ArticleStatus,
}

#[derive(Clone, Copy, Debug, PartialEq, Eq, Structural)]
pub enum ArticleStatus {
    Draft,
    Published,
}

/// `s` with every trailing `c` removed.
pub open spec fn strip_trailing(s: Seq<char>, c: char) -> Seq<char>
    decreases s.len(),
{
    if s.len() > 0 && s.last() == c {
        strip_trailing(s.drop_last(), c)
    } else {
        s
    }
}

/// Removing trailing characters twice removes nothing more.
pub proof fn lemma_strip_trailing_idempotent(s: Seq<char>, c: char)
    ensures
        strip_trailing(strip_trailing(s, c), c) == strip_trailing(s, c),
    decreases s.len(),
{
    if s.len() > 0 && s.last() == c {
        lemma_strip_trailing_idempotent(s.drop_last(), c);
    }
}

/// A site address without its trailing slashes.
pub fn trim_trailing_slashes(url: &str) -> (r: String)
    ensures
        r@ == strip_trailing(url@, '/'),
{
    let n = url.unicode_len();
    let mut end: usize = n;
    assert(url@.subrange(0, n as int) =~= url@);
    while end > 0 && url.get_char(end - 1) == '/'
        invariant
            n == url@.len(),
            end <= n,
            strip_trailing(url@.subrange(0, end as int), '/') == strip_trailing(url@, '/'),
        decreases end,
    {
        assert(url@.subrange(0, end as int).drop_last() =~= url@.subrange(0, end - 1));
        end = end - 1;
    }
    proof {
        let t = url@.subrange(0, end as int);
        if end > 0 {
            assert(t.last() == url@[end - 1]);
        }
        assert(strip_trailing(t, '/') == t);
    }
    String::from_str(url.substring_char(0, end))
}

// ---------------------------------------------------------------- hex

/// Value of an ASCII hexadecimal digit.
pub open spec fn hex_digit_value(b: u8) -> Option<u8> {
    if 0x30 <= b <= 0x39 {
        Some((b - 0x30) as u8)
    } else if 0x61 <= b <= 0x66 {
        Some((b - 0x61 + 10) as u8)
    } else if 0x41 <= b <= 0x46 {
        Some((b - 0x41 + 10) as u8)
    } else {
        None
    }
}

/// `d` is an even number of hexadecimal digits.
pub open spec fn hex_decodable(d: Seq<u8>) -> bool {
    &&& d.len() % 2 == 0
    &&& forall|i: int| 0 <= i < d.len() ==> (#[trigger] hex_digit_value(d[i])) is Some
}

/// The bytes written by the hexadecimal digits `d`, two digits per byte.
pub open spec fn hex_decoded(d: Seq<u8>) -> Seq<u8> {
    Seq::new(
        d.len() / 2,
        |i: int| (hex_digit_value(d[2 * i])->0 * 16 + hex_digit_value(d[2 * i + 1])->0) as u8,
    )
}

#[verifier::external_type_specification]
#[verifier::external_body]
pub struct ExFromHexError(hex::FromHexError);

/// Calls `hex::decode`: it fails on an odd length or on a byte that is not a
/// hexadecimal digit, and otherwise turns each pair of digits into a byte.
#[verifier::external_body]
fn hex_decode(data: &[u8]) -> (r: Result<Vec<u8>, hex::FromHexError>)
    ensures
        r is Ok <==> hex_decodable(data@),
        r matches Ok(v) ==> v@ == hex_decoded(data@),
{
    hex::decode(data)
}

// ---------------------------------------------------------------- base64

/// Character of the standard base64 alphabet for a six-bit value.
pub open spec fn b64_char(v: int) -> char {
    if 0 <= v < 26 {
        (0x41 + v) as char
    } else if 26 <= v < 52 {
        (0x61 + v - 26) as char
    } else if 52 <= v < 62 {
        (0x30 + v - 52) as char
    } else if v == 62 {
        '+'
    } else {
        '/'
    }
}

/// Standard base64 with `=` padding, three bytes to four characters.
pub open spec fn base64_standard(d: Seq<u8>) -> Seq<char>
    decreases d.len(),
{
    if d.len() == 0 {
        Seq::empty()
    } else {
        let a = d[0] as int;
        let b = if d.len() > 1 { d[1] as int } else { 0 };
        let c = if d.len() > 2 { d[2] as int } else { 0 };
        if d.len() == 1 {
            seq![b64_char(a / 4), b64_char((a % 4) * 16), '=', '=']
        } else if d.len() == 2 {
            seq![b64_char(a / 4), b64_char((a % 4) * 16 + b / 16), b64_char((b % 16) * 4), '=']
        } else {
            seq![
                b64_char(a / 4),
                b64_char((a % 4) * 16 + b / 16),
                b64_char((b % 16) * 4 + c / 64),
                b64_char(c % 64),
            ] + base64_standard(d.subrange(3, d.len() as int))
        }
    }
}

/// Calls `base64::engine::general_purpose::STANDARD.encode`: standard
/// alphabet, padded. The encoder panics only when the output length
/// overflows `usize`, which the bound on the input rules out.
#[verifier::external_body]
fn base64_encode(data: &[u8]) -> (r: String)
    requires
        data@.len() <= usize::MAX / 2,
    ensures
        r@ == base64_standard(data@),
{
    base64::Engine::encode(&base64::engine::general_purpose::STANDARD, data)
}

// ---------------------------------------------------------------- markdown

/// HTML that pulldown-cmark renders from a Markdown text, with
/// strikethrough, tables and footnotes enabled.
pub uninterp spec fn markdown_html(md: Seq<char>) -> Seq<char>;

/// Calls `pulldown_cmark::Parser::new_ext` (strikethrough, tables,
/// footnotes) and `pulldown_cmark::html::push_html` into an empty string.
#[verifier::external_body]
fn markdown_to_html(md: &str) -> (r: String)
    ensures
        r@ == markdown_html(md@),
{
    let mut options = pulldown_cmark::Options::empty();
    options.insert(pulldown_cmark::Options::ENABLE_STRIKETHROUGH);
    options.insert(pulldown_cmark::Options::ENABLE_TABLES);
    options.insert(pulldown_cmark::Options::ENABLE_FOOTNOTES);
    let parser = pulldown_cmark::Parser::new_ext(md, options);
    let mut html_output = String::new();
    pulldown_cmark::html::push_html(&mut html_output, parser);
    html_output
}

// ---------------------------------------------------------------- JSON strings

/// A string as a JSON string literal, escaped as serde_json does: quotes
/// and backslashes get a backslash, `\b \t \n \f \r` their short forms,
/// other control characters `\u00XX` with lower-case digits.
pub open spec fn json_quoted(s: Seq<char>) -> Seq<char> {
    seq!['"'] + json_escaped(s) + seq!['"']
}

pub open spec fn lower_hex_digit(v: int) -> char {
    if v < 10 { (0x30 + v) as char } else { (0x61 + v - 10) as char }
}

pub open spec fn json_escape_char(c: char) -> Seq<char> {
    if c == '"' {
        seq!['\\', '"']
    } else if c == '\\' {
        seq!['\\', '\\']
    } else if c == '\u{8}' {
        seq!['\\', 'b']
    } else if c == '\t' {
        seq!['\\', 't']
    } else if c == '\n' {
        seq!['\\', 'n']
    } else if c == '\u{c}' {
        seq!['\\', 'f']
    } else if c == '\r' {
        seq!['\\', 'r']
    } else if (c as u32) < 0x20 {
        seq!['\\', 'u', '0', '0', lower_hex_digit((c as u32) as int / 16), lower_hex_digit((c as u32) as int % 16)]
    } else {
        seq![c]
    }
}

pub open spec fn json_escaped(s: Seq<char>) -> Seq<char>
    decreases s.len(),
{
    if s.len() == 0 {
        Seq::empty()
    } else {
        json_escape_char(s[0]) + json_escaped(s.drop_first())
    }
}

/// Value of a hexadecimal digit, or -1 for any other character.
pub open spec fn hex_value(c: char) -> int {
    let v = c as u32;
    if 0x30 <= v <= 0x39 {
        v - 0x30
    } else if 0x61 <= v <= 0x66 {
        v - 0x61 + 10
    } else if 0x41 <= v <= 0x46 {
        v - 0x41 + 10
    } else {
        -1
    }
}

/// The character a one-letter JSON escape `\e` stands for.
pub open spec fn short_escape(e: char) -> Option<char> {
    if e == '"' {
        Some('"')
    } else if e == '\\' {
        Some('\\')
    } else if e == '/' {
        Some('/')
    } else if e == 'b' {
        Some('\u{8}')
    } else if e == 'f' {
        Some('\u{c}')
    } else if e == 'n' {
        Some('\n')
    } else if e == 'r' {
        Some('\r')
    } else if e == 't' {
        Some('\t')
    } else {
        None
    }
}

/// The code point of a `\uXXXX` escape whose four digits are `t[2..6]`.
pub open spec fn unicode_escape_value(t: Seq<char>) -> int {
    hex_value(t[2]) * 0x1000 + hex_value(t[3]) * 0x100 + hex_value(t[4]) * 0x10 + hex_value(t[5])
}

/// The characters that the inside of a JSON string literal stands for
/// (RFC 8259, section 7), or `None` when it is not a valid string body: an
/// unescaped quote or control character, or an unknown escape. Escapes of
/// UTF-16 surrogates are not decoded here (they are refused).
pub open spec fn json_unescape(t: Seq<char>) -> Option<Seq<char>>
    decreases t.len(),
{
    if t.len() == 0 {
        Some(Seq::empty())
    } else if t[0] == '\\' {
        if t.len() < 2 {
            None
        } else {
            match short_escape(t[1]) {
                Some(c) => match json_unescape(t.subrange(2, t.len() as int)) {
                    Some(r) => Some(seq![c] + r),
                    None => None,
                },
                None => if t[1] == 'u' && t.len() >= 6 && hex_value(t[2]) >= 0 && hex_value(t[3]) >= 0
                    && hex_value(t[4]) >= 0 && hex_value(t[5]) >= 0
                    && (unicode_escape_value(t) < 0xD800 || unicode_escape_value(t) >= 0xE000) {
                    match json_unescape(t.subrange(6, t.len() as int)) {
                        Some(r) => Some(seq![unicode_escape_value(t) as char] + r),
                        None => None,
                    }
                } else {
                    None
                },
            }
        }
    } else if t[0] == '"' || (t[0] as u32) < 0x20 {
        None
    } else {
        match json_unescape(t.drop_first()) {
            Some(r) => Some(seq![t[0]] + r),
            None => None,
        }
    }
}

/// The text a JSON string literal stands for, or `None` when `t` is not
/// one.
pub open spec fn json_string_value(t: Seq<char>) -> Option<Seq<char>> {
    if t.len() >= 2 && t[0] == '"' && t.last() == '"' {
        json_unescape(t.subrange(1, t.len() - 1))
    } else {
        None
    }
}

proof fn lemma_unescape_escaped_char(c: char, rest: Seq<char>)
    ensures
        json_unescape(json_escape_char(c) + rest) == (match json_unescape(rest) {
            Some(r) => Some(seq![c] + r),
            None => None,
        }),
{
    let t = json_escape_char(c) + rest;
    let n = json_escape_char(c).len();
    assert(t.subrange(n as int, t.len() as int) =~= rest);
    if (c as u32) < 0x20 && c != '\u{8}' && c != '\t' && c != '\n' && c != '\u{c}' && c != '\r' {
        let v = (c as u32) as int;
        assert(t[2] == '0' && t[3] == '0');
        assert(t[4] == lower_hex_digit(v / 16) && t[5] == lower_hex_digit(v % 16));
        assert(hex_value(t[4]) == v / 16);
        assert(hex_value(t[5]) == v % 16);
        assert(unicode_escape_value(t) == v);
        assert((v as char) == c);
    } else if c != '"' && c != '\\' && (c as u32) >= 0x20 {
        assert(t.drop_first() =~= rest);
    }
}

proof fn lemma_unescape_escaped(s: Seq<char>)
    ensures
        json_unescape(json_escaped(s)) == Some(s),
    decreases s.len(),
{
    if s.len() > 0 {
        lemma_unescape_escaped(s.drop_first());
        lemma_unescape_escaped_char(s[0], json_escaped(s.drop_first()));
        assert(seq![s[0]] + s.drop_first() =~= s);
    } else {
        assert(json_escaped(s) =~= Seq::<char>::empty());
    }
}

/// Read back as a JSON string, a quoted text is the text itself.
pub proof fn lemma_json_quoted_reads_back(s: Seq<char>)
    ensures
        json_string_value(json_quoted(s)) == Some(s),
{
    let q = json_quoted(s);
    assert(q.subrange(1, q.len() - 1) =~= json_escaped(s));
    lemma_unescape_escaped(s);
}

/// The markdown card of the Mobiledoc document holds the Markdown text:
/// the document is the fixed frame around a JSON string literal which,
/// read back, is exactly that text.
pub proof fn lemma_mobiledoc_holds_markdown(md: Seq<char>)
    ensures
        mobiledoc_of(md) == "{\"atoms\":[],\"cards\":[[\"markdown\",{\"markdown\":"@ + json_quoted(md)
            + "}]],\"markups\":[],\"sections\":[[10,0]],\"version\":\"0.3.1\"}"@,
        json_string_value(json_quoted(md)) == Some(md),
{
    lemma_json_quoted_reads_back(md);
}

/// Calls `serde_json::to_string` on a string slice, which cannot fail.
#[verifier::external_body]
fn json_quote(s: &str) -> (r: String)
    ensures
        r@ == json_quoted(s@),
{
    serde_json::to_string(s).unwrap_or_default()
}

/// The Mobiledoc document that wraps a Markdown text in one markdown card,
/// with its keys in the order serde_json writes them.
pub open spec fn mobiledoc_of(md: Seq<char>) -> Seq<char> {
    "{\"atoms\":[],\"cards\":[[\"markdown\",{\"markdown\":"@ + json_quoted(md)
        + "}]],\"markups\":[],\"sections\":[[10,0]],\"version\":\"0.3.1\"}"@
}

/// Minimal Mobiledoc holding the Markdown text as a markdown card.
pub fn markdown_to_mobiledoc(md: &str) -> (r: String)
    ensures
        r@ == mobiledoc_of(md@),
{
    let q = json_quote(md);
    concat3(
        "{\"atoms\":[],\"cards\":[[\"markdown\",{\"markdown\":",
        q.as_str(),
        "}]],\"markups\":[],\"sections\":[[10,0]],\"version\":\"0.3.1\"}",
    )
}

// ---------------------------------------------------------------- WordPress

/// Body of a WordPress post creation request.
pub struct WpPostBody {
    pub title: String,
    /// The article rendered to HTML.
    pub content: String,
    pub status: String,
    pub tags: Vec<u64>,
    pub format: String,
}

/// Publishes through the WordPress REST API with an application password.
pub struct WordPressPublisher {
    base_url: String,
    username: String,
    app_password: String,
}

/// Bytes of the UTF-8 encoding of `s`.
pub open spec fn utf8(s: Seq<char>) -> Seq<u8> {
    vstd::utf8::encode_utf8(s)
}

impl WordPressPublisher {
    pub closed spec fn base_url(&self) -> Seq<char> {
        self.base_url@
    }

    pub closed spec fn username(&self) -> Seq<char> {
        self.username@
    }

    pub closed spec fn app_password(&self) -> Seq<char> {
        self.app_password@
    }

    pub fn new(base_url: &str, username: &str, app_password: &str) -> (p: Self)
        ensures
            p.base_url() == strip_trailing(base_url@, '/'),
            p.username() == username@,
            p.app_password() == app_password@,
    {
        WordPressPublisher {
            base_url: trim_trailing_slashes(base_url),
            username: String::from_str(username),
            app_password: String::from_str(app_password),
        }
    }

    /// Whether the credentials are short enough to be encoded (longer ones
    /// make the encoder panic).
    pub fn credentials_fit(&self) -> (ok: bool)
        ensures
            ok == (utf8(self.username() + ":"@ + self.app_password()).len() <= usize::MAX / 2),
    {
        let cred = concat3(self.username.as_str(), ":", self.app_password.as_str());
        cred.as_str().as_bytes().len() <= usize::MAX / 2
    }

    /// HTTP Basic credentials: `user:password` in base64.
    pub fn auth_header(&self) -> (h: String)
        requires
            utf8(self.username() + ":"@ + self.app_password()).len() <= usize::MAX / 2,
        ensures
            h@ == "Basic "@ + base64_standard(utf8(self.username() + ":"@ + self.app_password())),
    {
        let cred = concat3(self.username.as_str(), ":", self.app_password.as_str());
        let encoded = base64_encode(cred.as_str().as_bytes());
        concat2("Basic ", encoded.as_str())
    }

    /// Endpoint that creates posts.
    pub fn posts_url(&self) -> (u: String)
        ensures
            u@ == self.base_url() + "/wp-json/wp/v2/posts"@,
    {
        concat2(self.base_url.as_str(), "/wp-json/wp/v2/posts")
    }

    /// Endpoint that lists up to twenty drafts.
    pub fn drafts_url(&self) -> (u: String)
        ensures
            u@ == self.base_url() + "/wp-json/wp/v2/posts?status=draft&per_page=20"@,
    {
        concat2(self.base_url.as_str(), "/wp-json/wp/v2/posts?status=draft&per_page=20")
    }

    /// Endpoint that searches a tag by name (the name is not escaped).
    pub fn tag_search_url(&self, tag: &str) -> (u: String)
        ensures
            u@ == self.base_url() + "/wp-json/wp/v2/tags?search="@ + tag@,
    {
        concat3(self.base_url.as_str(), "/wp-json/wp/v2/tags?search=", tag)
    }

    /// Endpoint that creates tags.
    pub fn tags_url(&self) -> (u: String)
        ensures
            u@ == self.base_url() + "/wp-json/wp/v2/tags"@,
    {
        concat2(self.base_url.as_str(), "/wp-json/wp/v2/tags")
    }

    /// The post to create for an article: its Markdown rendered to HTML,
    /// the given status and the ids of its tags.
    pub fn post_body(&self, article: &Article, status: &str, tag_ids: Vec<u64>) -> (b: WpPostBody)
        ensures
            b.title@ == article.title@,
            b.content@ == markdown_html(article.content@),
            b.status@ == status@,
            b.tags@ == tag_ids@,
            b.format@ == "standard"@,
    {
        let html = markdown_to_html(article.content.as_str());
        Self::body_from_html(article, html, status, tag_ids)
    }

    /// The post to create, given the article's body already rendered.
    pub fn body_from_html(article: &Article, html: String, status: &str, tag_ids: Vec<u64>) -> (b: WpPostBody)
        ensures
            b.title@ == article.title@,
            b.content@ == html@,
            b.status@ == status@,
            b.tags@ == tag_ids@,
            b.format@ == "standard"@,
    {
        WpPostBody {
            title: article.title.clone(),
            content: html,
            status: String::from_str(status),
            tags: tag_ids,
            format: String::from_str("standard"),
        }
    }
}

/// The id of the first search result whose name is exactly `tag`.
pub open spec fn exact_match(results: Seq<(u64, Seq<char>)>, tag: Seq<char>) -> Option<u64>
    decreases results.len(),
{
    if results.len() == 0 {
        None
    } else if results[0].1 == tag {
        Some(results[0].0)
    } else {
        exact_match(results.drop_first(), tag)
    }
}

/// Search results as plain values: each tag's id and name.
pub open spec fn result_views(results: Seq<(u64, String)>) -> Seq<(u64, Seq<char>)> {
    results.map_values(|r: (u64, String)| (r.0, r.1@))
}

/// Tag ids gathered for a post: a tag that the search finds under exactly
/// its name keeps that id; any other tag is created and keeps the id of the
/// created tag, if any.
pub struct TagIds {
    pub ids: Vec<u64>,
}

impl TagIds {
    pub fn new() -> (t: Self)
        ensures
            t.ids@ == Seq::<u64>::empty(),
    {
        TagIds { ids: Vec::new() }
    }

    /// Takes the results of searching for `tag`, as `(id, name)` pairs;
    /// returns whether the tag must be created.
    pub fn found(&mut self, tag: &str, results: &Vec<(u64, String)>) -> (create: bool)
        ensures
            create == exact_match(result_views(results@), tag@).is_none(),
            final(self).ids@ == (match exact_match(result_views(results@), tag@) {
                Some(i) => old(self).ids@.push(i),
                None => old(self).ids@,
            }),
    {
        let ghost all = result_views(results@);
        assert(all.subrange(0, all.len() as int) =~= all);
        let mut i: usize = 0;
        while i < results.len()
            invariant
                i <= results@.len(),
                all == result_views(results@),
                exact_match(all, tag@) == exact_match(all.subrange(i as int, all.len() as int), tag@),
                self.ids@ == old(self).ids@,
            decreases results@.len() - i,
        {
            let ghost rest = all.subrange(i as int, all.len() as int);
            assert(rest.drop_first() =~= all.subrange(i + 1, all.len() as int));
            assert(rest[0] == all[i as int]);
            if same_text(results[i].1.as_str(), tag) {
                self.ids.push(results[i].0);
                return false;
            }
            i = i + 1;
        }
        true
    }

    /// Takes the id of a created tag, if the reply had one.
    pub fn created(&mut self, id: Option<u64>)
        ensures
            final(self).ids@ == (match id {
                Some(i) => old(self).ids@.push(i),
                None => old(self).ids@,
            }),
    {
        if let Some(i) = id {
            self.ids.push(i);
        }
    }
}

// ---------------------------------------------------------------- Ghost

/// Why a Ghost Admin API key was refused.
#[derive(Clone, Copy, Debug, PartialEq, Eq, Structural)]
pub enum GhostKeyError {
    /// No `:` between the key id and the secret.
    MissingSeparator,
    /// The secret is not hexadecimal.
    InvalidSecret,
}

impl GhostKeyError {
    pub fn message(&self) -> (m: &'static str)
        ensures
            *self == GhostKeyError::MissingSeparator ==> m@ == "Ghost admin_key deve avere il formato 'id:hex_secret'"@,
            *self == GhostKeyError::InvalidSecret ==> m@ == "Ghost admin_key: la parte secret non è hex valido"@,
    {
        match self {
            GhostKeyError::MissingSeparator => "Ghost admin_key deve avere il formato 'id:hex_secret'",
            GhostKeyError::InvalidSecret => "Ghost admin_key: la parte secret non è hex valido",
        }
    }
}

/// Index of the first `c` in `s`, if any.
pub open spec fn first_index_of(s: Seq<char>, c: char) -> Option<int> {
    if exists|i: int| 0 <= i < s.len() && s[i] == c {
        Some(choose|i: int| 0 <= i < s.len() && s[i] == c && forall|j: int| 0 <= j < i ==> s[j] != c)
    } else {
        None
    }
}

fn find_char(s: &[char], c: char) -> (r: Option<usize>)
    ensures
        match r {
            Some(i) => i < s@.len() && s@[i as int] == c && forall|j: int| 0 <= j < i ==> s@[j] != c,
            None => forall|j: int| 0 <= j < s@.len() ==> s@[j] != c,
        },
{
    let mut i: usize = 0;
    while i < s.len()
        invariant
            i <= s@.len(),
            forall|j: int| 0 <= j < i ==> s@[j] != c,
        decreases s@.len() - i,
    {
        if s[i] == c {
            return Some(i);
        }
        i = i + 1;
    }
    None
}

/// The HS256 JSON Web Token that `jsonwebtoken::encode` builds for a header
/// with key id `kid`, the claims `iat`, `exp` and `aud`, and the secret.
pub uninterp spec fn hs256_token(kid: Seq<char>, iat: u64, exp: u64, aud: Seq<char>, secret: Seq<u8>) -> Seq<char>;

/// Calls `jsonwebtoken::encode` with an HS256 header carrying `kid` and the
/// claims `iat`, `exp` and `aud` (as a JSON object, keys in sorted order),
/// signed with `secret`. It cannot fail here: the key made from a secret
/// belongs to the HMAC family of the header's algorithm, the header and the
/// claims always serialize, and HMAC signing accepts any key.
#[verifier::external_body]
fn jwt_encode(kid: &str, iat: u64, exp: u64, aud: &str, secret: &[u8]) -> (r: String)
    ensures
        r@ == hs256_token(kid@, iat, exp, aud@, secret@),
{
    let mut claims = serde_json::Map::new();
    claims.insert("iat".to_string(), serde_json::Value::from(iat));
    claims.insert("exp".to_string(), serde_json::Value::from(exp));
    claims.insert("aud".to_string(), serde_json::Value::from(aud));
    let mut header = jsonwebtoken::Header::new(jsonwebtoken::Algorithm::HS256);
    header.kid = Some(kid.to_string());
    jsonwebtoken::encode(&header, &claims, &jsonwebtoken::EncodingKey::from_secret(secret)).unwrap_or_default()
}

/// Claims of the short-lived token that authenticates to the Ghost Admin API.
pub struct GhostClaims {
    pub iat: u64,
    pub exp: u64,
    pub aud: &'static str,
}

/// Body of a Ghost post creation request.
pub struct GhostPostBody {
    pub title: String,
    pub mobiledoc: String,
    pub status: String,
    pub tags: Vec<String>,
}

/// Publishes through the Ghost Admin API with an `{id}:{hex_secret}` key.
pub struct GhostPublisher {
    base_url: String,
    key_id: String,
    secret: Vec<u8>,
}

/// What `GhostPublisher::new` gives for a key: the key id and the decoded
/// secret, or the reason the key is refused.
pub open spec fn parse_admin_key(key: Seq<char>) -> Result<(Seq<char>, Seq<u8>), GhostKeyError> {
    match first_index_of(key, ':') {
        None => Err(GhostKeyError::MissingSeparator),
        Some(i) => {
            let secret = utf8(key.subrange(i + 1, key.len() as int));
            if hex_decodable(secret) {
                Ok((key.subrange(0, i), hex_decoded(secret)))
            } else {
                Err(GhostKeyError::InvalidSecret)
            }
        },
    }
}

impl GhostPublisher {
    pub closed spec fn base_url(&self) -> Seq<char> {
        self.base_url@
    }

    pub closed spec fn key_id(&self) -> Seq<char> {
        self.key_id@
    }

    pub closed spec fn secret(&self) -> Seq<u8> {
        self.secret@
    }

    /// Splits the admin key at its first `:` into id and hexadecimal secret.
    pub fn new(base_url: &str, admin_key: &str) -> (r: Result<Self, GhostKeyError>)
        ensures
            match (r, parse_admin_key(admin_key@)) {
                (Ok(p), Ok((id, secret))) => p.key_id() == id && p.secret() == secret
                    && p.base_url() == strip_trailing(base_url@, '/'),
                (Err(e), Err(f)) => e == f,
                _ => false,
            },
    {
        let chars = chars_of(admin_key);
        let n = chars.len();
        match find_char(chars.as_slice(), ':') {
            None => {
                proof {
                    assert(!(exists|i: int| 0 <= i < admin_key@.len() && admin_key@[i] == ':'));
                }
                Err(GhostKeyError::MissingSeparator)
            },
            Some(i) => {
                proof {
                    let fi = first_index_of(admin_key@, ':');
                    assert(admin_key@[i as int] == ':');
                    let k = fi->0;
                    assert(k == i) by {
                        if k < i {
                            assert(admin_key@[k] != ':');
                        } else if i < k {
                        }
                    }
                }
                let id = admin_key.substring_char(0, i);
                assert(i < n);
                let hex_part = admin_key.substring_char(i + 1, n);
                match hex_decode(hex_part.as_bytes()) {
                    Ok(secret) => Ok(GhostPublisher {
                        base_url: trim_trailing_slashes(base_url),
                        key_id: String::from_str(id),
                        secret,
                    }),
                    Err(_) => Err(GhostKeyError::InvalidSecret),
                }
            },
        }
    }

    /// Claims valid for five minutes from `now` (seconds since the epoch).
    pub fn claims(now: u64) -> (c: GhostClaims)
        requires
            now + 300 <= u64::MAX,
        ensures
            c.iat == now,
            c.exp == now + 300,
            c.aud@ == "/admin/"@,
    {
        GhostClaims { iat: now, exp: now + 300, aud: "/admin/" }
    }

    /// A token valid for five minutes from `now` (seconds since the epoch),
    /// with the admin key's id in its header and signed with its secret.
    pub fn jwt_token(&self, now: u64) -> (t: String)
        requires
            now + 300 <= u64::MAX,
        ensures
            t@ == hs256_token(self.key_id(), now, (now + 300) as u64, "/admin/"@, self.secret()),
    {
        let c = GhostPublisher::claims(now);
        jwt_encode(self.key_id.as_str(), c.iat, c.exp, c.aud, self.secret.as_slice())
    }

    /// Key id placed in the token header.
    pub fn key_id_string(&self) -> (k: String)
        ensures
            k@ == self.key_id(),
    {
        self.key_id.clone()
    }

    /// Secret that signs the token.
    pub fn secret_bytes(&self) -> (s: &[u8])
        ensures
            s@ == self.secret(),
    {
        self.secret.as_slice()
    }

    /// Endpoint that creates posts.
    pub fn posts_url(&self) -> (u: String)
        ensures
            u@ == self.base_url() + "/ghost/api/admin/posts/"@,
    {
        concat2(self.base_url.as_str(), "/ghost/api/admin/posts/")
    }

    /// Endpoint that lists the titles of the drafts.
    pub fn drafts_url(&self) -> (u: String)
        ensures
            u@ == self.base_url() + "/ghost/api/admin/posts/?filter=status:draft&fields=title"@,
    {
        concat2(self.base_url.as_str(), "/ghost/api/admin/posts/?filter=status:draft&fields=title")
    }

    /// The `Authorization` header value for a signed token.
    pub fn authorization(token: &str) -> (h: String)
        ensures
            h@ == "Ghost "@ + token@,
    {
        concat2("Ghost ", token)
    }

    /// The post to create for an article with the given Ghost status.
    pub fn post_body(article: &Article, status: &str) -> (b: GhostPostBody)
        ensures
            b.title@ == article.title@,
            b.mobiledoc@ == mobiledoc_of(article.content@),
            b.status@ == status@,
            b.tags@ == article.tags@,
    {
        GhostPostBody {
            title: article.title.clone(),
            mobiledoc: markdown_to_mobiledoc(article.content.as_str()),
            status: String::from_str(status),
            tags: article.tags.clone(),
        }
    }
}

/// Builds a Ghost publisher, refusing a malformed admin key.
pub fn new_ghost(base_url: &str, admin_key: &str) -> (r: Result<GhostPublisher, GhostKeyError>)
    ensures
        match (r, parse_admin_key(admin_key@)) {
            (Ok(p), Ok((id, secret))) => p.key_id() == id && p.secret() == secret
                && p.base_url() == strip_trailing(base_url@, '/'),
            (Err(e), Err(f)) => e == f,
            _ => false,
        },
{
    GhostPublisher::new(base_url, admin_key)
}

} // verus!

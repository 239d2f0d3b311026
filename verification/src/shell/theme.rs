//! Colours of the shell: the theme palettes, accent colours written in
//! hexadecimal, and the colours of letter icons.
use vstd::prelude::*;
use vstd::utf8::is_char_boundary;
use crate::blog::{hex_digit_value, utf8};
use crate::text::{chars_of, contains_chars, has_substring, lowercase, same_text, to_lowercase};

verus! {

/// An opaque RGB colour.
#[derive(Clone, Copy, Debug, PartialEq, Eq, Structural)]
pub struct Rgb {
    pub r: u8,
    pub g: u8,
    pub b: u8,
}

pub open spec fn rgb(r: u8, g: u8, b: u8) -> Rgb {
    Rgb { r, g, b }
}

pub fn from_rgb(r: u8, g: u8, b: u8) -> (c: Rgb)
    ensures
        c == rgb(r, g, b),
{
    Rgb { r, g, b }
}

/// The colours of the shell.
#[derive(Clone, Copy, Debug, PartialEq, Eq, Structural)]
pub struct Theme {
    pub bg: Rgb,
    pub surface: Rgb,
    pub border: Rgb,
    pub text: Rgb,
    pub muted: Rgb,
    pub accent: Rgb,
    pub success: Rgb,
    pub warning: Rgb,
    pub error: Rgb,
}

/// `s` without its leading `c` characters.
pub open spec fn strip_leading(s: Seq<char>, c: char) -> Seq<char>
    decreases s.len(),
{
    if s.len() > 0 && s[0] == c {
        strip_leading(s.drop_first(), c)
    } else {
        s
    }
}

/// A two-byte number in base 16 as `u8::from_str_radix` reads it: an
/// optional `+` then digits.
pub open spec fn hex_pair(b0: u8, b1: u8) -> Option<u8> {
    if b0 == 0x2b {
        hex_digit_value(b1)
    } else if hex_digit_value(b0) is Some && hex_digit_value(b1) is Some {
        Some((hex_digit_value(b0)->0 * 16 + hex_digit_value(b1)->0) as u8)
    } else {
        None
    }
}

/// The colour written as `#rrggbb` (any number of leading `#`): `None`
/// unless six bytes follow and each pair reads as a number.
pub open spec fn spec_hex_color(s: Seq<char>) -> Option<Rgb> {
    let b = utf8(strip_leading(s, '#'));
    if b.len() != 6 {
        None
    } else {
        match (hex_pair(b[0], b[1]), hex_pair(b[2], b[3]), hex_pair(b[4], b[5])) {
            (Some(r), Some(g), Some(bl)) => Some(rgb(r, g, bl)),
            _ => None,
        }
    }
}

/// Slicing the six bytes into pairs cuts no character in two.
pub open spec fn hex_slices_ok(s: Seq<char>) -> bool {
    let b = utf8(strip_leading(s, '#'));
    b.len() == 6 ==> is_char_boundary(b, 2) && is_char_boundary(b, 4)
}

fn read_pair(b0: u8, b1: u8) -> (r: Option<u8>)
    ensures
        r == hex_pair(b0, b1),
{
    let d0 = digit(b0);
    let d1 = digit(b1);
    if b0 == 0x2b {
        d1
    } else {
        match (d0, d1) {
            (Some(x), Some(y)) => Some(x * 16 + y),
            _ => None,
        }
    }
}

fn digit(b: u8) -> (r: Option<u8>)
    ensures
        r == hex_digit_value(b),
        r matches Some(v) ==> v < 16,
{
    if 0x30 <= b && b <= 0x39 {
        Some(b - 0x30)
    } else if 0x61 <= b && b <= 0x66 {
        Some(b - 0x61 + 10)
    } else if 0x41 <= b && b <= 0x46 {
        Some(b - 0x41 + 10)
    } else {
        None
    }
}

fn strip_hashes(hex: &str) -> (r: &str)
    ensures
        r@ == strip_leading(hex@, '#'),
{
    let n = hex.unicode_len();
    let mut i: usize = 0;
    assert(hex@.subrange(0, n as int) =~= hex@);
    while i < n && hex.get_char(i) == '#'
        invariant
            n == hex@.len(),
            i <= n,
            strip_leading(hex@.subrange(i as int, n as int), '#') == strip_leading(hex@, '#'),
        decreases n - i,
    {
        assert(hex@.subrange(i as int, n as int).drop_first() =~= hex@.subrange(i + 1, n as int));
        i = i + 1;
    }
    proof {
        let t = hex@.subrange(i as int, n as int);
        if i < n {
            assert(t[0] == hex@[i as int]);
        }
        assert(strip_leading(t, '#') == t);
    }
    hex.substring_char(i, n)
}

/// Whether reading `hex` as a colour cuts no character in two (reading
/// one that would panics).
pub fn hex_slices_valid(hex: &str) -> (ok: bool)
    ensures
        ok == hex_slices_ok(hex@),
{
    let rest = strip_hashes(hex);
    if rest.as_bytes().len() != 6 {
        return true;
    }
    rest.is_char_boundary(2) && rest.is_char_boundary(4)
}

/// Reads an accent colour written in hexadecimal.
pub fn hex_to_color(hex: &str) -> (c: Option<Rgb>)
    requires
        hex_slices_ok(hex@),
    ensures
        c == spec_hex_color(hex@),
{
    let rest = strip_hashes(hex);
    let b = rest.as_bytes();
    if b.len() != 6 {
        return None;
    }
    let r = read_pair(b[0], b[1]);
    let g = read_pair(b[2], b[3]);
    let bl = read_pair(b[4], b[5]);
    match (r, g, bl) {
        (Some(r), Some(g), Some(bl)) => Some(Rgb { r, g, b: bl }),
        _ => None,
    }
}

/// Dark palette, with the given accent or a light blue one.
pub open spec fn dark_theme(accent: Option<Rgb>) -> Theme {
    Theme {
        bg: rgb(26, 27, 38),
        surface: rgb(36, 37, 58),
        border: rgb(46, 48, 80),
        text: rgb(232, 233, 240),
        muted: rgb(123, 127, 158),
        accent: match accent { Some(a) => a, None => rgb(126, 200, 227) },
        success: rgb(107, 203, 139),
        warning: rgb(240, 192, 96),
        error: rgb(224, 108, 117),
    }
}

/// Light palette, with the given accent or a deep blue one.
pub open spec fn light_theme(accent: Option<Rgb>) -> Theme {
    Theme {
        bg: rgb(245, 246, 250),
        surface: rgb(255, 255, 255),
        border: rgb(210, 212, 230),
        text: rgb(30, 30, 50),
        muted: rgb(130, 130, 160),
        accent: match accent { Some(a) => a, None => rgb(0, 120, 180) },
        success: rgb(50, 170, 90),
        warning: rgb(200, 140, 30),
        error: rgb(190, 60, 60),
    }
}

impl Theme {
    /// The theme for a mode (`light`, otherwise dark) and accent colour.
    pub fn from_config(mode: &str, accent_color: &str) -> (t: Self)
        requires
            hex_slices_ok(accent_color@),
        ensures
            t == (if mode@ == "light"@ {
                light_theme(spec_hex_color(accent_color@))
            } else {
                dark_theme(spec_hex_color(accent_color@))
            }),
    {
        let accent = hex_to_color(accent_color);
        if same_text(mode, "light") {
            Theme {
                bg: from_rgb(245, 246, 250),
                surface: from_rgb(255, 255, 255),
                border: from_rgb(210, 212, 230),
                text: from_rgb(30, 30, 50),
                muted: from_rgb(130, 130, 160),
                accent: match accent { Some(a) => a, None => from_rgb(0, 120, 180) },
                success: from_rgb(50, 170, 90),
                warning: from_rgb(200, 140, 30),
                error: from_rgb(190, 60, 60),
            }
        } else {
            Theme {
                bg: from_rgb(26, 27, 38),
                surface: from_rgb(36, 37, 58),
                border: from_rgb(46, 48, 80),
                text: from_rgb(232, 233, 240),
                muted: from_rgb(123, 127, 158),
                accent: match accent { Some(a) => a, None => from_rgb(126, 200, 227) },
                success: from_rgb(107, 203, 139),
                warning: from_rgb(240, 192, 96),
                error: from_rgb(224, 108, 117),
            }
        }
    }
}

/// Background colour drawn when the compositor shows no wallpaper.
pub fn background_color(mode: &str) -> (c: Rgb)
    ensures
        c == (if mode@ == "light"@ { rgb(245, 246, 250) } else { rgb(26, 27, 38) }),
{
    if same_text(mode, "light") {
        from_rgb(245, 246, 250)
    } else {
        from_rgb(26, 27, 38)
    }
}

/// Hash of a name's bytes: `h * 31 + b` for each byte, wrapping.
pub open spec fn name_hash(b: Seq<u8>) -> usize
    decreases b.len(),
{
    if b.len() == 0 {
        0
    } else {
        name_hash(b.drop_last()).wrapping_mul(31).wrapping_add(b.last() as usize)
    }
}

/// Palette of letter icons.
pub open spec fn palette() -> Seq<Rgb> {
    seq![
        rgb(66, 133, 244), rgb(52, 168, 83), rgb(251, 188, 4), rgb(234, 67, 53),
        rgb(103, 58, 183), rgb(0, 150, 136), rgb(255, 87, 34), rgb(33, 150, 243),
    ]
}

pub open spec fn mentions(text: Seq<char>, word: &str) -> bool {
    has_substring(text, word@)
}

/// Colour of a letter icon, given the application's name in lower case and
/// the UTF-8 bytes of the name as written: fixed for well-known kinds of
/// application, otherwise picked from the palette by a hash of the bytes.
pub open spec fn color_for(n: Seq<char>, name_bytes: Seq<u8>) -> Rgb {
    if mentions(n, "chromium") || mentions(n, "chrome") || mentions(n, "browser") {
        rgb(66, 133, 244)
    } else if mentions(n, "writer") || mentions(n, "libreoffice") {
        rgb(0, 100, 200)
    } else if mentions(n, "gimp") {
        rgb(100, 60, 140)
    } else if mentions(n, "terminal") || mentions(n, "console") {
        rgb(40, 40, 40)
    } else if mentions(n, "file") {
        rgb(255, 160, 0)
    } else if mentions(n, "impostazioni") || mentions(n, "settings") {
        rgb(96, 96, 96)
    } else {
        palette()[(name_hash(name_bytes) % 8) as int]
    }
}

/// Colour of an application's letter icon, recognising the kind of
/// application in its lower-case name.
pub open spec fn spec_app_color(name: Seq<char>) -> Rgb {
    color_for(lowercase(name), utf8(name))
}

fn has(text: &[char], word: &str) -> (r: bool)
    ensures
        r == has_substring(text@, word@),
{
    let w = chars_of(word);
    contains_chars(text, w.as_slice())
}

fn palette_color(i: usize) -> (c: Rgb)
    requires
        i < 8,
    ensures
        c == palette()[i as int],
{
    match i {
        0 => from_rgb(66, 133, 244),
        1 => from_rgb(52, 168, 83),
        2 => from_rgb(251, 188, 4),
        3 => from_rgb(234, 67, 53),
        4 => from_rgb(103, 58, 183),
        5 => from_rgb(0, 150, 136),
        6 => from_rgb(255, 87, 34),
        _ => from_rgb(33, 150, 243),
    }
}

fn hash_bytes(b: &[u8]) -> (h: usize)
    ensures
        h == name_hash(b@),
{
    let mut h: usize = 0;
    let mut i: usize = 0;
    while i < b.len()
        invariant
            i <= b@.len(),
            h == name_hash(b@.subrange(0, i as int)),
        decreases b@.len() - i,
    {
        assert(b@.subrange(0, i + 1).drop_last() =~= b@.subrange(0, i as int));
        h = h.wrapping_mul(31).wrapping_add(b[i] as usize);
        i = i + 1;
    }
    assert(b@.subrange(0, b@.len() as int) =~= b@);
    h
}

/// Colour of an application's letter icon.
pub fn app_color(name: &str) -> (c: Rgb)
    ensures
        c == spec_app_color(name@),
{
    let lower = to_lowercase(name);
    icon_color(lower.as_str(), name.as_bytes())
}

/// Colour of a letter icon, given the application's name already in lower
/// case and the UTF-8 bytes of the name as written.
pub fn icon_color(lowered: &str, name_bytes: &[u8]) -> (c: Rgb)
    ensures
        c == color_for(lowered@, name_bytes@),
{
    let n = chars_of(lowered);
    let t = n.as_slice();
    if has(t, "chromium") || has(t, "chrome") || has(t, "browser") {
        from_rgb(66, 133, 244)
    } else if has(t, "writer") || has(t, "libreoffice") {
        from_rgb(0, 100, 200)
    } else if has(t, "gimp") {
        from_rgb(100, 60, 140)
    } else if has(t, "terminal") || has(t, "console") {
        from_rgb(40, 40, 40)
    } else if has(t, "file") {
        from_rgb(255, 160, 0)
    } else if has(t, "impostazioni") || has(t, "settings") {
        from_rgb(96, 96, 96)
    } else {
        let h = hash_bytes(name_bytes);
        palette_color(h % 8)
    }
}

/// The first character of `char::to_uppercase` applied to `c`.
pub uninterp spec fn first_uppercase(c: char) -> char;

/// Calls `char::to_uppercase` and takes its first character (the
/// conversion always yields at least one).
#[verifier::external_body]
fn uppercase_first(c: char) -> (u: char)
    ensures
        u == first_uppercase(c),
{
    c.to_uppercase().next().unwrap_or(c)
}

/// Letter drawn on an application's icon: its first character in upper
/// case, or `?` for an empty name.
pub fn icon_letter(name: &str) -> (l: char)
    ensures
        l == first_uppercase(if name@.len() > 0 { name@[0] } else { '?' }),
{
    let first = if name.unicode_len() > 0 { name.get_char(0) } else { '?' };
    uppercase_first(first)
}

} // verus!

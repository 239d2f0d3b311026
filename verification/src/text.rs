//! Character-level helpers shared by the rest of the library.
use vstd::prelude::*;

verus! {

/// Number of bytes of the UTF-8 encoding of `s`.
pub open spec fn utf8_len(s: Seq<char>) -> nat {
    vstd::utf8::encode_utf8(s).len()
}

/// `needle` occurs as a contiguous block inside `hay`.
pub open spec fn has_substring(hay: Seq<char>, needle: Seq<char>) -> bool {
    exists|i: int| 0 <= i <= hay.len() - needle.len() && #[trigger] hay.subrange(i, i + needle.len()) == needle
}

/// The characters of a string slice, in order.
pub fn chars_of(s: &str) -> (v: Vec<char>)
    ensures
        v@ == s@,
{
    let n = s.unicode_len();
    let mut v: Vec<char> = Vec::new();
    let mut i: usize = 0;
    while i < n
        invariant
            n == s@.len(),
            i <= n,
            v@ == s@.subrange(0, i as int),
        decreases n - i,
    {
        v.push(s.get_char(i));
        i = i + 1;
    }
    v
}

/// Whether `needle` occurs in `hay` starting at position `at`.
fn matches_at(hay: &[char], needle: &[char], at: usize) -> (r: bool)
    requires
        at + needle@.len() <= hay@.len(),
    ensures
        r == (hay@.subrange(at as int, at + needle@.len()) == needle@),
{
    let hl = hay.len();
    let mut j: usize = 0;
    while j < needle.len()
        invariant
            hl == hay@.len(),
            at + needle@.len() <= hay@.len(),
            j <= needle@.len(),
            forall|k: int| 0 <= k < j ==> hay@[at + k] == needle@[k],
        decreases needle@.len() - j,
    {
        assert(at + j < hay@.len());
        if hay[at + j] != needle[j] {
            assert(hay@.subrange(at as int, at + needle@.len())[j as int] != needle@[j as int]);
            return false;
        }
        j = j + 1;
    }
    assert(hay@.subrange(at as int, at + needle@.len()) =~= needle@);
    true
}

/// Substring search over character sequences.
pub fn contains_chars(hay: &[char], needle: &[char]) -> (r: bool)
    ensures
        r == has_substring(hay@, needle@),
{
    if needle.len() > hay.len() {
        return false;
    }
    let last = hay.len() - needle.len();
    let mut i: usize = 0;
    loop
        invariant
            last == hay@.len() - needle@.len(),
            i <= last,
            forall|k: int| 0 <= k < i ==> #[trigger] hay@.subrange(k, k + needle@.len()) != needle@,
        decreases last - i,
    {
        if matches_at(hay, needle, i) {
            return true;
        }
        if i == last {
            return false;
        }
        i = i + 1;
    }
}

/// Whether two string slices hold the same characters.
pub fn same_text(a: &str, b: &str) -> (r: bool)
    ensures
        r == (a@ == b@),
{
    let x = chars_of(a);
    let y = chars_of(b);
    if x.len() != y.len() {
        return false;
    }
    let mut i: usize = 0;
    while i < x.len()
        invariant
            x@ == a@,
            y@ == b@,
            x@.len() == y@.len(),
            i <= x@.len(),
            forall|k: int| 0 <= k < i ==> x@[k] == y@[k],
        decreases x@.len() - i,
    {
        if x[i] != y[i] {
            return false;
        }
        i = i + 1;
    }
    assert(a@ =~= b@);
    true
}

/// The first `n` characters of `s` (all of `s` when it is shorter).
pub open spec fn truncate_chars(s: Seq<char>, n: nat) -> Seq<char> {
    if s.len() <= n {
        s
    } else {
        s.subrange(0, n as int)
    }
}

/// The elements of `list` with `sep` between consecutive ones.
pub open spec fn join(list: Seq<Seq<char>>, sep: Seq<char>) -> Seq<char>
    decreases list.len(),
{
    if list.len() == 0 {
        Seq::empty()
    } else if list.len() == 1 {
        list[0]
    } else {
        join(list.drop_last(), sep) + sep + list.last()
    }
}

/// The views of a list of strings.
pub open spec fn views(list: Seq<String>) -> Seq<Seq<char>> {
    list.map_values(|s: String| s@)
}

/// Concatenates `list` with `sep` between consecutive elements.
pub fn join_strings(list: &Vec<String>, sep: &str) -> (r: String)
    ensures
        r@ == join(views(list@), sep@),
{
    let mut r = String::new();
    let ghost all = views(list@);
    let mut i: usize = 0;
    while i < list.len()
        invariant
            i <= list@.len(),
            all == views(list@),
            r@ == join(all.take(i as int), sep@),
        decreases list@.len() - i,
    {
        if i != 0 {
            r.append(sep);
        }
        r.append(list[i].as_str());
        assert(all.take(i + 1).drop_last() =~= all.take(i as int));
        i = i + 1;
    }
    assert(all.take(list@.len() as int) =~= all);
    r
}

/// A new string holding `a` followed by `b`.
pub fn concat2(a: &str, b: &str) -> (r: String)
    ensures
        r@ == a@ + b@,
{
    let r = String::from_str(a);
    r.concat(b)
}

/// A new string holding `a`, `b` and `c` in order.
pub fn concat3(a: &str, b: &str, c: &str) -> (r: String)
    ensures
        r@ == a@ + b@ + c@,
{
    let r = String::from_str(a);
    let r = r.concat(b);
    r.concat(c)
}

/// The first `n` characters of `s` as a new string.
pub fn truncate_string(s: &str, n: usize) -> (r: String)
    ensures
        r@ == truncate_chars(s@, n as nat),
{
    let len = s.unicode_len();
    let end = if len <= n { len } else { n };
    let part = s.substring_char(0, end);
    proof {
        if s@.len() <= n {
            assert(s@.subrange(0, end as int) =~= s@);
        }
    }
    String::from_str(part)
}

/// Unicode `White_Space` characters, which `char::is_whitespace` accepts.
pub open spec fn is_ws(c: char) -> bool {
    ||| ('\u{9}' <= c && c <= '\u{d}')
    ||| c == ' '
    ||| c == '\u{85}'
    ||| c == '\u{a0}'
    ||| c == '\u{1680}'
    ||| ('\u{2000}' <= c && c <= '\u{200a}')
    ||| c == '\u{2028}'
    ||| c == '\u{2029}'
    ||| c == '\u{202f}'
    ||| c == '\u{205f}'
    ||| c == '\u{3000}'
}

/// Whether a character is white space.
pub fn is_whitespace(c: char) -> (r: bool)
    ensures
        r == is_ws(c),
{
    ('\u{9}' <= c && c <= '\u{d}') || c == ' ' || c == '\u{85}' || c == '\u{a0}' || c == '\u{1680}'
        || ('\u{2000}' <= c && c <= '\u{200a}') || c == '\u{2028}' || c == '\u{2029}'
        || c == '\u{202f}' || c == '\u{205f}' || c == '\u{3000}'
}

/// `s` without its leading white space.
pub open spec fn trim_start(s: Seq<char>) -> Seq<char>
    decreases s.len(),
{
    if s.len() > 0 && is_ws(s[0]) {
        trim_start(s.drop_first())
    } else {
        s
    }
}

/// `s` without its trailing white space.
pub open spec fn trim_end(s: Seq<char>) -> Seq<char>
    decreases s.len(),
{
    if s.len() > 0 && is_ws(s.last()) {
        trim_end(s.drop_last())
    } else {
        s
    }
}

/// `s` without leading and trailing white space.
pub open spec fn trim(s: Seq<char>) -> Seq<char> {
    trim_end(trim_start(s))
}

pub open spec fn starts_with(s: Seq<char>, prefix: Seq<char>) -> bool {
    prefix.len() <= s.len() && s.subrange(0, prefix.len() as int) == prefix
}

/// Index of the first character of `c[lo..hi]` that is not white space
/// (or `hi`).
pub fn skip_ws(c: &[char], lo: usize, hi: usize) -> (r: usize)
    requires
        lo <= hi <= c@.len(),
    ensures
        lo <= r <= hi,
        trim_start(c@.subrange(lo as int, hi as int)) == c@.subrange(r as int, hi as int),
        r < hi ==> !is_ws(c@[r as int]),
{
    let mut i = lo;
    while i < hi && is_whitespace(c[i])
        invariant
            lo <= i <= hi <= c@.len(),
            trim_start(c@.subrange(lo as int, hi as int)) == trim_start(c@.subrange(i as int, hi as int)),
        decreases hi - i,
    {
        assert(c@.subrange(i as int, hi as int).drop_first() =~= c@.subrange(i + 1, hi as int));
        i = i + 1;
    }
    proof {
        let t = c@.subrange(i as int, hi as int);
        if i < hi {
            assert(t[0] == c@[i as int]);
        }
        assert(trim_start(t) == t);
    }
    i
}

/// End of `c[lo..hi]` without its trailing white space.
pub fn skip_ws_back(c: &[char], lo: usize, hi: usize) -> (r: usize)
    requires
        lo <= hi <= c@.len(),
    ensures
        lo <= r <= hi,
        trim_end(c@.subrange(lo as int, hi as int)) == c@.subrange(lo as int, r as int),
{
    let mut j = hi;
    while j > lo && is_whitespace(c[j - 1])
        invariant
            lo <= j <= hi <= c@.len(),
            trim_end(c@.subrange(lo as int, hi as int)) == trim_end(c@.subrange(lo as int, j as int)),
        decreases j - lo,
    {
        assert(c@.subrange(lo as int, j as int).drop_last() =~= c@.subrange(lo as int, j - 1));
        j = j - 1;
    }
    proof {
        let t = c@.subrange(lo as int, j as int);
        if j > lo {
            assert(t.last() == c@[j - 1]);
        }
        assert(trim_end(t) == t);
    }
    j
}

/// Bounds of `c[lo..hi]` trimmed of white space at both ends.
pub fn trim_bounds(c: &[char], lo: usize, hi: usize) -> (r: (usize, usize))
    requires
        lo <= hi <= c@.len(),
    ensures
        lo <= r.0 <= r.1 <= hi,
        trim(c@.subrange(lo as int, hi as int)) == c@.subrange(r.0 as int, r.1 as int),
{
    let a = skip_ws(c, lo, hi);
    let b = skip_ws_back(c, a, hi);
    (a, b)
}

/// Whether `c[lo..hi]` equals `lit`.
pub fn range_equals(c: &[char], lo: usize, hi: usize, lit: &[char]) -> (r: bool)
    requires
        lo <= hi <= c@.len(),
    ensures
        r == (c@.subrange(lo as int, hi as int) == lit@),
{
    if hi - lo != lit.len() {
        return false;
    }
    let mut k: usize = 0;
    while k < lit.len()
        invariant
            lo <= hi <= c@.len(),
            hi - lo == lit@.len(),
            k <= lit@.len(),
            forall|m: int| 0 <= m < k ==> c@[lo + m] == lit@[m],
        decreases lit@.len() - k,
    {
        if c[lo + k] != lit[k] {
            assert(c@.subrange(lo as int, hi as int)[k as int] != lit@[k as int]);
            return false;
        }
        k = k + 1;
    }
    assert(c@.subrange(lo as int, hi as int) =~= lit@);
    true
}

/// Whether `c[lo..hi]` starts with `prefix`.
pub fn range_starts_with(c: &[char], lo: usize, hi: usize, prefix: &[char]) -> (r: bool)
    requires
        lo <= hi <= c@.len(),
    ensures
        r == starts_with(c@.subrange(lo as int, hi as int), prefix@),
{
    if hi - lo < prefix.len() {
        return false;
    }
    let r = range_equals(c, lo, lo + prefix.len(), prefix);
    assert(c@.subrange(lo as int, hi as int).subrange(0, prefix@.len() as int) =~= c@.subrange(lo as int, lo + prefix@.len()));
    r
}

/// Lower-case form of a string, as `str::to_lowercase` computes it.
pub uninterp spec fn lowercase(s: Seq<char>) -> Seq<char>;

/// Calls `str::to_lowercase`; its result is the named `lowercase` of the input.
#[verifier::external_body]
pub(crate) fn to_lowercase(s: &str) -> (r: String)
    ensures
        r@ == lowercase(s@),
{
    s.to_lowercase()
}

/// Cutting a text to `n` characters keeps its beginning: the result is a
/// prefix of the text, as long as the text or `n` characters, whichever is
/// shorter.
pub proof fn lemma_truncation_keeps_the_prefix(s: Seq<char>, n: nat)
    ensures
        truncate_chars(s, n).len() == (if s.len() <= n { s.len() } else { n }),
        forall|i: int| 0 <= i < truncate_chars(s, n).len() ==> #[trigger] truncate_chars(s, n)[i] == s[i],
{
}

} // verus!

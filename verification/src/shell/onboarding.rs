//! The welcome screen shown while no API key is configured.
use vstd::prelude::*;
use crate::text::{chars_of, has_substring, is_ws, range_equals, range_starts_with, skip_ws, starts_with, trim, trim_bounds, trim_end, trim_start};

verus! {

/// Length of the first line of `s` (up to its first `\n`).
pub open spec fn line_len(s: Seq<char>) -> nat
    decreases s.len(),
{
    if s.len() == 0 || s[0] == '\n' {
        0
    } else {
        1 + line_len(s.drop_first())
    }
}

/// A line that sets the API key: it starts with `api_key` after its
/// indentation.
pub open spec fn is_key_line(line: Seq<char>) -> bool {
    starts_with(trim_start(line), "api_key"@)
}

/// Number of characters before the first `x` of `s` (all of them if none).
pub open spec fn before_char_len(s: Seq<char>, x: char) -> nat
    decreases s.len(),
{
    if s.len() == 0 || s[0] == x {
        0
    } else {
        1 + before_char_len(s.drop_first(), x)
    }
}

/// What follows the first `=` of a line, or nothing when it has none.
pub open spec fn after_eq(line: Seq<char>) -> Seq<char> {
    let i = before_char_len(line, '=');
    if i < line.len() {
        line.subrange(i + 1int, line.len() as int)
    } else {
        Seq::empty()
    }
}

/// What is left of `s` once a trailing `#` comment is dropped.
pub open spec fn without_comment(s: Seq<char>) -> Seq<char> {
    s.subrange(0, before_char_len(s, '#') as int)
}

/// The key's value, once its comment is dropped, is empty: nothing, `""`
/// or `''`.
pub open spec fn value_is_empty(line: Seq<char>) -> bool {
    let v = trim(without_comment(after_eq(line)));
    v == "\"\""@ || v == "''"@ || v.len() == 0
}

/// The configuration text sets no API key: its first line that sets the
/// key gives it an empty value, or no line sets it.
pub open spec fn api_key_missing(text: Seq<char>) -> bool
    decreases text.len(),
{
    let n = line_len(text);
    let line = text.subrange(0, n as int);
    if n <= text.len() && is_key_line(line) {
        value_is_empty(line)
    } else if n >= text.len() {
        true
    } else {
        api_key_missing(text.subrange(n + 1int, text.len() as int))
    }
}

/// What the welcome screen asks the application to do.
#[derive(Clone, Copy, Debug, PartialEq, Eq, Structural)]
pub enum OnboardingAction {
    /// Nothing to do.
    NoAction,
    /// Open the settings on the "AI & Budget" section.
    OpenSettings,
    /// The user dismissed the screen for this session.
    Dismiss,
}

/// The welcome screen.
pub struct Onboarding {
    pub dismissed: bool,
}

proof fn lemma_line_len_bound(s: Seq<char>)
    ensures
        line_len(s) <= s.len(),
        line_len(s) < s.len() ==> s[line_len(s) as int] == '\n',
        forall|k: int| 0 <= k < line_len(s) ==> s[k] != '\n',
    decreases s.len(),
{
    if s.len() > 0 && s[0] != '\n' {
        lemma_line_len_bound(s.drop_first());
        assert forall|k: int| 0 <= k < line_len(s) implies s[k] != '\n' by {
            if k > 0 {
                assert(s[k] == s.drop_first()[k - 1]);
            }
        }
    }
}

proof fn lemma_line_len_of(s: Seq<char>, n: int)
    requires
        0 <= n <= s.len(),
        n < s.len() ==> s[n] == '\n',
        forall|k: int| 0 <= k < n ==> s[k] != '\n',
    ensures
        line_len(s) == n,
    decreases n,
{
    if n > 0 {
        assert forall|k: int| 0 <= k < n - 1 implies s.drop_first()[k] != '\n' by {
            assert(s.drop_first()[k] == s[k + 1]);
        }
        if n < s.len() {
            assert(s.drop_first()[n - 1] == s[n]);
        }
        lemma_line_len_of(s.drop_first(), n - 1);
    }
}

proof fn lemma_before_char_of(s: Seq<char>, x: char, n: int)
    requires
        0 <= n <= s.len(),
        n < s.len() ==> s[n] == x,
        forall|k: int| 0 <= k < n ==> s[k] != x,
    ensures
        before_char_len(s, x) == n,
    decreases n,
{
    if n > 0 {
        assert forall|k: int| 0 <= k < n - 1 implies s.drop_first()[k] != x by {
            assert(s.drop_first()[k] == s[k + 1]);
        }
        if n < s.len() {
            assert(s.drop_first()[n - 1] == s[n]);
        }
        lemma_before_char_of(s.drop_first(), x, n - 1);
    }
}

/// The position of the first `x` in `c[lo..hi]`, or `hi` when there is none.
fn find_in_range(c: &[char], lo: usize, hi: usize, x: char) -> (e: usize)
    requires
        lo <= hi <= c@.len(),
    ensures
        lo <= e <= hi,
        e - lo == before_char_len(c@.subrange(lo as int, hi as int), x),
{
    let ghost part = c@.subrange(lo as int, hi as int);
    let mut e = lo;
    while e < hi && c[e] != x
        invariant
            lo <= e <= hi <= c@.len(),
            forall|k: int| lo <= k < e ==> c@[k] != x,
        decreases hi - e,
    {
        e = e + 1;
    }
    proof {
        assert forall|k: int| 0 <= k < e - lo implies part[k] != x by {
            assert(part[k] == c@[lo + k]);
        }
        if e < hi {
            assert(part[e - lo] == c@[e as int]);
        }
        lemma_before_char_of(part, x, e - lo);
    }
    e
}

/// Whether the value set on the line `c[lo..hi]` is empty.
fn line_value_is_empty(c: &[char], lo: usize, hi: usize) -> (r: bool)
    requires
        lo <= hi <= c@.len(),
    ensures
        r == value_is_empty(c@.subrange(lo as int, hi as int)),
{
    let ghost line = c@.subrange(lo as int, hi as int);
    let e = find_in_range(c, lo, hi, '=');
    let v = if e < hi { e + 1 } else { hi };
    assert(after_eq(line) =~= c@.subrange(v as int, hi as int));
    let h = find_in_range(c, v, hi, '#');
    assert(without_comment(after_eq(line)) =~= c@.subrange(v as int, h as int));
    let (a, b) = trim_bounds(c, v, h);
    let dq = chars_of("\"\"");
    let sq = chars_of("''");
    range_equals(c, a, b, dq.as_slice()) || range_equals(c, a, b, sq.as_slice()) || a == b
}

impl Onboarding {
    pub fn new() -> (o: Self)
        ensures
            !o.dismissed,
    {
        Onboarding { dismissed: false }
    }

    /// Whether the welcome screen is drawn: not once it was dismissed.
    pub fn is_shown(&self) -> (r: bool)
        ensures
            r == !self.dismissed,
    {
        !self.dismissed
    }

    /// Takes the user's answer on the welcome screen: any answer dismisses
    /// it for the session; the answer is passed on to the application.
    pub fn answer(&mut self, action: OnboardingAction) -> (r: OnboardingAction)
        ensures
            r == action,
            final(self).dismissed == (old(self).dismissed || action != OnboardingAction::NoAction),
    {
        if action != OnboardingAction::NoAction {
            self.dismissed = true;
        }
        action
    }

    /// Whether the welcome screen must still be shown, given the daemon
    /// configuration text (empty when the file cannot be read).
    pub fn needs_show(dismissed: bool, config_text: &str) -> (r: bool)
        ensures
            r == (!dismissed && api_key_missing(config_text@)),
    {
        if dismissed {
            return false;
        }
        let c = chars_of(config_text);
        let n = c.len();
        let key = chars_of("api_key");
        let mut start: usize = 0;
        assert(c@.subrange(0, n as int) =~= c@);
        loop
            invariant
                !dismissed,
                key@ == "api_key"@,
                c@ == config_text@,
                n == c@.len(),
                start <= n,
                api_key_missing(config_text@) == api_key_missing(c@.subrange(start as int, n as int)),
            decreases n - start,
        {
            let ghost rest = c@.subrange(start as int, n as int);
            let mut end = start;
            while end < n && c[end] != '\n'
                invariant
                    start <= end <= n,
                    n == c@.len(),
                    forall|k: int| start <= k < end ==> c@[k] != '\n',
                decreases n - end,
            {
                end = end + 1;
            }
            proof {
                assert forall|k: int| 0 <= k < end - start implies rest[k] != '\n' by {
                    assert(rest[k] == c@[start + k]);
                }
                if end < n {
                    assert(rest[end - start] == c@[end as int]);
                }
                lemma_line_len_of(rest, end - start);
                assert(rest.subrange(0, end - start) =~= c@.subrange(start as int, end as int));
            }
            let ghost line = c@.subrange(start as int, end as int);
            let first = skip_ws(c.as_slice(), start, end);
            let is_key = range_starts_with(c.as_slice(), first, end, key.as_slice());
            assert(is_key == is_key_line(line));
            if is_key {
                let v = line_value_is_empty(c.as_slice(), start, end);
                assert(api_key_missing(rest) == value_is_empty(line));
                return v;
            }
            if end >= n {
                assert(api_key_missing(rest));
                return true;
            }
            proof {
                assert(rest.subrange(end - start + 1, rest.len() as int) =~= c@.subrange(end + 1, n as int));
                assert(api_key_missing(rest) == api_key_missing(c@.subrange(end + 1, n as int)));
            }
            start = end + 1;
        }
    }
}

proof fn lemma_trim_start_skips(ws: Seq<char>, t: Seq<char>)
    requires
        forall|i: int| 0 <= i < ws.len() ==> ws[i] == ' ' || ws[i] == '\t',
        t.len() == 0 || !is_ws(t[0]),
    ensures
        trim_start(ws + t) == t,
    decreases ws.len(),
{
    if ws.len() == 0 {
        assert(ws + t =~= t);
    } else {
        assert((ws + t).drop_first() =~= ws.drop_first() + t);
        lemma_trim_start_skips(ws.drop_first(), t);
    }
}

proof fn lemma_trim_end_skips(t: Seq<char>, ws: Seq<char>)
    requires
        forall|i: int| 0 <= i < ws.len() ==> ws[i] == ' ' || ws[i] == '\t',
        t.len() > 0,
        !is_ws(t.last()),
    ensures
        trim_end(t + ws) == t,
    decreases ws.len(),
{
    if ws.len() == 0 {
        assert(t + ws =~= t);
    } else {
        assert((t + ws).drop_last() =~= t + ws.drop_last());
        lemma_trim_end_skips(t, ws.drop_last());
    }
}

proof fn lemma_trim_start_is_suffix(s: Seq<char>)
    ensures
        trim_start(s).len() <= s.len(),
        trim_start(s) == s.subrange(s.len() - trim_start(s).len(), s.len() as int),
    decreases s.len(),
{
    if s.len() > 0 && is_ws(s[0]) {
        lemma_trim_start_is_suffix(s.drop_first());
        let t = trim_start(s.drop_first());
        assert(s.drop_first().subrange(s.drop_first().len() - t.len(), s.drop_first().len() as int)
            =~= s.subrange(s.len() - t.len(), s.len() as int));
    } else {
        assert(s.subrange(0, s.len() as int) =~= s);
    }
}

/// A line inside a text free of `api_key` does not set the key.
proof fn lemma_no_key_line_in(before: Seq<char>, n: int)
    requires
        0 <= n <= before.len(),
        !has_substring(before, "api_key"@),
    ensures
        !is_key_line(before.subrange(0, n)),
{
    let line = before.subrange(0, n);
    lemma_trim_start_is_suffix(line);
    let t = trim_start(line);
    let k = line.len() - t.len();
    if starts_with(t, "api_key"@) {
        let key = "api_key"@;
        assert(before.subrange(k, k + key.len()) =~= t.subrange(0, key.len() as int));
        assert(0 <= k <= before.len() - key.len());
        assert(has_substring(before, key));
    }
}

/// Lines before the first mention of `api_key` do not change the answer.
proof fn lemma_skip_lines_without_key(before: Seq<char>, l: Seq<char>)
    requires
        before.len() == 0 || before.last() == '\n',
        !has_substring(before, "api_key"@),
    ensures
        api_key_missing(before + l) == api_key_missing(l),
    decreases before.len(),
{
    if before.len() == 0 {
        assert(before + l =~= l);
    } else {
        let text = before + l;
        lemma_line_len_bound(before);
        let n = line_len(before) as int;
        assert(n < before.len()) by {
            if n == before.len() {
                assert(before[before.len() - 1] == '\n');
            }
        }
        assert forall|k: int| 0 <= k < n implies text[k] != '\n' by {
            assert(text[k] == before[k]);
        }
        assert(text[n] == before[n]);
        lemma_line_len_of(text, n);
        assert(text.subrange(0, n) =~= before.subrange(0, n));
        lemma_no_key_line_in(before, n);
        let rest = before.subrange(n + 1, before.len() as int);
        assert(text.subrange(n + 1, text.len() as int) =~= rest + l);
        assert(!has_substring(rest, "api_key"@)) by {
            if has_substring(rest, "api_key"@) {
                let i = choose|i: int| 0 <= i <= rest.len() - "api_key"@.len()
                    && #[trigger] rest.subrange(i, i + "api_key"@.len()) == "api_key"@;
                assert(before.subrange(n + 1 + i, n + 1 + i + "api_key"@.len()) =~= rest.subrange(i, i + "api_key"@.len()));
            }
        }
        if rest.len() > 0 {
            assert(rest.last() == before.last());
        }
        lemma_skip_lines_without_key(rest, l);
    }
}

/// A configuration whose first line that mentions `api_key` sets it, after
/// any indentation, to a non-empty value is configured: the welcome screen
/// is not needed. The value here is plain printable ASCII without `#`
/// (a quoted key such as `"sk-ant-..."`), and neither `""` nor `''`.
pub proof fn lemma_key_with_value_is_configured(
    before: Seq<char>,
    indent: Seq<char>,
    gap1: Seq<char>,
    gap2: Seq<char>,
    value: Seq<char>,
    gap3: Seq<char>,
    after: Seq<char>,
)
    requires
        before.len() == 0 || before.last() == '\n',
        !has_substring(before, "api_key"@),
        forall|i: int| 0 <= i < indent.len() ==> indent[i] == ' ' || indent[i] == '\t',
        forall|i: int| 0 <= i < gap1.len() ==> gap1[i] == ' ' || gap1[i] == '\t',
        forall|i: int| 0 <= i < gap2.len() ==> gap2[i] == ' ' || gap2[i] == '\t',
        forall|i: int| 0 <= i < gap3.len() ==> gap3[i] == ' ' || gap3[i] == '\t',
        value.len() > 0,
        forall|i: int| 0 <= i < value.len() ==> 0x21 <= (value[i] as u32) <= 0x7e && value[i] != '#',
        value != "\"\""@,
        value != "''"@,
        after.len() == 0 || after[0] == '\n',
    ensures
        !api_key_missing(before + indent + "api_key"@ + gap1 + "="@ + gap2 + value + gap3 + after),
        !api_key_missing(before + indent + "api_key"@ + gap1 + "="@ + gap2 + value + gap3 + after + "\n"@),
{
    reveal_strlit("api_key");
    reveal_strlit("=");
    reveal_strlit("\n");
    lemma_key_line_sets_key(indent, gap1, gap2, value, gap3, after);
    lemma_key_line_sets_key(indent, gap1, gap2, value, gap3, after + "\n"@);
    let l1 = indent + "api_key"@ + gap1 + "="@ + gap2 + value + gap3 + after;
    let l2 = indent + "api_key"@ + gap1 + "="@ + gap2 + value + gap3 + (after + "\n"@);
    lemma_skip_lines_without_key(before, l1);
    lemma_skip_lines_without_key(before, l2);
    assert(before + indent + "api_key"@ + gap1 + "="@ + gap2 + value + gap3 + after =~= before + l1);
    assert(before + indent + "api_key"@ + gap1 + "="@ + gap2 + value + gap3 + after + "\n"@ =~= before + l2);
}

proof fn lemma_key_line_sets_key(
    indent: Seq<char>,
    gap1: Seq<char>,
    gap2: Seq<char>,
    value: Seq<char>,
    gap3: Seq<char>,
    after: Seq<char>,
)
    requires
        forall|i: int| 0 <= i < indent.len() ==> indent[i] == ' ' || indent[i] == '\t',
        forall|i: int| 0 <= i < gap1.len() ==> gap1[i] == ' ' || gap1[i] == '\t',
        forall|i: int| 0 <= i < gap2.len() ==> gap2[i] == ' ' || gap2[i] == '\t',
        forall|i: int| 0 <= i < gap3.len() ==> gap3[i] == ' ' || gap3[i] == '\t',
        value.len() > 0,
        forall|i: int| 0 <= i < value.len() ==> 0x21 <= (value[i] as u32) <= 0x7e && value[i] != '#',
        value != "\"\""@,
        value != "''"@,
        after.len() == 0 || after[0] == '\n',
    ensures
        !api_key_missing(indent + "api_key"@ + gap1 + "="@ + gap2 + value + gap3 + after),
{
    reveal_strlit("api_key");
    reveal_strlit("=");
    let key = "api_key"@;
    let tail = gap2 + value + gap3;
    let head = indent + key + gap1;
    let line = head + "="@ + tail;
    let text = line + after;
    assert(text =~= indent + "api_key"@ + gap1 + "="@ + gap2 + value + gap3 + after);
    // the line ends where `after` begins
    assert forall|k: int| 0 <= k < line.len() implies text[k] != '\n' by {
        assert(text[k] == line[k]);
        if k < head.len() {
            if k < indent.len() {
            } else if k < indent.len() + key.len() {
            } else {
            }
        } else if k > head.len() {
            let j = k - head.len() - 1;
            assert(line[k] == tail[j]);
            if j < gap2.len() {
            } else if j < gap2.len() + value.len() {
                assert(tail[j] == value[j - gap2.len()]);
            } else {
            }
        }
    }
    if after.len() > 0 {
        assert(text[line.len() as int] == after[0]);
    }
    lemma_line_len_of(text, line.len() as int);
    assert(text.subrange(0, line.len() as int) =~= line);
    // it is a key line
    lemma_trim_start_skips(indent, key + gap1 + "="@ + tail);
    assert(line =~= indent + (key + gap1 + "="@ + tail));
    assert((key + gap1 + "="@ + tail).subrange(0, key.len() as int) =~= key);
    assert(is_key_line(line));
    // its value is the given one
    assert forall|k: int| 0 <= k < head.len() implies line[k] != '=' by {
        assert(line[k] == head[k]);
        if k < indent.len() {
        } else if k < indent.len() + key.len() {
            assert(head[k] == key[k - indent.len()]);
        } else {
        }
    }
    assert(line[head.len() as int] == '=');
    lemma_before_char_of(line, '=', head.len() as int);
    assert(after_eq(line) =~= tail);
    assert forall|k: int| 0 <= k < tail.len() implies tail[k] != '#' by {
        if k < gap2.len() {
        } else if k < gap2.len() + value.len() {
            assert(tail[k] == value[k - gap2.len()]);
        } else {
        }
    }
    lemma_before_char_of(tail, '#', tail.len() as int);
    assert(without_comment(tail) =~= tail);
    lemma_trim_start_skips(gap2, value + gap3);
    assert(tail =~= gap2 + (value + gap3));
    lemma_trim_end_skips(value, gap3);
    assert(trim(tail) == value);
    if value == "\"\""@ || value == "''"@ {
    }
}

} // verus!

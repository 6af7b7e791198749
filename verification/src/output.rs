//! Markdown output: safe filename derivation from a video path, the rendered
//! Markdown document with its front matter and review note, the UTC timestamp
//! in the front matter, and the overwrite decision. The file system work
//! (creating the directory, the temporary file and its rename) is done by the
//! caller with the values computed here.

use vstd::prelude::*;
use vstd::utf8::*;
use vstd::string::*;
use crate::calendar::{format_utc_timestamp, utc_timestamp};
use crate::text::{
    append_chars, chars_of, trim, trimmed_chars, lemma_trim_bounds, lemma_trim_start_skip, string_from_chars, subrange_chars,
    trim_matching, trim_start_matching,
};

verus! {

broadcast use {vstd::utf8::encode_utf8_valid_utf8, vstd::utf8::encode_utf8_decode_utf8};

/// Fallback filename stem used when the video's filename stem is missing,
/// empty, or sanitizes away to nothing.
pub const FALLBACK_STEM: &'static str = "transcript";

/// Maximum length, in bytes, of the sanitized filename stem.
pub const MAX_STEM_LEN: usize = 100;

/// Default output directory, relative to the current working directory.
pub const DEFAULT_OUTPUT_DIR: &'static str = "video-from-text";

/// A path separator on any platform: `/` or `\`.
pub open spec fn is_separator(c: char) -> bool {
    c == '/' || c == '\\'
}

/// Characters kept as they are in a filename stem: ASCII letters and digits, `-`, `_`.
pub open spec fn is_stem_char(c: char) -> bool {
    ('a' <= c <= 'z') || ('A' <= c <= 'Z') || ('0' <= c <= '9') || c == '-' || c == '_'
}

/// The index just after the last separator in `s` (0 when there is none).
pub open spec fn last_separator_end(s: Seq<char>) -> int
    decreases s.len(),
{
    if s.len() == 0 {
        0
    } else if is_separator(s.last()) {
        s.len() as int
    } else {
        last_separator_end(s.drop_last())
    }
}

/// The last separator-delimited component of `s`.
pub open spec fn last_component(s: Seq<char>) -> Seq<char> {
    s.skip(last_separator_end(s))
}

/// Each character that is not a stem character replaced with `-`.
pub open spec fn replace_unsafe(s: Seq<char>) -> Seq<char> {
    s.map_values(|c: char| if is_stem_char(c) { c } else { '-' })
}

/// The unsafe-character replacement keeps every ASCII letter, ASCII digit,
/// `-` and `_` where it stands, turns every other character into `-`, and
/// keeps the length.
pub proof fn lemma_replace_unsafe_keeps_stem_chars(s: Seq<char>)
    ensures
        replace_unsafe(s).len() == s.len(),
        forall|i: int|
            0 <= i < s.len() ==> {
                let c = s[i];
                if ('a' <= c && c <= 'z') || ('A' <= c && c <= 'Z') || ('0' <= c && c <= '9')
                    || c == '-' || c == '_' {
                    #[trigger] replace_unsafe(s)[i] == c
                } else {
                    replace_unsafe(s)[i] == '-'
                }
            },
{
}

/// `s` with its runs of `-` collapsed to one `-`.
pub open spec fn collapse_dashes(s: Seq<char>) -> Seq<char>
    decreases s.len(),
{
    if s.len() == 0 {
        s
    } else {
        let r = collapse_dashes(s.drop_last());
        if s.last() == '-' && r.len() > 0 && r.last() == '-' {
            r
        } else {
            r.push(s.last())
        }
    }
}

/// `-` and `_`, the characters trimmed from both ends of a stem.
pub open spec fn is_dash_or_underscore(c: char) -> bool {
    c == '-' || c == '_'
}

/// The sanitized stem before the length limit: the last component (empty
/// when it is `.` or `..`), unsafe characters replaced with `-`, leading `.`
/// stripped, dash runs collapsed, `-`/`_` trimmed at both ends, and the
/// fallback name when nothing is left.
pub open spec fn sanitized_untruncated(raw: Seq<char>) -> Seq<char> {
    let last = last_component(raw);
    let candidate = if last == seq!['.'] || last == seq!['.', '.'] {
        Seq::<char>::empty()
    } else {
        last
    };
    let mapped = replace_unsafe(candidate);
    let undotted = trim_start_matching(mapped, |c: char| c == '.');
    let trimmed = trim_matching(collapse_dashes(undotted), |c: char| is_dash_or_underscore(c));
    if trimmed.len() == 0 {
        FALLBACK_STEM@
    } else {
        trimmed
    }
}

/// The sanitized filename stem for `raw`: [`sanitized_untruncated`] cut to
/// `MAX_STEM_LEN` characters (all of its characters are ASCII, so this is
/// also its byte length).
pub open spec fn sanitized_stem(raw: Seq<char>) -> Seq<char> {
    let s = sanitized_untruncated(raw);
    if s.len() <= MAX_STEM_LEN {
        s
    } else {
        s.take(MAX_STEM_LEN as int)
    }
}

proof fn lemma_collapse_props(s: Seq<char>)
    requires
        forall|i: int| 0 <= i < s.len() ==> is_stem_char(#[trigger] s[i]),
    ensures
        forall|i: int| 0 <= i < collapse_dashes(s).len() ==> is_stem_char(#[trigger] collapse_dashes(s)[i]),
        forall|i: int|
            0 <= i < collapse_dashes(s).len() - 1 ==> !(#[trigger] collapse_dashes(s)[i] == '-'
                && collapse_dashes(s)[i + 1] == '-'),
        s.len() > 0 ==> collapse_dashes(s).len() > 0 && collapse_dashes(s).last() == s.last(),
    decreases s.len(),
{
    if s.len() > 0 {
        let d = s.drop_last();
        assert forall|i: int| 0 <= i < d.len() implies is_stem_char(#[trigger] d[i]) by {
            assert(d[i] == s[i]);
        }
        lemma_collapse_props(d);
        let r = collapse_dashes(d);
        let c = collapse_dashes(s);
        if s.last() == '-' && r.len() > 0 && r.last() == '-' {
            assert(c == r);
        } else {
            assert(c == r.push(s.last()));
            assert(is_stem_char(s[s.len() - 1]));
            assert forall|i: int| 0 <= i < c.len() implies is_stem_char(#[trigger] c[i]) by {
                if i < r.len() {
                    assert(c[i] == r[i]);
                }
            }
            assert forall|i: int| 0 <= i < c.len() - 1 implies !(#[trigger] c[i] == '-' && c[i
                + 1] == '-') by {
                if i < r.len() - 1 {
                    assert(c[i] == r[i] && c[i + 1] == r[i + 1]);
                }
            }
        }
    }
}

/// The stem characters are plain ASCII.
proof fn lemma_stem_chars_ascii(s: Seq<char>)
    requires
        forall|i: int| 0 <= i < s.len() ==> is_stem_char(#[trigger] s[i]),
    ensures
        is_ascii_chars(s),
{
}

proof fn lemma_fallback_view()
    ensures
        FALLBACK_STEM@ == seq!['t', 'r', 'a', 'n', 's', 'c', 'r', 'i', 'p', 't'],
{
    reveal_strlit("transcript");
}

/// Before the length limit, the sanitized stem is a nonempty run of stem
/// characters with no two consecutive `-`, neither starting nor ending with
/// `-` or `_`.
proof fn lemma_sanitized_untruncated_shape(raw: Seq<char>)
    ensures
        ({
            let s = sanitized_untruncated(raw);
            &&& 0 < s.len()
            &&& forall|i: int| 0 <= i < s.len() ==> is_stem_char(#[trigger] s[i])
            &&& forall|i: int| 0 <= i < s.len() - 1 ==> !(#[trigger] s[i] == '-' && s[i + 1] == '-')
            &&& !is_dash_or_underscore(s[0])
            &&& !is_dash_or_underscore(s.last())
        }),
{
    lemma_fallback_view();
    let last = last_component(raw);
    let candidate = if last == seq!['.'] || last == seq!['.', '.'] {
        Seq::<char>::empty()
    } else {
        last
    };
    let mapped = replace_unsafe(candidate);
    assert(forall|i: int| 0 <= i < mapped.len() ==> is_stem_char(#[trigger] mapped[i]));
    assert(mapped.len() == 0 || mapped[0] != '.');
    assert(trim_start_matching(mapped, |c: char| c == '.') == mapped);
    lemma_collapse_props(mapped);
    let collapsed = collapse_dashes(mapped);
    let p = |c: char| is_dash_or_underscore(c);
    let i = choose_trim_start(collapsed);
    let j = choose_trim_end(collapsed, i);
    lemma_trim_bounds(collapsed, p, i, j);
    let trimmed = collapsed.subrange(i, j);
    assert(forall|k: int| 0 <= k < trimmed.len() ==> trimmed[k] == collapsed[k + i]);
    if trimmed.len() > 0 {
        assert(trimmed[0] == collapsed[i] && trimmed.last() == collapsed[j - 1]);
    }
}

/// The sanitized stem consists of stem characters only (so it is ASCII and
/// holds no `.`, `/` or `\\`), is never empty, has no two consecutive `-`,
/// never starts with `-` or `_`, and has at most `MAX_STEM_LEN` characters;
/// it ends with neither `-` nor `_` unless the length limit cut it.
pub proof fn lemma_sanitized_stem_shape(raw: Seq<char>)
    ensures
        ({
            let s = sanitized_stem(raw);
            &&& 0 < s.len() <= MAX_STEM_LEN
            &&& forall|i: int| 0 <= i < s.len() ==> is_stem_char(#[trigger] s[i])
            &&& forall|i: int| 0 <= i < s.len() - 1 ==> !(#[trigger] s[i] == '-' && s[i + 1] == '-')
            &&& is_ascii_chars(s)
            &&& !is_dash_or_underscore(s[0])
            &&& sanitized_untruncated(raw).len() <= MAX_STEM_LEN ==> !is_dash_or_underscore(
                s.last(),
            )
        }),
{
    lemma_sanitized_untruncated_shape(raw);
    let u = sanitized_untruncated(raw);
    let s = sanitized_stem(raw);
    assert(forall|k: int| 0 <= k < s.len() ==> s[k] == u[k]);
    lemma_stem_chars_ascii(s);
}

/// The first index from which `s` does not start with `-` or `_` (or its length).
proof fn choose_trim_start(s: Seq<char>) -> (i: int)
    ensures
        0 <= i <= s.len(),
        forall|k: int| 0 <= k < i ==> is_dash_or_underscore(#[trigger] s[k]),
        i < s.len() ==> !is_dash_or_underscore(s[i]),
    decreases s.len(),
{
    if s.len() == 0 || !is_dash_or_underscore(s[0]) {
        0
    } else {
        let r = choose_trim_start(s.drop_first());
        assert forall|k: int| 0 <= k < r + 1 implies is_dash_or_underscore(#[trigger] s[k]) by {
            if k > 0 {
                assert(s[k] == s.drop_first()[k - 1]);
            }
        }
        r + 1
    }
}

/// The end index of `s[i..]` after dropping trailing `-` and `_`.
proof fn choose_trim_end(s: Seq<char>, i: int) -> (j: int)
    requires
        0 <= i <= s.len(),
        i < s.len() ==> !is_dash_or_underscore(s[i]),
    ensures
        i <= j <= s.len(),
        forall|k: int| j <= k < s.len() ==> is_dash_or_underscore(#[trigger] s[k]),
        i < j ==> !is_dash_or_underscore(s[j - 1]),
        i == j ==> i == s.len(),
    decreases s.len(),
{
    if s.len() == i || !is_dash_or_underscore(s.last()) {
        s.len() as int
    } else {
        let r = choose_trim_end(s.drop_last(), i);
        assert forall|k: int| r <= k < s.len() implies is_dash_or_underscore(#[trigger] s[k]) by {
            if k < s.len() - 1 {
                assert(s[k] == s.drop_last()[k]);
            }
        }
        if i < r {
            assert(s[r - 1] == s.drop_last()[r - 1]);
        }
        r
    }
}


/// Truncate `s` to at most `max_len` bytes, cutting at a UTF-8 character
/// boundary rather than splitting a multi-byte character.
pub fn truncate_at_char_boundary(s: &str, max_len: usize) -> (t: &str)
    ensures
        s.spec_bytes().len() <= max_len ==> t@ == s@,
        s.spec_bytes().len() > max_len ==> {
            let k = t.spec_bytes().len() as int;
            &&& k <= max_len
            &&& t.spec_bytes() == s.spec_bytes().take(k)
            &&& is_char_boundary(s.spec_bytes(), k)
            &&& forall|j: int| k < j <= max_len ==> !is_char_boundary(s.spec_bytes(), j)
        },
{
    if s.as_bytes().len() <= max_len {
        return s;
    }
    let mut end = max_len;
    while end > 0 && !s.is_char_boundary(end)
        invariant
            end <= max_len < s.spec_bytes().len(),
            forall|j: int| end < j <= max_len ==> !is_char_boundary(s.spec_bytes(), j),
        decreases end,
    {
        end = end - 1;
    }
    let (head, _tail) = s.split_at(end);
    head
}

proof fn lemma_ascii_not_continuation(b: u8)
    by (bit_vector)
    requires
        b < 128,
    ensures
        !is_continuation_byte(b),
{
}

/// For an ASCII string, cutting at a byte limit cuts at the same character count.
proof fn lemma_ascii_truncation(s: &str, t: &str, max_len: usize)
    requires
        is_ascii_chars(s@),
        s.spec_bytes().len() > max_len,
        t.spec_bytes().len() <= max_len,
        t.spec_bytes() == s.spec_bytes().take(t.spec_bytes().len() as int),
        forall|j: int|
            t.spec_bytes().len() < j <= max_len ==> !is_char_boundary(s.spec_bytes(), j),
    ensures
        t@ == s@.take(max_len as int),
{
    let bytes = s.spec_bytes();
    is_ascii_chars_encode_utf8(s@);
    if t.spec_bytes().len() < max_len {
        let j = max_len as int;
        assert(bytes[j] == s@[j] as u8);
        lemma_ascii_not_continuation(bytes[j]);
        is_char_boundary_iff_not_is_continuation_byte(bytes, j);
    }
    let prefix = s@.take(max_len as int);
    assert(is_ascii_chars(prefix));
    is_ascii_chars_encode_utf8(prefix);
    assert(encode_utf8(prefix) == t.spec_bytes());
    encode_utf8_decode_utf8(prefix);
    encode_utf8_decode_utf8(t@);
}


/// The last separator-delimited component of `raw`.
fn last_component_chars(raw: &Vec<char>) -> (last: Vec<char>)
    ensures
        last@ == last_component(raw@),
{
    let mut start: usize = 0;
    let mut i: usize = 0;
    while i < raw.len()
        invariant
            i <= raw.len(),
            start == last_separator_end(raw@.take(i as int)),
            start <= i,
        decreases raw.len() - i,
    {
        assert(raw@.take(i + 1).drop_last() == raw@.take(i as int));
        if raw[i] == '/' || raw[i] == '\\' {
            start = i + 1;
        }
        i = i + 1;
    }
    assert(raw@.take(raw.len() as int) == raw@);
    subrange_chars(raw, start, raw.len())
}

/// Whether `v` is exactly `.` or `..`.
fn is_dot_name(v: &Vec<char>) -> (b: bool)
    ensures
        b == (v@ == seq!['.'] || v@ == seq!['.', '.']),
{
    if v.len() == 1 && v[0] == '.' {
        assert(v@ =~= seq!['.']);
        true
    } else if v.len() == 2 && v[0] == '.' && v[1] == '.' {
        assert(v@ =~= seq!['.', '.']);
        true
    } else {
        proof {
            if v@ == seq!['.'] {
                assert(v@.len() == 1 && v@[0] == '.');
            }
            if v@ == seq!['.', '.'] {
                assert(v@.len() == 2 && v@[0] == '.' && v@[1] == '.');
            }
        }
        false
    }
}

/// Every character outside `[A-Za-z0-9_-]` replaced with `-`.
fn replace_unsafe_chars(v: &Vec<char>) -> (out: Vec<char>)
    ensures
        out@ == replace_unsafe(v@),
{
    let mut out: Vec<char> = Vec::new();
    let mut i: usize = 0;
    while i < v.len()
        invariant
            i <= v.len(),
            out@ == replace_unsafe(v@.take(i as int)),
        decreases v.len() - i,
    {
        let c = v[i];
        let safe = ('a' <= c && c <= 'z') || ('A' <= c && c <= 'Z') || ('0' <= c && c <= '9')
            || c == '-' || c == '_';
        out.push(if safe { c } else { '-' });
        i = i + 1;
        assert(replace_unsafe(v@.take(i as int)) =~= out@);
    }
    assert(v@.take(v.len() as int) == v@);
    out
}

/// `v` without its leading `.` characters.
fn strip_leading_dots(v: &Vec<char>) -> (out: Vec<char>)
    ensures
        out@ == trim_start_matching(v@, |c: char| c == '.'),
{
    let mut d: usize = 0;
    while d < v.len() && v[d] == '.'
        invariant
            d <= v.len(),
            forall|k: int| 0 <= k < d ==> #[trigger] v@[k] == '.',
        decreases v.len() - d,
    {
        d = d + 1;
    }
    proof {
        lemma_trim_start_skip(v@, |c: char| c == '.', d as int);
        let rest = v@.skip(d as int);
        assert(rest.len() == 0 || rest[0] != '.');
    }
    subrange_chars(v, d, v.len())
}

/// `v` with its runs of `-` collapsed to one.
fn collapse_dash_runs(v: &Vec<char>) -> (out: Vec<char>)
    ensures
        out@ == collapse_dashes(v@),
{
    let mut out: Vec<char> = Vec::new();
    let mut prev_dash = false;
    let mut i: usize = 0;
    while i < v.len()
        invariant
            i <= v.len(),
            out@ == collapse_dashes(v@.take(i as int)),
            prev_dash == (out@.len() > 0 && out@.last() == '-'),
        decreases v.len() - i,
    {
        let c = v[i];
        assert(v@.take(i + 1).drop_last() == v@.take(i as int));
        if c == '-' {
            if !prev_dash {
                out.push(c);
            }
            prev_dash = true;
        } else {
            out.push(c);
            prev_dash = false;
        }
        i = i + 1;
    }
    assert(v@.take(v.len() as int) == v@);
    out
}

/// `v` with `-` and `_` trimmed from both ends.
fn trim_dashes_underscores(v: &Vec<char>) -> (out: Vec<char>)
    ensures
        out@ == trim_matching(v@, |c: char| is_dash_or_underscore(c)),
{
    let n = v.len();
    let mut a: usize = 0;
    while a < n && (v[a] == '-' || v[a] == '_')
        invariant
            n == v.len(),
            a <= n,
            forall|k: int| 0 <= k < a ==> is_dash_or_underscore(#[trigger] v@[k]),
        decreases n - a,
    {
        a = a + 1;
    }
    let mut b: usize = n;
    while b > a && (v[b - 1] == '-' || v[b - 1] == '_')
        invariant
            n == v.len(),
            a <= b <= n,
            forall|k: int| b <= k < n ==> is_dash_or_underscore(#[trigger] v@[k]),
        decreases b,
    {
        b = b - 1;
    }
    proof {
        lemma_trim_bounds(v@, |c: char| is_dash_or_underscore(c), a as int, b as int);
    }
    subrange_chars(v, a, b)
}

/// After the last separator, no character is a separator.
proof fn lemma_no_separator_after_last(s: Seq<char>)
    ensures
        0 <= last_separator_end(s) <= s.len(),
        forall|i: int| last_separator_end(s) <= i < s.len() ==> !is_separator(#[trigger] s[i]),
    decreases s.len(),
{
    if s.len() > 0 && !is_separator(s.last()) {
        let d = s.drop_last();
        lemma_no_separator_after_last(d);
        assert forall|i: int| last_separator_end(s) <= i < s.len() implies !is_separator(
            #[trigger] s[i],
        ) by {
            if i < d.len() {
                assert(s[i] == d[i]);
            }
        }
    }
}

/// A text without separators has no separator to end.
proof fn lemma_no_separator_end(s: Seq<char>)
    requires
        forall|i: int| 0 <= i < s.len() ==> !is_separator(#[trigger] s[i]),
    ensures
        last_separator_end(s) == 0,
    decreases s.len(),
{
    if s.len() > 0 {
        let d = s.drop_last();
        assert forall|i: int| 0 <= i < d.len() implies !is_separator(#[trigger] d[i]) by {
            assert(d[i] == s[i]);
        }
        lemma_no_separator_end(d);
    }
}

/// Only the last path component of a stem counts: sanitizing a stem is
/// sanitizing its last component, which is its own last component.
pub proof fn lemma_sanitize_uses_last_component(raw: Seq<char>)
    ensures
        last_component(last_component(raw)) == last_component(raw),
        sanitized_stem(raw) == sanitized_stem(last_component(raw)),
{
    lemma_no_separator_after_last(raw);
    let k = last_separator_end(raw);
    let l = last_component(raw);
    assert forall|i: int| 0 <= i < l.len() implies !is_separator(#[trigger] l[i]) by {
        assert(l[i] == raw[i + k]);
    }
    lemma_no_separator_end(l);
    assert(l.skip(0) =~= l);
}

/// Collapsing dash runs leaves a text without two consecutive `-` unchanged.
proof fn lemma_collapse_no_runs(s: Seq<char>)
    requires
        forall|i: int| 0 <= i < s.len() - 1 ==> !(#[trigger] s[i] == '-' && s[i + 1] == '-'),
    ensures
        collapse_dashes(s) == s,
    decreases s.len(),
{
    if s.len() > 0 {
        let d = s.drop_last();
        assert forall|i: int| 0 <= i < d.len() - 1 implies !(#[trigger] d[i] == '-' && d[i + 1] == '-') by {
            assert(d[i] == s[i] && d[i + 1] == s[i + 1]);
        }
        lemma_collapse_no_runs(d);
        if d.len() > 0 {
            assert(d.last() == s[s.len() - 2]);
            assert(!(s[s.len() - 2] == '-' && s[s.len() - 1] == '-'));
        }
        assert(d.push(s.last()) =~= s);
    }
}

/// A stem that is already safe is kept as it is: at most `MAX_STEM_LEN`
/// ASCII letters, ASCII digits, `-` and `_`, with no two consecutive `-`,
/// neither starting nor ending with `-` or `_`.
pub proof fn lemma_safe_stem_unchanged(raw: Seq<char>)
    requires
        0 < raw.len() <= MAX_STEM_LEN,
        forall|i: int|
            0 <= i < raw.len() ==> {
                let c = #[trigger] raw[i];
                ('a' <= c && c <= 'z') || ('A' <= c && c <= 'Z') || ('0' <= c && c <= '9') || c
                    == '-' || c == '_'
            },
        forall|i: int| 0 <= i < raw.len() - 1 ==> !(#[trigger] raw[i] == '-' && raw[i + 1] == '-'),
        raw[0] != '-' && raw[0] != '_',
        raw.last() != '-' && raw.last() != '_',
    ensures
        sanitized_stem(raw) == raw,
{
    assert forall|i: int| 0 <= i < raw.len() implies !is_separator(#[trigger] raw[i]) by {}
    lemma_no_separator_end(raw);
    assert(raw.skip(0) =~= raw);
    assert(last_component(raw) == raw);
    assert(raw != seq!['.'] && raw != seq!['.', '.']) by {
        if raw == seq!['.'] || raw == seq!['.', '.'] {
            assert(raw[0] == '.');
        }
    }
    lemma_replace_unsafe_keeps_stem_chars(raw);
    assert(replace_unsafe(raw) =~= raw);
    assert(trim_start_matching(raw, |c: char| c == '.') == raw);
    lemma_collapse_no_runs(raw);
    let p = |c: char| is_dash_or_underscore(c);
    assert(trim_start_matching(raw, p) == raw);
    assert(crate::text::trim_end_matching(raw, p) == raw);
}

/// An ASCII letter or digit.
pub open spec fn is_ascii_alphanumeric(c: char) -> bool {
    ('a' <= c <= 'z') || ('A' <= c <= 'Z') || ('0' <= c <= '9')
}

/// Whether `s` holds an ASCII letter or digit.
pub open spec fn has_ascii_alphanumeric(s: Seq<char>) -> bool {
    exists|i: int| 0 <= i < s.len() && is_ascii_alphanumeric(#[trigger] s[i])
}

/// Trimming everything that satisfies `p` from the start of a text made only
/// of such characters leaves nothing.
proof fn lemma_trim_start_all(s: Seq<char>, p: spec_fn(char) -> bool)
    requires
        forall|i: int| 0 <= i < s.len() ==> p(#[trigger] s[i]),
    ensures
        trim_start_matching(s, p).len() == 0,
    decreases s.len(),
{
    if s.len() > 0 {
        let d = s.drop_first();
        assert forall|i: int| 0 <= i < d.len() implies p(#[trigger] d[i]) by {
            assert(d[i] == s[i + 1]);
        }
        lemma_trim_start_all(d, p);
    }
}

/// Collapsing dashes keeps a text made of `-` and `_` made of them.
proof fn lemma_collapse_keeps_dashes(s: Seq<char>)
    requires
        forall|i: int| 0 <= i < s.len() ==> is_dash_or_underscore(#[trigger] s[i]),
    ensures
        forall|i: int|
            0 <= i < collapse_dashes(s).len() ==> is_dash_or_underscore(
                #[trigger] collapse_dashes(s)[i],
            ),
    decreases s.len(),
{
    if s.len() > 0 {
        let d = s.drop_last();
        assert forall|i: int| 0 <= i < d.len() implies is_dash_or_underscore(#[trigger] d[i]) by {
            assert(d[i] == s[i]);
        }
        lemma_collapse_keeps_dashes(d);
        let r = collapse_dashes(d);
        let c = collapse_dashes(s);
        assert(is_dash_or_underscore(s[s.len() - 1]));
        assert forall|i: int| 0 <= i < c.len() implies is_dash_or_underscore(#[trigger] c[i]) by {
            if i < r.len() {
                assert(c[i] == r[i]);
            }
        }
    }
}

/// A stem whose last component has no ASCII letter or digit sanitizes to the
/// fallback name `transcript`.
pub proof fn lemma_sanitize_fallback(raw: Seq<char>)
    requires
        !has_ascii_alphanumeric(last_component(raw)),
    ensures
        sanitized_stem(raw) == FALLBACK_STEM@,
{
    lemma_fallback_view();
    let last = last_component(raw);
    let candidate = if last == seq!['.'] || last == seq!['.', '.'] {
        Seq::<char>::empty()
    } else {
        last
    };
    assert forall|i: int| 0 <= i < candidate.len() implies !is_ascii_alphanumeric(
        #[trigger] candidate[i],
    ) by {
        assert(candidate[i] == last[i]);
    }
    let mapped = replace_unsafe(candidate);
    assert forall|i: int| 0 <= i < mapped.len() implies is_dash_or_underscore(
        #[trigger] mapped[i],
    ) by {
        assert(!is_ascii_alphanumeric(candidate[i]));
    }
    assert(mapped.len() == 0 || mapped[0] != '.');
    assert(trim_start_matching(mapped, |c: char| c == '.') == mapped);
    lemma_collapse_keeps_dashes(mapped);
    let collapsed = collapse_dashes(mapped);
    lemma_trim_start_all(collapsed, |c: char| is_dash_or_underscore(c));
    let started = trim_start_matching(collapsed, |c: char| is_dash_or_underscore(c));
    assert(crate::text::trim_end_matching(started, |c: char| is_dash_or_underscore(c)) == started);
    assert(sanitized_untruncated(raw) == FALLBACK_STEM@);
}

/// Sanitize a raw filename stem into a safe fragment usable as a filename
/// (see [`sanitized_stem`] for the rules).
pub fn sanitize_stem(raw_stem: &str) -> (stem: String)
    ensures
        stem@ == sanitized_stem(raw_stem@),
{
    let raw = chars_of(raw_stem);
    let last = last_component_chars(&raw);
    let candidate = if is_dot_name(&last) {
        Vec::new()
    } else {
        last
    };
    let mapped = replace_unsafe_chars(&candidate);
    let undotted = strip_leading_dots(&mapped);
    let collapsed = collapse_dash_runs(&undotted);
    let trimmed = trim_dashes_underscores(&collapsed);
    let chosen = if trimmed.len() == 0 {
        chars_of(FALLBACK_STEM)
    } else {
        trimmed
    };
    assert(chosen@ == sanitized_untruncated(raw_stem@));
    proof {
        lemma_sanitized_untruncated_shape(raw_stem@);
        lemma_stem_chars_ascii(chosen@);
        is_ascii_chars_encode_utf8(chosen@);
    }
    let whole = string_from_chars(&chosen);
    let whole_str = whole.as_str();
    assert(whole_str.spec_bytes() == encode_utf8(chosen@));
    assert(whole_str.spec_bytes().len() == chosen.len());
    let cut = truncate_at_char_boundary(whole_str, MAX_STEM_LEN);
    proof {
        if whole_str.spec_bytes().len() > MAX_STEM_LEN {
            lemma_ascii_truncation(whole_str, cut, MAX_STEM_LEN);
        }
    }
    cut.to_owned()
}


/// What `std::path::Path::file_stem` gives for the path `path`: the final
/// component's name without its extension (lossily converted to text), or
/// `None` when the path has no file name. Components are split by the path
/// rules of the platform the library is built for (Windows also splits at
/// `\\`), so the result is platform-specific.
pub uninterp spec fn path_file_stem(path: Seq<char>) -> Option<Seq<char>>;

/// `std::path::Path::file_stem` of `path`, as text.
#[verifier::external_body]
fn file_stem(path: &str) -> (stem: Option<String>)
    ensures
        match stem {
            Some(s) => path_file_stem(path@) == Some(s@),
            None => path_file_stem(path@) is None,
        },
{
    match std::path::Path::new(path).file_stem() {
        Some(s) => Some(s.to_string_lossy().into_owned()),
        None => None,
    }
}

/// The raw stem used for the output name: the path's file stem, or the empty
/// text when it has none.
pub open spec fn raw_video_stem(video_path: Seq<char>) -> Seq<char> {
    match path_file_stem(video_path) {
        Some(s) => s,
        None => Seq::empty(),
    }
}

/// The Markdown filename for a video path: its sanitized stem plus `.md`.
pub open spec fn markdown_filename(video_path: Seq<char>) -> Seq<char> {
    sanitized_stem(raw_video_stem(video_path)) + ".md"@
}

/// Derive a safe, sanitized `.md` filename from a video path's filename stem.
pub fn derive_markdown_filename(video_path: &str) -> (name: String)
    ensures
        name@ == markdown_filename(video_path@),
{
    let raw_stem = match file_stem(video_path) {
        Some(s) => s,
        None => String::new(),
    };
    let mut name = sanitize_stem(raw_stem.as_str());
    name.append(".md");
    name
}

/// Errors that can occur while writing the final Markdown output.
#[derive(Debug)]
pub enum OutputError {
    /// The output directory could not be created.
    CreateOutputDir { path: String, reason: String },
    /// A Markdown transcript already exists at the destination path and
    /// `overwrite` was not set.
    AlreadyExists { path: String },
    /// A temporary file for atomic publication could not be created.
    TempFile { dir: String, reason: String },
    /// The Markdown content could not be written to the temporary file.
    Write { path: String, reason: String },
    /// The temporary file could not be published (renamed) to the
    /// destination path.
    Persist { path: String, reason: String },
}

impl OutputError {
    /// The human-readable message for this error.
    pub open spec fn describe(&self) -> Seq<char> {
        match self {
            OutputError::CreateOutputDir { path, reason } => "could not create output directory "@
                + path@ + ": "@ + reason@,
            OutputError::AlreadyExists { path } => "a transcript already exists at "@ + path@
                + " — pass --overwrite to replace it"@,
            OutputError::TempFile { dir, reason } => "could not create a temporary file in "@
                + dir@ + ": "@ + reason@,
            OutputError::Write { path, reason } => "could not write Markdown to "@ + path@ + ": "@
                + reason@,
            OutputError::Persist { path, reason } =>
                "could not publish the Markdown transcript to "@ + path@ + ": "@ + reason@,
        }
    }

    /// The human-readable message for this error (what `Display` printed).
    pub fn message(&self) -> (m: String)
        ensures
            m@ == self.describe(),
    {
        match self {
            OutputError::CreateOutputDir { path, reason } => {
                let mut m = "could not create output directory ".to_owned();
                m.append(path.as_str());
                m.append(": ");
                m.append(reason.as_str());
                m
            },
            OutputError::AlreadyExists { path } => {
                let mut m = "a transcript already exists at ".to_owned();
                m.append(path.as_str());
                m.append(" — pass --overwrite to replace it");
                m
            },
            OutputError::TempFile { dir, reason } => {
                let mut m = "could not create a temporary file in ".to_owned();
                m.append(dir.as_str());
                m.append(": ");
                m.append(reason.as_str());
                m
            },
            OutputError::Write { path, reason } => {
                let mut m = "could not write Markdown to ".to_owned();
                m.append(path.as_str());
                m.append(": ");
                m.append(reason.as_str());
                m
            },
            OutputError::Persist { path, reason } => {
                let mut m = "could not publish the Markdown transcript to ".to_owned();
                m.append(path.as_str());
                m.append(": ");
                m.append(reason.as_str());
                m
            },
        }
    }
}

/// Decide whether publishing at `destination` may go ahead: an existing
/// transcript is only replaced when `overwrite` is set.
pub fn check_destination(destination: &str, exists: bool, overwrite: bool) -> (r: Result<
    (),
    OutputError,
>)
    ensures
        r is Ok <==> (overwrite || !exists),
        r matches Err(e) ==> e matches OutputError::AlreadyExists { path } && path@ == destination@,
{
    if !overwrite && exists {
        Err(OutputError::AlreadyExists { path: destination.to_owned() })
    } else {
        Ok(())
    }
}


/// The escaped form of one character inside a double-quoted YAML scalar:
/// `\` and `"` get a preceding backslash.
pub open spec fn escape_char(c: char) -> Seq<char> {
    if c == '\\' {
        seq!['\\', '\\']
    } else if c == '"' {
        seq!['\\', '"']
    } else {
        seq![c]
    }
}

/// `s` with every `\` and `"` escaped by a preceding backslash.
pub open spec fn escape_quoted(s: Seq<char>) -> Seq<char>
    decreases s.len(),
{
    if s.len() == 0 {
        s
    } else {
        escape_quoted(s.drop_last()) + escape_char(s.last())
    }
}

/// Escaping for a double-quoted YAML scalar changes only `\` and `"`, each
/// into itself behind a backslash; every other character stays as it is, so
/// a text holding neither is left unchanged.
pub proof fn lemma_escape_changes_only_quotes_and_backslashes(s: Seq<char>)
    ensures
        escape_char('\\') == seq!['\\', '\\'],
        escape_char('"') == seq!['\\', '"'],
        forall|c: char| c != '\\' && c != '"' ==> #[trigger] escape_char(c) == seq![c],
        (forall|i: int| 0 <= i < s.len() ==> s[i] != '\\' && s[i] != '"') ==> escape_quoted(s) == s,
    decreases s.len(),
{
    if s.len() > 0 {
        lemma_escape_changes_only_quotes_and_backslashes(s.drop_last());
        if forall|i: int| 0 <= i < s.len() ==> s[i] != '\\' && s[i] != '"' {
            let d = s.drop_last();
            assert(forall|i: int| 0 <= i < d.len() ==> d[i] == s[i]);
            assert(s[s.len() - 1] != '\\' && s[s.len() - 1] != '"');
            assert(escape_quoted(s) =~= s);
        }
    }
}

/// Escaping works character by character: the escaped form of a text
/// followed by another is the escaped first text followed by the escaped
/// second, and the escaped form of one character is its own escape.
pub proof fn lemma_escape_quoted_concat(a: Seq<char>, b: Seq<char>)
    ensures
        escape_quoted(a + b) == escape_quoted(a) + escape_quoted(b),
    decreases b.len(),
{
    if b.len() == 0 {
        assert(a + b =~= a);
        assert(escape_quoted(b) =~= Seq::<char>::empty());
    } else {
        lemma_escape_quoted_concat(a, b.drop_last());
        assert((a + b).drop_last() =~= a + b.drop_last());
        assert((a + b).last() == b.last());
        assert(escape_quoted(a + b) =~= escape_quoted(a) + escape_quoted(b));
    }
}

/// The escaped form of a single character is that character's escape.
pub proof fn lemma_escape_quoted_single(c: char)
    ensures
        escape_quoted(seq![c]) == escape_char(c),
{
    let e = Seq::<char>::empty();
    assert(seq![c].drop_last() =~= e);
    assert(seq![c].last() == c);
    assert(escape_quoted(e) =~= e);
    assert(escape_quoted(seq![c]) == escape_quoted(e) + escape_char(c));
    assert(escape_quoted(seq![c]) =~= escape_char(c));
}

/// The front matter's opening up to the source filename.
pub const FRONT_MATTER_SOURCE: &'static str = "---\nsource: \"";

/// The front matter between the source filename and the timestamp.
pub const FRONT_MATTER_GENERATED_AT: &'static str = "\"\ngenerated_at: \"";

/// The front matter's end, after the timestamp.
pub const FRONT_MATTER_END: &'static str = "\"\n---\n\n";

/// The trailing note that the transcript is model-edited and needs review.
pub const REVIEW_NOTE: &'static str = "\n\n> This transcript was produced with model-assisted transcription and cleanup. It is not a verbatim or accessibility-certified transcript and requires human review before publishing.\n";

/// The Markdown document: front matter with the escaped source filename and
/// the generation timestamp, the trimmed transcript, and the review note.
pub open spec fn markdown_document(source: Seq<char>, cleaned: Seq<char>, secs: u64) -> Seq<char> {
    FRONT_MATTER_SOURCE@ + escape_quoted(source) + FRONT_MATTER_GENERATED_AT@ + utc_timestamp(secs)
        + FRONT_MATTER_END@ + trim(cleaned) + REVIEW_NOTE@
}

/// `s` with every `\` and `"` escaped by a preceding backslash.
fn escape_quoted_chars(s: &Vec<char>) -> (out: Vec<char>)
    ensures
        out@ == escape_quoted(s@),
{
    let mut out: Vec<char> = Vec::new();
    let mut i: usize = 0;
    while i < s.len()
        invariant
            i <= s.len(),
            out@ == escape_quoted(s@.take(i as int)),
        decreases s.len() - i,
    {
        let c = s[i];
        assert(s@.take(i + 1).drop_last() == s@.take(i as int));
        let ghost before = out@;
        if c == '\\' {
            out.push('\\');
            out.push('\\');
        } else if c == '"' {
            out.push('\\');
            out.push('"');
        } else {
            out.push(c);
        }
        assert(out@ =~= before + escape_char(c));
        i = i + 1;
    }
    assert(s@.take(s.len() as int) == s@);
    out
}

/// Render the full Markdown document: minimal YAML front matter (source
/// filename and a generation timestamp for `now_secs` seconds after the Unix
/// epoch) followed by the cleaned transcript, with a trailing note that the
/// transcript is model-edited and not a verbatim or accessibility-certified
/// record.
pub fn render_markdown(source_filename: &str, cleaned_transcript: &str, now_secs: u64) -> (doc:
    String)
    ensures
        doc@ == markdown_document(source_filename@, cleaned_transcript@, now_secs),
{
    let timestamp = format_utc_timestamp(now_secs);
    let escaped = string_from_chars(&escape_quoted_chars(&chars_of(source_filename)));
    let body = string_from_chars(&trimmed_chars(&chars_of(cleaned_transcript)));
    let mut doc = FRONT_MATTER_SOURCE.to_owned();
    doc.append(escaped.as_str());
    doc.append(FRONT_MATTER_GENERATED_AT);
    doc.append(timestamp.as_str());
    doc.append(FRONT_MATTER_END);
    doc.append(body.as_str());
    doc.append(REVIEW_NOTE);
    doc
}

/// What `std::path::Path::file_name` gives for the path `path`: its final
/// component (lossily converted to text), or `None` when the path ends in
/// `..` or has no components. Components are split by the path rules of the
/// platform the library is built for, so the result is platform-specific.
pub uninterp spec fn path_file_name(path: Seq<char>) -> Option<Seq<char>>;

/// `std::path::Path::file_name` of `path`, as text.
#[verifier::external_body]
fn file_name(path: &str) -> (name: Option<String>)
    ensures
        match name {
            Some(n) => path_file_name(path@) == Some(n@),
            None => path_file_name(path@) is None,
        },
{
    match std::path::Path::new(path).file_name() {
        Some(n) => Some(n.to_string_lossy().into_owned()),
        None => None,
    }
}

/// The name recorded as the transcript's source: the video path's file name,
/// or the whole path when it has none.
pub open spec fn source_name(video_path: Seq<char>) -> Seq<char> {
    match path_file_name(video_path) {
        Some(n) => n,
        None => video_path,
    }
}

/// A Markdown transcript ready to be published: where it goes and what it
/// holds.
#[derive(Debug)]
pub struct MarkdownWrite {
    /// The destination path of the `.md` file.
    pub destination: String,
    /// The full Markdown document.
    pub content: String,
}

/// Decide the publication of `cleaned_transcript`, transcribed from
/// `video_path`, at `destination` (the output directory joined with
/// [`derive_markdown_filename`] of the video path), given whether a file
/// already exists there and the current time in seconds since the Unix
/// epoch.
///
/// An existing transcript is refused unless `overwrite` is set; otherwise the
/// document to write is the rendered Markdown with the video's file name as
/// its source.
pub fn write_markdown(
    video_path: &str,
    destination: &str,
    cleaned_transcript: &str,
    overwrite: bool,
    destination_exists: bool,
    now_secs: u64,
) -> (r: Result<MarkdownWrite, OutputError>)
    ensures
        r is Ok <==> (overwrite || !destination_exists),
        r matches Err(e) ==> e matches OutputError::AlreadyExists { path } && path@
            == destination@,
        r matches Ok(w) ==> w.destination@ == destination@ && w.content@ == markdown_document(
            source_name(video_path@),
            cleaned_transcript@,
            now_secs,
        ),
{
    match check_destination(destination, destination_exists, overwrite) {
        Err(e) => Err(e),
        Ok(()) => {
            let source = match file_name(video_path) {
                Some(n) => n,
                None => video_path.to_owned(),
            };
            let content = render_markdown(source.as_str(), cleaned_transcript, now_secs);
            Ok(MarkdownWrite { destination: destination.to_owned(), content })
        },
    }
}

} // verus!

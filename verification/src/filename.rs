//! Construction of filesystem-safe, collision-free capture filenames.
//!
//! A filename is `{timestamp}-{ordinal}-{sanitizedName}.png`. Sanitization
//! keeps ASCII letters, digits, `-` and `_`, maps everything else to `_`,
//! collapses runs of `_` and trims `_` from both ends. A blank or missing
//! display name is replaced by `monitor{ordinal}` before sanitization, and
//! the ordinal makes filenames of one batch pairwise distinct.

use vstd::prelude::*;

verus! {

/// Characters that sanitization keeps as they are: ASCII letters, digits,
/// `-` and `_`.
pub open spec fn keep_char(c: char) -> bool {
    ('a' <= c && c <= 'z') || ('A' <= c && c <= 'Z') || ('0' <= c && c <= '9') || c == '-' || c
        == '_'
}

/// Characters allowed anywhere in a finished filename: the kept characters
/// plus the extension separator (which the timestamp also uses before its
/// millisecond part).
pub open spec fn fname_char(c: char) -> bool {
    keep_char(c) || c == '.'
}

/// What one character sanitizes to: itself if kept, `_` otherwise
/// (ASCII space therefore becomes `_`, as does every non-ASCII character).
pub open spec fn sanitize_char(c: char) -> char {
    if keep_char(c) {
        c
    } else {
        '_'
    }
}

/// The Unicode White_Space characters (the set `str::trim` removes); a
/// name made only of these counts as absent.
pub open spec fn space_char(c: char) -> bool {
    ('\u{9}' <= c && c <= '\u{d}') || c == ' ' || c == '\u{85}' || c == '\u{a0}' || c == '\u{1680}'
        || ('\u{2000}' <= c && c <= '\u{200a}') || c == '\u{2028}' || c == '\u{2029}' || c
        == '\u{202f}' || c == '\u{205f}' || c == '\u{3000}'
}

/// A name that is empty or all whitespace: it carries no usable identity
/// and is replaced by `monitor{ordinal}`.
pub open spec fn blank(s: Seq<char>) -> bool {
    forall|i: int| 0 <= i < s.len() ==> space_char(#[trigger] s[i])
}

/// One step of sanitization: append the sanitized character unless it is a
/// `_` that would start the string or double an existing `_`.
pub open spec fn norm_step(acc: Seq<char>, c: char) -> Seq<char> {
    let k = sanitize_char(c);
    if k == '_' && (acc.len() == 0 || acc.last() == '_') {
        acc
    } else {
        acc.push(k)
    }
}

/// The sanitized string before the final trim: runs of `_` collapsed and
/// leading `_` dropped; at most one `_` may remain at the end.
pub open spec fn norm_core(s: Seq<char>) -> Seq<char>
    decreases s.len(),
{
    if s.len() == 0 {
        Seq::empty()
    } else {
        norm_step(norm_core(s.drop_last()), s.last())
    }
}

/// The sanitized form of a raw name: kept characters unchanged, everything
/// else mapped to `_`, runs of `_` collapsed, no `_` at either end.
pub open spec fn normalized_spec(s: Seq<char>) -> Seq<char> {
    let t = norm_core(s);
    if t.len() > 0 && t.last() == '_' {
        t.drop_last()
    } else {
        t
    }
}

/// The character of one decimal digit.
pub open spec fn digit_char(d: nat) -> char {
    if d == 0 {
        '0'
    } else if d == 1 {
        '1'
    } else if d == 2 {
        '2'
    } else if d == 3 {
        '3'
    } else if d == 4 {
        '4'
    } else if d == 5 {
        '5'
    } else if d == 6 {
        '6'
    } else if d == 7 {
        '7'
    } else if d == 8 {
        '8'
    } else {
        '9'
    }
}

/// The usual decimal rendering of a number, most significant digit first,
/// without leading zeros (a single `0` for zero).
pub open spec fn dec_digits(n: nat) -> Seq<char>
    decreases n,
{
    if n < 10 {
        seq![digit_char(n)]
    } else {
        dec_digits(n / 10).push(digit_char(n % 10))
    }
}

/// The substitute name for a display whose raw name is blank.
pub open spec fn monitor_label(ordinal: nat) -> Seq<char> {
    seq!['m', 'o', 'n', 'i', 't', 'o', 'r'] + dec_digits(ordinal)
}

/// The name a display contributes to its filename, before sanitization:
/// its raw name, or `monitor{ordinal}` when the raw name is blank.
pub open spec fn display_label(raw: Seq<char>, ordinal: nat) -> Seq<char> {
    if blank(raw) {
        monitor_label(ordinal)
    } else {
        raw
    }
}

/// The filename extension.
pub open spec fn ext_seq() -> Seq<char> {
    seq!['.', 'p', 'n', 'g']
}

/// The character content of an optional raw display name: a name the
/// display subsystem could not read counts as empty.
pub open spec fn raw_view_of(o: Option<String>) -> Seq<char> {
    match o {
        Option::Some(s) => s@,
        Option::None => Seq::empty(),
    }
}

/// The complete capture filename for one display of one batch:
/// `{timestamp}-{ordinal}-{sanitized label}.png`.
pub open spec fn filename_spec(ts: Seq<char>, ordinal: nat, raw: Seq<char>) -> Seq<char> {
    ts + seq!['-'] + dec_digits(ordinal) + seq!['-'] + normalized_spec(
        display_label(raw, ordinal),
    ) + ext_seq()
}

/// Relies on std's String::push: appends exactly the one character at the
/// end of the string.
#[verifier::external_body]
pub(crate) fn push_char(s: &mut String, c: char)
    ensures
        final(s)@ == old(s)@.push(c),
{
    s.push(c);
}

fn sanitize(c: char) -> (r: char)
    ensures
        r == sanitize_char(c),
{
    if ('a' <= c && c <= 'z') || ('A' <= c && c <= 'Z') || ('0' <= c && c <= '9') || c == '-' || c
        == '_' {
        c
    } else {
        '_'
    }
}

/// Whether a raw display name is blank (empty or all whitespace) and must
/// give way to the `monitor{ordinal}` substitute.
pub fn is_blank(s: &str) -> (r: bool)
    ensures
        r == blank(s@),
{
    let n = s.unicode_len();
    let mut i: usize = 0;
    while i < n
        invariant
            0 <= i <= n,
            n == s@.len(),
            forall|j: int| 0 <= j < i ==> space_char(#[trigger] s@[j]),
        decreases n - i,
    {
        let c = s.get_char(i);
        if !(('\u{9}' <= c && c <= '\u{d}') || c == ' ' || c == '\u{85}' || c == '\u{a0}' || c
            == '\u{1680}' || ('\u{2000}' <= c && c <= '\u{200a}') || c == '\u{2028}' || c
            == '\u{2029}' || c == '\u{202f}' || c == '\u{205f}' || c == '\u{3000}') {
            return false;
        }
        i += 1;
    }
    true
}

/// Sanitizes a display name: keeps ASCII letters, digits, `-` and `_`, maps
/// every other character to `_`, collapses runs of `_` and trims `_` from
/// both ends.
pub fn normalized(s: &str) -> (r: String)
    ensures
        r@ == normalized_spec(s@),
{
    let n = s.unicode_len();
    let mut out = String::new();
    let mut pending = false;
    let mut i: usize = 0;
    while i < n
        invariant
            0 <= i <= n,
            n == s@.len(),
            norm_core(s@.take(i as int)) == if pending {
                out@.push('_')
            } else {
                out@
            },
            pending ==> out@.len() > 0,
            out@.len() > 0 ==> out@.last() != '_',
        decreases n - i,
    {
        let c = s.get_char(i);
        let k = sanitize(c);
        proof {
            assert(s@.take(i + 1).drop_last() =~= s@.take(i as int));
            assert(s@.take(i + 1).last() == s@[i as int]);
        }
        if k == '_' {
            if out.unicode_len() > 0 && !pending {
                pending = true;
            }
        } else {
            if pending {
                push_char(&mut out, '_');
                pending = false;
            }
            push_char(&mut out, k);
        }
        i += 1;
    }
    proof {
        assert(s@.take(n as int) =~= s@);
    }
    out
}

fn digit_of(d: usize) -> (c: char)
    requires
        d < 10,
    ensures
        c == digit_char(d as nat),
{
    match d {
        0 => '0',
        1 => '1',
        2 => '2',
        3 => '3',
        4 => '4',
        5 => '5',
        6 => '6',
        7 => '7',
        8 => '8',
        _ => '9',
    }
}

fn push_digits(out: &mut String, n: usize)
    ensures
        final(out)@ == old(out)@ + dec_digits(n as nat),
    decreases n,
{
    if n < 10 {
        push_char(out, digit_of(n));
        proof {
            assert(old(out)@.push(digit_char(n as nat)) =~= old(out)@ + dec_digits(n as nat));
        }
    } else {
        push_digits(out, n / 10);
        push_char(out, digit_of(n % 10));
        proof {
            assert((old(out)@ + dec_digits((n / 10) as nat)).push(digit_char((n % 10) as nat))
                =~= old(out)@ + dec_digits(n as nat));
        }
    }
}

/// Builds the capture filename for one display:
/// `{timestamp}-{ordinal}-{sanitized label}.png`, where the label is the raw
/// name, or `monitor{ordinal}` when the raw name is blank. Pure and total:
/// every input yields a well-formed filename.
pub fn build_filename(ts: &str, ordinal: usize, raw_name: &str) -> (r: String)
    ensures
        r@ == filename_spec(ts@, ordinal as nat, raw_name@),
{
    let mut out = ts.to_owned();
    push_char(&mut out, '-');
    push_digits(&mut out, ordinal);
    push_char(&mut out, '-');
    let label: String = if is_blank(raw_name) {
        let mut l = String::from_str("monitor");
        proof {
            reveal_strlit("monitor");
            assert("monitor"@ =~= seq!['m', 'o', 'n', 'i', 't', 'o', 'r']);
        }
        push_digits(&mut l, ordinal);
        l
    } else {
        raw_name.to_owned()
    };
    let norm = normalized(label.as_str());
    out.append(norm.as_str());
    push_char(&mut out, '.');
    push_char(&mut out, 'p');
    push_char(&mut out, 'n');
    push_char(&mut out, 'g');
    proof {
        assert(out@ =~= filename_spec(ts@, ordinal as nat, raw_name@));
    }
    out
}

/// A decimal digit character.
pub open spec fn digit(c: char) -> bool {
    '0' <= c && c <= '9'
}

proof fn lemma_dec_digits_shape(n: nat)
    ensures
        dec_digits(n).len() >= 1,
        forall|i: int| 0 <= i < dec_digits(n).len() ==> digit(#[trigger] dec_digits(n)[i]),
    decreases n,
{
    if n >= 10 {
        lemma_dec_digits_shape(n / 10);
    }
}

proof fn lemma_dec_digits_injective(a: nat, b: nat)
    requires
        dec_digits(a) == dec_digits(b),
    ensures
        a == b,
    decreases a,
{
    lemma_dec_digits_shape(a / 10);
    lemma_dec_digits_shape(b / 10);
    if a < 10 && b < 10 {
        assert(dec_digits(a)[0] == digit_char(a));
        assert(dec_digits(b)[0] == digit_char(b));
    } else if a < 10 {
        assert(dec_digits(b).len() >= 2);
    } else if b < 10 {
        assert(dec_digits(a).len() >= 2);
    } else {
        assert(dec_digits(a).last() == digit_char(a % 10));
        assert(dec_digits(b).last() == digit_char(b % 10));
        assert(a % 10 == b % 10);
        assert(dec_digits(a).drop_last() =~= dec_digits(a / 10));
        assert(dec_digits(b).drop_last() =~= dec_digits(b / 10));
        lemma_dec_digits_injective(a / 10, b / 10);
    }
}

proof fn lemma_norm_core_shape(s: Seq<char>)
    ensures
        forall|i: int| 0 <= i < norm_core(s).len() ==> keep_char(#[trigger] norm_core(s)[i]),
        norm_core(s).len() > 0 ==> norm_core(s)[0] != '_',
        forall|i: int|
            0 <= i && i + 1 < norm_core(s).len() ==> !((#[trigger] norm_core(s)[i]) == '_'
                && norm_core(s)[i + 1] == '_'),
    decreases s.len(),
{
    if s.len() > 0 {
        lemma_norm_core_shape(s.drop_last());
    }
}

/// The sanitized name is made only of kept characters, has no doubled `_`,
/// and neither starts nor ends with `_` (part of: every filename is
/// filesystem-safe).
pub proof fn lemma_normalized_shape(s: Seq<char>)
    ensures
        forall|i: int|
            0 <= i < normalized_spec(s).len() ==> keep_char(#[trigger] normalized_spec(s)[i]),
        normalized_spec(s).len() > 0 ==> normalized_spec(s)[0] != '_' && normalized_spec(s).last()
            != '_',
        forall|i: int|
            0 <= i && i + 1 < normalized_spec(s).len() ==> !((#[trigger] normalized_spec(s)[i])
                == '_' && normalized_spec(s)[i + 1] == '_'),
{
    lemma_norm_core_shape(s);
    let t = norm_core(s);
    if t.len() > 0 && t.last() == '_' {
        assert(t.len() >= 2 ==> t[t.len() - 2] != '_');
    }
}

/// Sanitization leaves a name alone when it needs no work: every character
/// kept and none of them `_`.
pub proof fn lemma_normalized_id(s: Seq<char>)
    requires
        forall|i: int| 0 <= i < s.len() ==> keep_char(#[trigger] s[i]) && s[i] != '_',
    ensures
        normalized_spec(s) == s,
    decreases s.len(),
{
    if s.len() > 0 {
        lemma_normalized_id(s.drop_last());
        assert(norm_core(s.drop_last()) == s.drop_last());
        assert(norm_core(s) =~= s);
    } else {
        assert(norm_core(s) =~= s);
    }
}

/// Every filename is filesystem-safe: when the timestamp holds only ASCII
/// letters, digits, `-`, `_` and `.`, so does the whole filename; the part
/// before the `.png` extension is never empty; and the filename ends in
/// `.png`.
pub proof fn lemma_filename_safe(ts: Seq<char>, ordinal: nat, raw: Seq<char>)
    requires
        forall|i: int| 0 <= i < ts.len() ==> fname_char(#[trigger] ts[i]),
    ensures
        forall|i: int|
            0 <= i < filename_spec(ts, ordinal, raw).len() ==> fname_char(
                #[trigger] filename_spec(ts, ordinal, raw)[i],
            ),
        filename_spec(ts, ordinal, raw).len() >= ext_seq().len() + 3,
        filename_spec(ts, ordinal, raw).skip(
            filename_spec(ts, ordinal, raw).len() - ext_seq().len(),
        ) == ext_seq(),
{
    let d = dec_digits(ordinal);
    let m = normalized_spec(display_label(raw, ordinal));
    let f = filename_spec(ts, ordinal, raw);
    lemma_dec_digits_shape(ordinal);
    lemma_normalized_shape(display_label(raw, ordinal));
    assert(f.len() == ts.len() + 1 + d.len() + 1 + m.len() + 4);
    assert forall|i: int| 0 <= i < f.len() implies fname_char(#[trigger] f[i]) by {
        let a = ts.len() as int;
        if i < a {
            assert(f[i] == ts[i]);
        } else if i == a {
            assert(f[i] == '-');
        } else if i < a + 1 + d.len() {
            assert(f[i] == d[i - a - 1]);
        } else if i == a + 1 + d.len() {
            assert(f[i] == '-');
        } else if i < a + 2 + d.len() + m.len() {
            assert(f[i] == m[i - a - 2 - d.len()]);
        } else {
            assert(f[i] == ext_seq()[i - (a + 2 + d.len() + m.len())]);
        }
    }
    assert(f.skip(f.len() - ext_seq().len()) =~= ext_seq());
}

/// A filename never contains a path separator when its timestamp contains
/// none: whatever the raw name was, every write lands directly in the
/// target directory, never in a subdirectory or outside it.
pub proof fn lemma_filename_no_separator(ts: Seq<char>, ordinal: nat, raw: Seq<char>)
    requires
        forall|i: int| 0 <= i < ts.len() ==> (#[trigger] ts[i]) != '/' && ts[i] != '\\',
    ensures
        forall|i: int|
            0 <= i < filename_spec(ts, ordinal, raw).len() ==> (#[trigger] filename_spec(
                ts,
                ordinal,
                raw,
            )[i]) != '/' && filename_spec(ts, ordinal, raw)[i] != '\\',
{
    let d = dec_digits(ordinal);
    let m = normalized_spec(display_label(raw, ordinal));
    let f = filename_spec(ts, ordinal, raw);
    lemma_dec_digits_shape(ordinal);
    lemma_normalized_shape(display_label(raw, ordinal));
    assert(f.len() == ts.len() + 1 + d.len() + 1 + m.len() + 4);
    assert forall|i: int| 0 <= i < f.len() implies (#[trigger] f[i]) != '/' && f[i] != '\\' by {
        let a = ts.len() as int;
        if i < a {
            assert(f[i] == ts[i]);
        } else if i == a {
            assert(f[i] == '-');
        } else if i < a + 1 + d.len() {
            assert(f[i] == d[i - a - 1]);
            assert(digit(f[i]));
        } else if i == a + 1 + d.len() {
            assert(f[i] == '-');
        } else if i < a + 2 + d.len() + m.len() {
            assert(f[i] == m[i - a - 2 - d.len()]);
            assert(keep_char(f[i]));
        } else {
            assert(f[i] == ext_seq()[i - (a + 2 + d.len() + m.len())]);
        }
    }
}

/// The ordinal alone keeps filenames apart: two displays of one batch share
/// the timestamp, and whatever their raw names are, different ordinals give
/// different filenames. (The ordinal's digits sit between two `-` marks
/// right after the timestamp, and a decimal rendering never contains `-`.)
pub proof fn lemma_filename_unique_any(
    ts: Seq<char>,
    o1: nat,
    o2: nat,
    raw1: Seq<char>,
    raw2: Seq<char>,
)
    requires
        o1 != o2,
    ensures
        filename_spec(ts, o1, raw1) != filename_spec(ts, o2, raw2),
{
    let d1 = dec_digits(o1);
    let d2 = dec_digits(o2);
    let f1 = filename_spec(ts, o1, raw1);
    let f2 = filename_spec(ts, o2, raw2);
    let a = ts.len() as int;
    lemma_dec_digits_shape(o1);
    lemma_dec_digits_shape(o2);
    if f1 == f2 {
        if d1.len() == d2.len() {
            assert forall|k: int| 0 <= k < d1.len() implies d1[k] == d2[k] by {
                assert(f1[a + 1 + k] == d1[k]);
                assert(f2[a + 1 + k] == d2[k]);
            }
            assert(d1 =~= d2);
            lemma_dec_digits_injective(o1, o2);
        } else if d1.len() < d2.len() {
            assert(f1[a + 1 + d1.len()] == '-');
            assert(f2[a + 1 + d1.len()] == d2[d1.len() as int]);
            assert(digit(d2[d1.len() as int]));
        } else {
            assert(f2[a + 1 + d2.len()] == '-');
            assert(f1[a + 1 + d2.len()] == d1[d2.len() as int]);
            assert(digit(d1[d2.len() as int]));
        }
    }
}

/// Within one batch the ordinal alone keeps filenames distinct: two calls
/// with the same timestamp and raw name but different ordinals never yield
/// the same filename.
pub proof fn lemma_filename_unique(ts: Seq<char>, o1: nat, o2: nat, raw: Seq<char>)
    requires
        o1 != o2,
    ensures
        filename_spec(ts, o1, raw) != filename_spec(ts, o2, raw),
{
    lemma_filename_unique_any(ts, o1, o2, raw, raw);
}

} // verus!

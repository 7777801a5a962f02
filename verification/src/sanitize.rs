//! Sanitizing of server error messages.
//!
//! A raw server error arrives as a debug-formatted status whose text embeds a
//! quoted `message: "..."` field. Inside the quotes, literal quote characters
//! appear escaped, and the server may append a ` at src/dbserver/src...`
//! source annotation before the closing quote. The sanitizer keeps only the
//! human-facing message text: newlines are collapsed to spaces, the quoted
//! field is extracted, the trailing source annotation is dropped, and escaped
//! quotes become literal quotes again. A text without such a field is kept
//! (with escaped quotes set off by a placeholder), so the caller always has
//! something to show.

use vstd::prelude::*;
use crate::text::{is_at, str_to_chars, chars_to_string, push_all, matches_at, subvec};

verus! {

/// The opening of the quoted message field: `message: "`.
pub open spec fn msg_marker() -> Seq<char> {
    seq!['m', 'e', 's', 's', 'a', 'g', 'e', ':', ' ', '"']
}

/// The server source annotation that may trail the message text.
pub open spec fn at_marker() -> Seq<char> {
    seq![' ', 'a', 't', ' ', 's', 'r', 'c', '/', 'd', 'b', 's', 'e', 'r', 'v', 'e', 'r', '/', 's', 'r', 'c']
}

/// The placeholder that stands in for an escaped quote while the field is
/// located.
pub open spec fn placeholder() -> Seq<char> {
    seq!['[', 'E', 'S', 'C', 'A', 'P', 'E', 'D', '_', 'Q', 'U', 'O', 'T', 'E', ']']
}

/// An escaped quote: a backslash followed by a quote.
pub open spec fn esc_quote() -> Seq<char> {
    seq!['\\', '"']
}

/// A newline or carriage return becomes a space; any other character stays.
pub open spec fn space_for(c: char) -> char {
    if c == '\n' || c == '\r' {
        ' '
    } else {
        c
    }
}

/// Every newline and carriage return replaced by a space.
pub open spec fn flatten_newlines(s: Seq<char>) -> Seq<char> {
    s.map(|i: int, c: char| space_for(c))
}

/// Left-to-right, non-overlapping replacement of `pat` by `rep`, starting at
/// position `i`.
pub open spec fn replace_from(s: Seq<char>, pat: Seq<char>, rep: Seq<char>, i: int) -> Seq<char>
    decreases s.len() - i,
{
    if pat.len() == 0 || i < 0 || i >= s.len() {
        Seq::empty()
    } else if is_at(s, pat, i) {
        rep + replace_from(s, pat, rep, i + pat.len() as int)
    } else {
        seq![s[i]] + replace_from(s, pat, rep, i + 1)
    }
}

/// Left-to-right, non-overlapping replacement of `pat` by `rep` in all of
/// `s`.
pub open spec fn replace_all(s: Seq<char>, pat: Seq<char>, rep: Seq<char>) -> Seq<char> {
    replace_from(s, pat, rep, 0)
}

/// `s` with every backslash from position `i` on removed.
pub open spec fn strip_from(s: Seq<char>, i: int) -> Seq<char>
    decreases s.len() - i,
{
    if i < 0 || i >= s.len() {
        Seq::empty()
    } else if s[i] == '\\' {
        strip_from(s, i + 1)
    } else {
        seq![s[i]] + strip_from(s, i + 1)
    }
}

/// Some quote character stands at position `j` or later.
pub open spec fn quote_at_or_after(s: Seq<char>, j: int) -> bool {
    exists|k: int| j <= k < s.len() && s[k] == '"'
}

/// The message text may end at `e`: either the closing quote stands there,
/// or the source annotation begins there and a closing quote follows it.
pub open spec fn capture_end_ok(s: Seq<char>, e: int) -> bool {
    &&& 0 <= e < s.len()
    &&& (s[e] == '"' || (is_at(s, at_marker(), e) && quote_at_or_after(
        s,
        e + at_marker().len(),
    )))
}

/// The position of the leftmost occurrence of the message marker at or after
/// `i`, if any.
pub open spec fn find_marker_from(s: Seq<char>, i: int) -> Option<int>
    decreases s.len() - i,
{
    if i < 0 || i + msg_marker().len() > s.len() {
        None
    } else if is_at(s, msg_marker(), i) {
        Some(i)
    } else {
        find_marker_from(s, i + 1)
    }
}

/// The earliest position at or after `i` where the message text may end, if
/// any.
pub open spec fn find_capture_end_from(s: Seq<char>, i: int) -> Option<int>
    decreases s.len() - i,
{
    if i < 0 || i >= s.len() {
        None
    } else if capture_end_ok(s, i) {
        Some(i)
    } else {
        find_capture_end_from(s, i + 1)
    }
}

/// Restores the extracted message text: placeholders become escaped quotes
/// again, and then every backslash is removed, so an escaped quote ends as a
/// literal quote.
pub open spec fn restore(c: Seq<char>) -> Seq<char> {
    strip_from(replace_all(c, placeholder(), esc_quote()), 0)
}

/// Whether, after the preparatory replacements, a quoted message field is
/// present: a marker occurs and its text has an end.
pub open spec fn has_message_field(t: Seq<char>) -> bool {
    match find_marker_from(t, 0) {
        None => false,
        Some(p) => find_capture_end_from(t, p + msg_marker().len() as int) is Some,
    }
}

/// What the sanitizer returns for `s`.
pub open spec fn sanitized(s: Seq<char>) -> Seq<char> {
    let t = replace_all(flatten_newlines(s), esc_quote(), placeholder());
    match find_marker_from(t, 0) {
        None => t,
        Some(p) => {
            let cs = p + msg_marker().len() as int;
            match find_capture_end_from(t, cs) {
                None => t,
                Some(e) => restore(t.subrange(cs, e)),
            }
        },
    }
}

/// The message marker, as a character vector.
fn marker_vec() -> (v: Vec<char>)
    ensures
        v@ == msg_marker(),
{
    let mut v: Vec<char> = Vec::new();
    v.push('m');
    v.push('e');
    v.push('s');
    v.push('s');
    v.push('a');
    v.push('g');
    v.push('e');
    v.push(':');
    v.push(' ');
    v.push('"');
    proof {
        assert(v@ =~= msg_marker());
    }
    v
}

/// The source annotation marker, as a character vector.
fn at_marker_vec() -> (v: Vec<char>)
    ensures
        v@ == at_marker(),
{
    let mut v: Vec<char> = Vec::new();
    v.push(' ');
    v.push('a');
    v.push('t');
    v.push(' ');
    v.push('s');
    v.push('r');
    v.push('c');
    v.push('/');
    v.push('d');
    v.push('b');
    v.push('s');
    v.push('e');
    v.push('r');
    v.push('v');
    v.push('e');
    v.push('r');
    v.push('/');
    v.push('s');
    v.push('r');
    v.push('c');
    proof {
        assert(v@ =~= at_marker());
    }
    v
}

/// The escaped-quote placeholder, as a character vector.
fn placeholder_vec() -> (v: Vec<char>)
    ensures
        v@ == placeholder(),
{
    let mut v: Vec<char> = Vec::new();
    v.push('[');
    v.push('E');
    v.push('S');
    v.push('C');
    v.push('A');
    v.push('P');
    v.push('E');
    v.push('D');
    v.push('_');
    v.push('Q');
    v.push('U');
    v.push('O');
    v.push('T');
    v.push('E');
    v.push(']');
    proof {
        assert(v@ =~= placeholder());
    }
    v
}

/// An escaped quote, as a character vector.
fn esc_vec() -> (v: Vec<char>)
    ensures
        v@ == esc_quote(),
{
    let mut v: Vec<char> = Vec::new();
    v.push('\\');
    v.push('"');
    proof {
        assert(v@ =~= esc_quote());
    }
    v
}

/// Replaces every newline and carriage return by a space.
fn flatten_chars(s: &Vec<char>) -> (v: Vec<char>)
    ensures
        v@ == flatten_newlines(s@),
{
    let mut v: Vec<char> = Vec::new();
    let mut i: usize = 0;
    while i < s.len()
        invariant
            i <= s@.len(),
            v@.len() == i,
            forall|j: int| 0 <= j < i ==> #[trigger] v@[j] == space_for(s@[j]),
        decreases s@.len() - i,
    {
        let c = s[i];
        if c == '\n' || c == '\r' {
            v.push(' ');
        } else {
            v.push(c);
        }
        i = i + 1;
    }
    proof {
        assert(v@ =~= flatten_newlines(s@));
    }
    v
}

/// Left-to-right, non-overlapping replacement of `pat` by `rep` in `s`.
pub fn replace_all_chars(s: &Vec<char>, pat: &Vec<char>, rep: &Vec<char>) -> (v: Vec<char>)
    requires
        pat@.len() > 0,
    ensures
        v@ == replace_all(s@, pat@, rep@),
{
    let mut v: Vec<char> = Vec::new();
    let mut i: usize = 0;
    proof {
        assert(v@ + replace_from(s@, pat@, rep@, 0) =~= replace_from(s@, pat@, rep@, 0));
    }
    while i < s.len()
        invariant
            pat@.len() > 0,
            i <= s@.len(),
            replace_all(s@, pat@, rep@) == v@ + replace_from(s@, pat@, rep@, i as int),
        decreases s@.len() - i,
    {
        let ghost prev = v@;
        if matches_at(s, pat, i) {
            push_all(&mut v, rep);
            proof {
                assert(replace_from(s@, pat@, rep@, i as int) == rep@ + replace_from(
                    s@,
                    pat@,
                    rep@,
                    i + pat@.len(),
                ));
                assert(prev + (rep@ + replace_from(s@, pat@, rep@, i + pat@.len())) =~= (prev
                    + rep@) + replace_from(s@, pat@, rep@, i + pat@.len()));
            }
            i = i + pat.len();
        } else {
            v.push(s[i]);
            proof {
                assert(replace_from(s@, pat@, rep@, i as int) == seq![s@[i as int]] + replace_from(
                    s@,
                    pat@,
                    rep@,
                    i + 1,
                ));
                assert(prev + (seq![s@[i as int]] + replace_from(s@, pat@, rep@, i + 1)) =~= (prev
                    + seq![s@[i as int]]) + replace_from(s@, pat@, rep@, i + 1));
                assert(v@ =~= prev + seq![s@[i as int]]);
            }
            i = i + 1;
        }
    }
    proof {
        assert(replace_from(s@, pat@, rep@, i as int) =~= Seq::<char>::empty());
        assert(v@ + Seq::<char>::empty() =~= v@);
    }
    v
}

/// Removes every backslash.
pub fn strip_backslashes(s: &Vec<char>) -> (v: Vec<char>)
    ensures
        v@ == strip_from(s@, 0),
{
    let mut v: Vec<char> = Vec::new();
    let mut i: usize = 0;
    proof {
        assert(v@ + strip_from(s@, 0) =~= strip_from(s@, 0));
    }
    while i < s.len()
        invariant
            i <= s@.len(),
            strip_from(s@, 0) == v@ + strip_from(s@, i as int),
        decreases s@.len() - i,
    {
        let ghost prev = v@;
        let c = s[i];
        if c == '\\' {
            proof {
                assert(strip_from(s@, i as int) == strip_from(s@, i + 1));
            }
        } else {
            v.push(c);
            proof {
                assert(strip_from(s@, i as int) == seq![s@[i as int]] + strip_from(s@, i + 1));
                assert(prev + (seq![s@[i as int]] + strip_from(s@, i + 1)) =~= (prev + seq![
                    s@[i as int],
                ]) + strip_from(s@, i + 1));
                assert(v@ =~= prev + seq![s@[i as int]]);
            }
        }
        i = i + 1;
    }
    proof {
        assert(strip_from(s@, i as int) =~= Seq::<char>::empty());
        assert(v@ + Seq::<char>::empty() =~= v@);
    }
    v
}

/// Whether a quote stands at position `j` or later.
fn has_quote_from(s: &Vec<char>, j: usize) -> (r: bool)
    ensures
        r == quote_at_or_after(s@, j as int),
{
    let mut k: usize = j;
    while k < s.len()
        invariant
            j <= k,
            forall|t: int| j <= t < k && t < s@.len() ==> s@[t] != '"',
        decreases s@.len() - k,
    {
        if s[k] == '"' {
            proof {
                assert(quote_at_or_after(s@, j as int));
            }
            return true;
        }
        k = k + 1;
    }
    proof {
        assert(forall|t: int| j <= t < s@.len() ==> s@[t] != '"');
    }
    false
}

/// Whether the message text may end at `e`.
fn capture_end_here(s: &Vec<char>, at_pat: &Vec<char>, e: usize) -> (r: bool)
    requires
        at_pat@ == at_marker(),
        e < s@.len(),
    ensures
        r == capture_end_ok(s@, e as int),
{
    if s[e] == '"' {
        return true;
    }
    let n = s.len();
    if matches_at(s, at_pat, e) {
        proof {
            assert(at_marker().len() == 20);
            assert(e + 20 <= n);
        }
        return has_quote_from(s, e + 20);
    }
    false
}

/// The position of the leftmost occurrence of the message marker, if any.
fn find_marker(s: &Vec<char>, pat: &Vec<char>) -> (r: Option<usize>)
    requires
        pat@ == msg_marker(),
    ensures
        match r {
            None => find_marker_from(s@, 0) is None,
            Some(p) => find_marker_from(s@, 0) == Some(p as int) && p + msg_marker().len()
                <= s@.len(),
        },
{
    if s.len() < 10 {
        proof {
            assert(find_marker_from(s@, 0) is None);
        }
        return None;
    }
    let last: usize = s.len() - 10;
    let mut i: usize = 0;
    while i <= last
        invariant
            pat@ == msg_marker(),
            last == s@.len() - 10,
            s@.len() <= usize::MAX,
            i <= last + 1,
            find_marker_from(s@, 0) == find_marker_from(s@, i as int),
        decreases last + 1 - i,
    {
        if matches_at(s, pat, i) {
            proof {
                assert(find_marker_from(s@, i as int) == Some(i as int));
            }
            return Some(i);
        }
        proof {
            assert(find_marker_from(s@, i as int) == find_marker_from(s@, i as int + 1));
        }
        i = i + 1;
    }
    proof {
        assert(find_marker_from(s@, i as int) is None);
    }
    None
}

/// The earliest position at or after `cs` where the message text may end, if
/// any.
fn find_capture_end(s: &Vec<char>, at_pat: &Vec<char>, cs: usize) -> (r: Option<usize>)
    requires
        at_pat@ == at_marker(),
    ensures
        match r {
            None => find_capture_end_from(s@, cs as int) is None,
            Some(e) => find_capture_end_from(s@, cs as int) == Some(e as int) && cs <= e
                < s@.len(),
        },
{
    let mut i: usize = cs;
    while i < s.len()
        invariant
            at_pat@ == at_marker(),
            cs <= i,
            find_capture_end_from(s@, cs as int) == find_capture_end_from(s@, i as int),
        decreases s@.len() - i,
    {
        if capture_end_here(s, at_pat, i) {
            proof {
                assert(find_capture_end_from(s@, i as int) == Some(i as int));
            }
            return Some(i);
        }
        proof {
            assert(find_capture_end_from(s@, i as int) == find_capture_end_from(s@, i as int + 1));
        }
        i = i + 1;
    }
    proof {
        assert(find_capture_end_from(s@, i as int) is None);
    }
    None
}

/// No escaped quote occurs in `t`: no backslash is immediately followed by a
/// quote.
pub open spec fn esc_free(t: Seq<char>) -> bool {
    forall|i: int| 0 <= i < t.len() - 1 ==> !(#[trigger] t[i] == '\\' && t[i + 1] == '"')
}

/// An escape-free text holds no occurrence of the escaped-quote pattern.
proof fn lemma_esc_free_no_occurrence(t: Seq<char>)
    requires
        esc_free(t),
    ensures
        forall|i: int| !is_at(t, esc_quote(), i),
{
    assert forall|i: int| !is_at(t, esc_quote(), i) by {
        if is_at(t, esc_quote(), i) {
            assert(t[i + 0] == esc_quote()[0]);
            assert(t[i + 1] == esc_quote()[1]);
            assert(t[i] == '\\' && t[i + 1] == '"');
            assert(false);
        }
    }
}

/// Escape-freedom carries over concatenation when no escaped quote straddles
/// the seam.
proof fn lemma_esc_free_concat(a: Seq<char>, b: Seq<char>)
    requires
        esc_free(a),
        esc_free(b),
        a.len() > 0 && b.len() > 0 ==> !(a[a.len() - 1] == '\\' && b[0] == '"'),
    ensures
        esc_free(a + b),
{
    let c = a + b;
    assert forall|i: int| 0 <= i < c.len() - 1 implies !(#[trigger] c[i] == '\\' && c[i + 1]
        == '"') by {
        if i + 1 < a.len() {
            assert(c[i] == a[i]);
            assert(c[i + 1] == a[i + 1]);
        } else if i >= a.len() {
            assert(c[i] == b[i - a.len()]);
            assert(c[i + 1] == b[i + 1 - a.len()]);
        } else {
            assert(c[i] == a[a.len() - 1]);
            assert(c[i + 1] == b[0]);
        }
    }
}

/// Where the pattern occurs nowhere, replacement is the identity.
proof fn lemma_replace_absent_identity(s: Seq<char>, pat: Seq<char>, rep: Seq<char>, i: int)
    requires
        pat.len() > 0,
        0 <= i <= s.len(),
        forall|j: int| !is_at(s, pat, j),
    ensures
        replace_from(s, pat, rep, i) == s.subrange(i, s.len() as int),
    decreases s.len() - i,
{
    if i >= s.len() {
        assert(replace_from(s, pat, rep, i) =~= s.subrange(i, s.len() as int));
    } else {
        assert(!is_at(s, pat, i));
        lemma_replace_absent_identity(s, pat, rep, i + 1);
        assert(replace_from(s, pat, rep, i) =~= s.subrange(i, s.len() as int));
    }
}

/// A property of every character of the text and of the replacement holds of
/// every character of the replaced text.
proof fn lemma_replace_preserves(
    s: Seq<char>,
    pat: Seq<char>,
    rep: Seq<char>,
    i: int,
    p: spec_fn(char) -> bool,
)
    requires
        pat.len() > 0,
        forall|k: int| 0 <= k < s.len() ==> p(#[trigger] s[k]),
        forall|k: int| 0 <= k < rep.len() ==> p(#[trigger] rep[k]),
    ensures
        forall|k: int|
            0 <= k < replace_from(s, pat, rep, i).len() ==> p(
                #[trigger] replace_from(s, pat, rep, i)[k],
            ),
    decreases s.len() - i,
{
    let out = replace_from(s, pat, rep, i);
    if i < 0 || i >= s.len() {
    } else if is_at(s, pat, i) {
        lemma_replace_preserves(s, pat, rep, i + pat.len() as int, p);
        let rest = replace_from(s, pat, rep, i + pat.len() as int);
        assert forall|k: int| 0 <= k < out.len() implies p(#[trigger] out[k]) by {
            if k < rep.len() {
                assert(out[k] == rep[k]);
            } else {
                assert(out[k] == rest[k - rep.len()]);
            }
        }
    } else {
        lemma_replace_preserves(s, pat, rep, i + 1, p);
        let rest = replace_from(s, pat, rep, i + 1);
        assert forall|k: int| 0 <= k < out.len() implies p(#[trigger] out[k]) by {
            if k == 0 {
                assert(out[0] == s[i]);
            } else {
                assert(out[k] == rest[k - 1]);
            }
        }
    }
}

/// A property of every character of the text holds of every character of the
/// stripped text, and the stripped text holds no backslash.
proof fn lemma_strip_props(s: Seq<char>, i: int, p: spec_fn(char) -> bool)
    requires
        forall|k: int| 0 <= k < s.len() ==> p(#[trigger] s[k]),
    ensures
        forall|k: int| 0 <= k < strip_from(s, i).len() ==> p(#[trigger] strip_from(s, i)[k]),
        forall|k: int| 0 <= k < strip_from(s, i).len() ==> #[trigger] strip_from(s, i)[k] != '\\',
    decreases s.len() - i,
{
    let out = strip_from(s, i);
    if i < 0 || i >= s.len() {
    } else if s[i] == '\\' {
        lemma_strip_props(s, i + 1, p);
        let rest = strip_from(s, i + 1);
        assert(out == rest);
        assert forall|k: int| 0 <= k < out.len() implies p(#[trigger] out[k]) && out[k] != '\\' by {
            assert(out[k] == rest[k]);
        }
    } else {
        lemma_strip_props(s, i + 1, p);
        let rest = strip_from(s, i + 1);
        assert forall|k: int| 0 <= k < out.len() implies p(#[trigger] out[k]) && out[k] != '\\' by {
            if k == 0 {
                assert(out[0] == s[i]);
            } else {
                assert(out[k] == rest[k - 1]);
            }
        }
    }
}

/// Replacing escaped quotes by the placeholder leaves a text with no escaped
/// quote; the replaced text opens with the placeholder or with the character
/// the replacement started at.
proof fn lemma_replace_esc_output(s: Seq<char>, i: int)
    ensures
        esc_free(replace_from(s, esc_quote(), placeholder(), i)),
        replace_from(s, esc_quote(), placeholder(), i).len() > 0 ==> (replace_from(
            s,
            esc_quote(),
            placeholder(),
            i,
        )[0] == '[' || (0 <= i < s.len() && replace_from(s, esc_quote(), placeholder(), i)[0]
            == s[i])),
    decreases s.len() - i,
{
    let out = replace_from(s, esc_quote(), placeholder(), i);
    if i < 0 || i >= s.len() {
    } else if is_at(s, esc_quote(), i) {
        lemma_replace_esc_output(s, i + 2);
        let rest = replace_from(s, esc_quote(), placeholder(), i + 2);
        assert(forall|k: int| 0 <= k < placeholder().len() ==> #[trigger] placeholder()[k] != '\\');
        assert(esc_free(placeholder()));
        assert(placeholder()[placeholder().len() - 1] == ']');
        lemma_esc_free_concat(placeholder(), rest);
        assert(out[0] == placeholder()[0]);
    } else {
        lemma_replace_esc_output(s, i + 1);
        let rest = replace_from(s, esc_quote(), placeholder(), i + 1);
        let head = seq![s[i]];
        assert(esc_free(head));
        if head.len() > 0 && rest.len() > 0 && head[0] == '\\' && rest[0] == '"' {
            // the head cannot open an escaped quote: that would be an
            // occurrence at the position the replacement just passed over
            assert(rest[0] == '[' || rest[0] == s[i + 1]);
            assert(s[i] == '\\' && s[i + 1] == '"');
            assert(is_at(s, esc_quote(), i));
            assert(false);
        }
        lemma_esc_free_concat(head, rest);
        assert(out[0] == s[i]);
    }
}

/// Whatever the sanitizer returns holds no newline, no carriage return and
/// no escaped quote.
proof fn lemma_sanitized_clean(s: Seq<char>)
    ensures
        forall|k: int|
            0 <= k < sanitized(s).len() ==> #[trigger] sanitized(s)[k] != '\n' && sanitized(s)[k]
                != '\r',
        esc_free(sanitized(s)),
{
    let nonl: spec_fn(char) -> bool = |c: char| c != '\n' && c != '\r';
    let f = flatten_newlines(s);
    assert(forall|k: int| 0 <= k < f.len() ==> nonl(#[trigger] f[k]));
    assert(forall|k: int| 0 <= k < placeholder().len() ==> nonl(#[trigger] placeholder()[k]));
    assert(forall|k: int| 0 <= k < esc_quote().len() ==> nonl(#[trigger] esc_quote()[k]));
    let t = replace_all(f, esc_quote(), placeholder());
    lemma_replace_preserves(f, esc_quote(), placeholder(), 0, nonl);
    lemma_replace_esc_output(f, 0);
    match find_marker_from(t, 0) {
        None => {},
        Some(p) => {
            let cs = p + msg_marker().len() as int;
            match find_capture_end_from(t, cs) {
                None => {},
                Some(e) => {
                    lemma_find_capture_end_in_range(t, cs);
                    let cap = t.subrange(cs, e);
                    assert(forall|k: int| 0 <= k < cap.len() ==> nonl(#[trigger] cap[k]));
                    let back = replace_all(cap, placeholder(), esc_quote());
                    lemma_replace_preserves(cap, placeholder(), esc_quote(), 0, nonl);
                    lemma_strip_props(back, 0, nonl);
                    let r = strip_from(back, 0);
                    assert(esc_free(r));
                },
            }
        },
    }
}

/// A found capture end lies between the start of the search and the end of
/// the text.
proof fn lemma_find_capture_end_in_range(t: Seq<char>, i: int)
    ensures
        find_capture_end_from(t, i) matches Some(e) ==> i <= e < t.len(),
    decreases t.len() - i,
{
    if i < 0 || i >= t.len() {
    } else if capture_end_ok(t, i) {
    } else {
        lemma_find_capture_end_in_range(t, i + 1);
    }
}

/// Law: the sanitizer is idempotent — applying it twice yields the same
/// string as applying it once — on every message whose sanitized form does
/// not itself hold a further quoted message field. (A message whose own
/// text embeds an escaped quoted message field is sanitized to a string
/// holding a fresh such field, which a second application would extract
/// again; those inputs are the only ones left out.)
pub proof fn lemma_sanitized_idempotent(s: Seq<char>)
    requires
        !has_message_field(sanitized(s)),
    ensures
        sanitized(sanitized(s)) == sanitized(s),
{
    let r = sanitized(s);
    lemma_sanitized_clean(s);
    assert(flatten_newlines(r) =~= r);
    lemma_esc_free_no_occurrence(r);
    lemma_replace_absent_identity(r, esc_quote(), placeholder(), 0);
    assert(r.subrange(0, r.len() as int) =~= r);
    let t2 = replace_all(flatten_newlines(r), esc_quote(), placeholder());
    assert(t2 == r);
    match find_marker_from(r, 0) {
        None => {
            assert(sanitized(r) == r);
        },
        Some(p) => {
            let cs = p + msg_marker().len() as int;
            assert(find_capture_end_from(r, cs) is None);
            assert(sanitized(r) == r);
        },
    }
}

/// Sanitizes a server error message: collapses newlines and carriage returns
/// to spaces and, when a quoted `message: "..."` field is present, keeps only
/// its text, dropping any trailing ` at src/dbserver/src...` annotation and
/// turning escaped quote characters back into literal quotes.
pub fn filter_message(err: &str) -> (r: String)
    ensures
        r@ == sanitized(err@),
{
    let chars = str_to_chars(err);
    let flat = flatten_chars(&chars);
    let esc = esc_vec();
    let ph = placeholder_vec();
    let t = replace_all_chars(&flat, &esc, &ph);
    let marker = marker_vec();
    match find_marker(&t, &marker) {
        None => chars_to_string(&t),
        Some(p) => {
            let tlen = t.len();
            proof {
                assert(msg_marker().len() == 10);
                assert(p + 10 <= tlen);
            }
            let cs: usize = p + 10;
            let at_pat = at_marker_vec();
            match find_capture_end(&t, &at_pat, cs) {
                None => chars_to_string(&t),
                Some(e) => {
                    let cap = subvec(&t, cs, e);
                    let restored = replace_all_chars(&cap, &ph, &esc);
                    let stripped = strip_backslashes(&restored);
                    chars_to_string(&stripped)
                },
            }
        },
    }
}

} // verus!

//! Clip-stitching editor helpers: turning the paths that the user interface
//! hands over into file paths, reading the JSON object out of a model's reply,
//! and picking the error line out of a tool's error output.
use vstd::prelude::*;
use crate::json::{json_contents, JsonView};
use crate::text::{contains_chars, contains_seq, lemma_prefix_until, matches_at, prefix_until, replace_all, replace_chars, slice_chars, starts_with_seq, str_chars, string_from_chars, trim_both, trim_bounds, trim_ws};

pub mod plan;
pub mod probe;
pub mod reply;

verus! {

/// Query or fragment separator.
pub open spec fn query_pred() -> spec_fn(char) -> bool {
    |c: char| c == '?' || c == '#'
}

/// The raw input without surrounding white space, then without surrounding quotes.
pub open spec fn trimmed_input(raw: Seq<char>) -> Seq<char> {
    trim_both(trim_ws(raw), false)
}

/// Whether the trimmed input is a URI rather than a plain path.
pub open spec fn is_uri(t: Seq<char>) -> bool {
    contains_seq(t, "://"@) || starts_with_seq(t, "asset:"@)
}

/// The file path of an asset URI: the part before any query or fragment,
/// without the asset host prefixes, with backslash separators and `%20` as spaces.
pub open spec fn uri_path(t: Seq<char>) -> Seq<char> {
    replace_all(
        replace_all(
            replace_all(
                replace_all(prefix_until(t, query_pred()), "asset://localhost/"@, Seq::empty()),
                "http://asset.localhost/"@,
                Seq::empty(),
            ),
            "/"@,
            "\\"@,
        ),
        "%20"@,
        " "@,
    )
}

/// The path that an input names: a trimmed plain path as is, an asset URI decoded.
pub open spec fn normalized_path(raw: Seq<char>) -> Seq<char> {
    let t = trimmed_input(raw);
    if is_uri(t) { uri_path(t) } else { t }
}

/// A file chosen for stitching: either a raw path or an `asset://` / http URI,
/// which is decoded back to a file path.
pub fn normalize_input_path(raw: &str) -> (p: String)
    ensures
        p@ == normalized_path(raw@),
{
    let chars = str_chars(raw);
    let n = chars.len();
    let (a, b) = trim_bounds(&chars, 0, n, true);
    assert(chars@.subrange(0, n as int) =~= chars@);
    let (c, d) = trim_bounds(&chars, a, b, false);
    let t = slice_chars(&chars, c, d);
    let ghost tv = t@;
    assert(tv == trimmed_input(raw@));
    let scheme = str_chars("://");
    let asset = str_chars("asset:");
    if contains_chars(&t, &scheme) || matches_at(&t, &asset, 0) {
        let tn = t.len();
        let mut k: usize = 0;
        while k < tn && t[k] != '?' && t[k] != '#'
            invariant
                tn == t.len(),
                k <= tn,
                forall|j: int| 0 <= j < k ==> !(query_pred())(#[trigger] t@[j]),
            decreases tn - k,
        {
            k = k + 1;
        }
        proof {
            lemma_prefix_until(tv, query_pred(), k as int);
        }
        let head = slice_chars(&t, 0, k);
        assert(head@ =~= tv.take(k as int));
        let empty: Vec<char> = Vec::new();
        proof {
            reveal_strlit("asset://localhost/");
            reveal_strlit("http://asset.localhost/");
            reveal_strlit("/");
            reveal_strlit("%20");
        }
        let p1 = replace_chars(&head, &str_chars("asset://localhost/"), &empty);
        let p2 = replace_chars(&p1, &str_chars("http://asset.localhost/"), &empty);
        let p3 = replace_chars(&p2, &str_chars("/"), &str_chars("\\"));
        let p4 = replace_chars(&p3, &str_chars("%20"), &str_chars(" "));
        assert(empty@ =~= Seq::<char>::empty());
        string_from_chars(&p4)
    } else {
        string_from_chars(&t)
    }
}

/// Line feed.
pub open spec fn newline_pred() -> spec_fn(char) -> bool {
    |c: char| c == '\n'
}

/// A line without the carriage return of its `\r\n` ending.
pub open spec fn strip_cr(l: Seq<char>) -> Seq<char> {
    if l.len() > 0 && l.last() == '\r' { l.drop_last() } else { l }
}

/// The lines of a text, as `str::lines` gives them: split at `\n` (a
/// preceding `\r` is dropped); a final line ending adds no empty line.
pub open spec fn text_lines(s: Seq<char>) -> Seq<Seq<char>>
    decreases s.len(),
{
    if s.len() == 0 {
        Seq::empty()
    } else {
        let l = prefix_until(s, newline_pred());
        if l.len() >= s.len() {
            seq![l]
        } else {
            seq![strip_cr(l)] + text_lines(s.skip(l.len() as int + 1))
        }
    }
}

/// Whether a line mentions an error.
pub open spec fn mentions_error(l: Seq<char>) -> bool {
    contains_seq(l, "Error"@) || contains_seq(l, "error"@)
}

/// The first line, trimmed, that mentions an error.
pub open spec fn first_error_line(lines: Seq<Seq<char>>) -> Option<Seq<char>>
    decreases lines.len(),
{
    if lines.len() == 0 {
        None
    } else if mentions_error(trim_ws(lines[0])) {
        Some(trim_ws(lines[0]))
    } else {
        first_error_line(lines.drop_first())
    }
}

/// The first trimmed line of an error output that mentions an error, or
/// `see stderr` when none does.
pub open spec fn error_summary(stderr: Seq<char>) -> Seq<char> {
    match first_error_line(text_lines(stderr)) {
        Some(l) => l,
        None => "see stderr"@,
    }
}

/// The first line of an error output that mentions an error, trimmed.
pub fn first_err_line(stderr: &str) -> (r: String)
    ensures
        r@ == error_summary(stderr@),
{
    let s = str_chars(stderr);
    let n = s.len();
    let err_upper = str_chars("Error");
    let err_lower = str_chars("error");
    let mut pos: usize = 0;
    assert(s@.skip(0) =~= s@);
    while pos < n
        invariant
            n == s.len(),
            pos <= n,
            s@ == stderr@,
            err_upper@ == "Error"@,
            err_lower@ == "error"@,
            first_error_line(text_lines(s@)) == first_error_line(text_lines(s@.skip(pos as int))),
        decreases n - pos,
    {
        let ghost rest = s@.skip(pos as int);
        let mut e = pos;
        while e < n && s[e] != '\n'
            invariant
                n == s.len(),
                pos <= e <= n,
                forall|j: int| pos <= j < e ==> s@[j] != '\n',
            decreases n - e,
        {
            e = e + 1;
        }
        proof {
            assert forall|j: int| 0 <= j < e - pos implies !(newline_pred())(#[trigger] rest[j]) by {
                assert(rest[j] == s@[pos + j]);
            }
            if e < n {
                assert(rest[e - pos] == s@[e as int]);
            }
            lemma_prefix_until(rest, newline_pred(), e - pos);
            assert(rest.take(e - pos) =~= s@.subrange(pos as int, e as int));
        }
        let mut hi = e;
        if e < n && hi > pos && s[hi - 1] == '\r' {
            hi = hi - 1;
        }
        proof {
            let l = s@.subrange(pos as int, e as int);
            if e < n {
                assert(strip_cr(l) =~= s@.subrange(pos as int, hi as int));
            } else {
                assert(l =~= s@.subrange(pos as int, hi as int));
            }
        }
        let (a, b) = trim_bounds(&s, pos, hi, true);
        let line = slice_chars(&s, a, b);
        let found = contains_chars(&line, &err_upper) || contains_chars(&line, &err_lower);
        proof {
            let l = s@.subrange(pos as int, e as int);
            let lines = text_lines(rest);
            if e < n {
                assert(rest.skip(l.len() as int + 1) =~= s@.skip(e + 1));
                assert(lines == seq![strip_cr(l)] + text_lines(s@.skip(e + 1)));
                assert(lines[0] == strip_cr(l));
                assert(lines.drop_first() =~= text_lines(s@.skip(e + 1)));
            } else {
                assert(lines == seq![l]);
                assert(lines.drop_first() =~= Seq::<Seq<char>>::empty());
                assert(s@.skip(n as int) =~= Seq::<char>::empty());
            }
            assert(trim_ws(lines[0]) == line@);
        }
        if found {
            return string_from_chars(&line);
        }
        if e == n {
            pos = n;
        } else {
            pos = e + 1;
        }
    }
    proof {
        assert(s@.skip(n as int) =~= Seq::<char>::empty());
    }
    "see stderr".to_string()
}

#[verifier::external_type_specification]
#[verifier::external_body]
pub struct ExJsonValue(serde_json::Value);

/// What `serde_json::from_str` gives for a text, as a JSON value: `None`
/// when the text is not one JSON value (surrounding white space allowed).
pub uninterp spec fn json_parse(text: Seq<char>) -> Option<serde_json::Value>;

/// Parses a text as one JSON value with `serde_json::from_str`; the result
/// is named by `json_parse`.
#[verifier::external_body]
fn parse_json(text: &str) -> (r: Option<serde_json::Value>)
    ensures
        r == json_parse(text@),
{
    serde_json::from_str::<serde_json::Value>(text).ok()
}

/// The empty JSON object, `serde_json::Value::Object` of an empty
/// `serde_json::Map`: the value that parsing `{}` gives.
#[verifier::external_body]
fn empty_json_object() -> (r: serde_json::Value)
    ensures
        json_parse("{}"@) == Some(r),
        json_contents(r) == JsonView::Object(Map::empty()),
{
    serde_json::Value::Object(serde_json::Map::new())
}

/// The index of the last occurrence of `c` in `t`, or -1.
pub open spec fn last_index_of(t: Seq<char>, c: char) -> int
    decreases t.len(),
{
    if t.len() == 0 { -1 } else if t.last() == c { t.len() - 1 } else { last_index_of(t.drop_last(), c) }
}

/// An opening brace.
pub open spec fn open_brace_pred() -> spec_fn(char) -> bool {
    |c: char| c == '{'
}

/// The text from the first `{` to the last `}`, when the latter follows the former.
pub open spec fn brace_span(t: Seq<char>) -> Option<Seq<char>> {
    let a = prefix_until(t, open_brace_pred()).len() as int;
    let b = last_index_of(t, '}');
    if a < t.len() && b > a { Some(t.subrange(a, b + 1)) } else { None }
}

/// The JSON value read from a reply: the whole trimmed reply when it parses,
/// otherwise its outermost braces when they parse, otherwise the empty object.
pub open spec fn reply_json(reply: Seq<char>) -> serde_json::Value {
    let t = trim_ws(reply);
    match json_parse(t) {
        Some(v) => v,
        None => match brace_span(t) {
            Some(c) => match json_parse(c) {
                Some(v) => v,
                None => json_parse("{}"@)->0,
            },
            None => json_parse("{}"@)->0,
        },
    }
}

/// Index of the first `{` of `t`, or its length.
fn first_open_brace(t: &Vec<char>) -> (a: usize)
    ensures
        a == prefix_until(t@, open_brace_pred()).len(),
        a <= t.len(),
{
    let tn = t.len();
    let mut a: usize = 0;
    while a < tn && t[a] != '{'
        invariant
            tn == t.len(),
            a <= tn,
            forall|j: int| 0 <= j < a ==> !(open_brace_pred())(#[trigger] t@[j]),
        decreases tn - a,
    {
        a = a + 1;
    }
    proof {
        lemma_prefix_until(t@, open_brace_pred(), a as int);
    }
    a
}

/// One past the index of the last `}` of `t`, or 0.
fn after_last_close_brace(t: &Vec<char>) -> (b: usize)
    ensures
        b as int - 1 == last_index_of(t@, '}'),
        b <= t.len(),
{
    let tn = t.len();
    let mut b: usize = tn;
    assert(t@.take(tn as int) =~= t@);
    while b > 0 && t[b - 1] != '}'
        invariant
            tn == t.len(),
            b <= tn,
            last_index_of(t@, '}') == last_index_of(t@.take(b as int), '}'),
        decreases b,
    {
        assert(t@.take(b as int).drop_last() =~= t@.take(b - 1));
        b = b - 1;
    }
    proof {
        if b == 0 {
            assert(t@.take(0) =~= Seq::<char>::empty());
        } else {
            assert(t@.take(b as int).last() == t@[b - 1]);
        }
    }
    b
}

/// Best-effort parse: extract the first JSON object from a (possibly chatty) string.
pub fn parse_json_object(s: &str) -> (v: serde_json::Value)
    ensures
        v == reply_json(s@),
{
    let chars = str_chars(s);
    let n = chars.len();
    let (lo, hi) = trim_bounds(&chars, 0, n, true);
    assert(chars@.subrange(0, n as int) =~= chars@);
    let t = slice_chars(&chars, lo, hi);
    let ghost tv = t@;
    let text = string_from_chars(&t);
    if let Some(v) = parse_json(text.as_str()) {
        return v;
    }
    let tn = t.len();
    let a = first_open_brace(&t);
    let b = after_last_close_brace(&t);
    if a < tn && b > 0 && b - 1 > a {
        let span = slice_chars(&t, a, b);
        let span_text = string_from_chars(&span);
        if let Some(v) = parse_json(span_text.as_str()) {
            return v;
        }
    }
    empty_json_object()
}

/// An input that is not a URI is the trimmed input itself.
pub proof fn law_plain_path_kept(raw: Seq<char>)
    requires
        !is_uri(trimmed_input(raw)),
    ensures
        normalized_path(raw) == trimmed_input(raw),
{
}

proof fn lemma_replace_slash_gone(s: Seq<char>)
    ensures
        !replace_all(s, "/"@, "\\"@).contains('/'),
    decreases s.len(),
{
    reveal_strlit("/");
    reveal_strlit("\\");
    if s.len() > 0 {
        if starts_with_seq(s, "/"@) {
            lemma_replace_slash_gone(s.skip(1));
            let r = replace_all(s.skip(1), "/"@, "\\"@);
            assert(replace_all(s, "/"@, "\\"@) == "\\"@ + r);
            assert forall|i: int| 0 <= i < ("\\"@ + r).len() implies ("\\"@ + r)[i] != '/' by {
                if i >= 1 {
                    assert(("\\"@ + r)[i] == r[i - 1]);
                }
            }
        } else {
            lemma_replace_slash_gone(s.drop_first());
            let r = replace_all(s.drop_first(), "/"@, "\\"@);
            if s[0] == '/' {
                assert(s.subrange(0, 1) =~= "/"@);
            }
            assert forall|i: int| 0 <= i < (seq![s[0]] + r).len() implies (seq![s[0]] + r)[i] != '/' by {
                if i >= 1 {
                    assert((seq![s[0]] + r)[i] == r[i - 1]);
                }
            }
        }
    }
}

proof fn lemma_replace_space_keeps_no_slash(s: Seq<char>)
    requires
        !s.contains('/'),
    ensures
        !replace_all(s, "%20"@, " "@).contains('/'),
    decreases s.len(),
{
    reveal_strlit("%20");
    reveal_strlit(" ");
    if s.len() > 0 {
        if starts_with_seq(s, "%20"@) {
            assert forall|i: int| 0 <= i < s.skip(3).len() implies s.skip(3)[i] != '/' by {
                assert(s.skip(3)[i] == s[i + 3]);
            }
            lemma_replace_space_keeps_no_slash(s.skip(3));
            let r = replace_all(s.skip(3), "%20"@, " "@);
            assert forall|i: int| 0 <= i < (" "@ + r).len() implies (" "@ + r)[i] != '/' by {
                if i >= 1 {
                    assert((" "@ + r)[i] == r[i - 1]);
                }
            }
        } else {
            assert forall|i: int| 0 <= i < s.drop_first().len() implies s.drop_first()[i] != '/' by {
                assert(s.drop_first()[i] == s[i + 1]);
            }
            lemma_replace_space_keeps_no_slash(s.drop_first());
            let r = replace_all(s.drop_first(), "%20"@, " "@);
            assert(s.contains(s[0]));
            assert forall|i: int| 0 <= i < (seq![s[0]] + r).len() implies (seq![s[0]] + r)[i] != '/' by {
                if i >= 1 {
                    assert((seq![s[0]] + r)[i] == r[i - 1]);
                }
            }
        }
    }
}

/// A decoded URI path holds no forward slash: separators become backslashes.
pub proof fn law_uri_path_backslashed(t: Seq<char>)
    ensures
        !uri_path(t).contains('/'),
{
    let s = replace_all(
        replace_all(prefix_until(t, query_pred()), "asset://localhost/"@, Seq::empty()),
        "http://asset.localhost/"@,
        Seq::empty(),
    );
    lemma_replace_slash_gone(s);
    lemma_replace_space_keeps_no_slash(replace_all(s, "/"@, "\\"@));
}

/// A reply that is valid JSON once trimmed is read as that JSON value.
pub proof fn law_parsable_reply_kept(reply: Seq<char>)
    requires
        json_parse(trim_ws(reply)) is Some,
    ensures
        reply_json(reply) == json_parse(trim_ws(reply))->0,
{
}

proof fn lemma_first_error_line_mentions(lines: Seq<Seq<char>>)
    ensures
        first_error_line(lines) matches Some(l) ==> mentions_error(l),
    decreases lines.len(),
{
    if lines.len() > 0 && !mentions_error(trim_ws(lines[0])) {
        lemma_first_error_line_mentions(lines.drop_first());
    }
}

/// The error summary of an output either mentions an error or is `see stderr`.
pub proof fn law_error_summary(stderr: Seq<char>)
    ensures
        mentions_error(error_summary(stderr)) || error_summary(stderr) == "see stderr"@,
{
    lemma_first_error_line_mentions(text_lines(stderr));
}

} // verus!

//! Character-level text helpers shared by the library: conversions between
//! strings and character vectors, and decimal rendering of integers.
use vstd::prelude::*;

verus! {

/// The ASCII digit for a value below ten.
pub open spec fn digit_char(d: nat) -> char {
    if d == 0 { '0' } else if d == 1 { '1' } else if d == 2 { '2' } else if d == 3 { '3' }
    else if d == 4 { '4' } else if d == 5 { '5' } else if d == 6 { '6' } else if d == 7 { '7' }
    else if d == 8 { '8' } else { '9' }
}

/// Decimal rendering of a natural number, most significant digit first, no leading zeros.
pub open spec fn decimal(n: nat) -> Seq<char>
    decreases n,
{
    if n < 10 {
        seq![digit_char(n)]
    } else {
        decimal(n / 10).push(digit_char(n % 10))
    }
}

/// Builds a `String` holding exactly the given characters.
#[verifier::external_body]
pub(crate) fn string_from_chars(chars: &Vec<char>) -> (s: String)
    ensures
        s@ == chars@,
{
    chars.iter().collect()
}

/// The characters of a string slice, in order.
pub fn str_chars(s: &str) -> (v: Vec<char>)
    ensures
        v@ == s@,
{
    let mut v: Vec<char> = Vec::new();
    for c in it: s.chars()
        invariant
            v@ == it.seq().take(it.index() as int),
    {
        v.push(c);
    }
    v
}

/// The ASCII digit character for `d`.
pub fn digit(d: u32) -> (c: char)
    requires
        d < 10,
    ensures
        c == digit_char(d as nat),
{
    match d {
        0 => '0',
        1 => '1',
        2 => '2',
        3 => '3',
        4 => '4',
        5 => '5',
        6 => '6',
        7 => '7',
        8 => '8',
        _ => '9',
    }
}

/// Appends the decimal rendering of `n` to `out`.
pub fn push_decimal(out: &mut Vec<char>, n: u32)
    ensures
        final(out)@ == old(out)@ + decimal(n as nat),
    decreases n,
{
    if n < 10 {
        out.push(digit(n));
        assert(decimal(n as nat) == seq![digit_char(n as nat)]);
    } else {
        push_decimal(out, n / 10);
        out.push(digit(n % 10));
        assert(decimal(n as nat) == decimal((n / 10) as nat).push(digit_char((n % 10) as nat)));
    }
}

} // verus!

verus! {

/// Appends the characters of `s` to `out`.
pub fn push_str(out: &mut Vec<char>, s: &str)
    ensures
        final(out)@ == old(out)@ + s@,
{
    let mut chars = str_chars(s);
    out.append(&mut chars);
}

} // verus!

verus! {

/// Whether `p` occurs in `s` starting at index `i`.
pub open spec fn occurs_at(s: Seq<char>, p: Seq<char>, i: int) -> bool {
    0 <= i && i + p.len() <= s.len() && s.subrange(i, i + p.len()) == p
}

/// Whether `p` occurs somewhere in `s`.
pub open spec fn contains_seq(s: Seq<char>, p: Seq<char>) -> bool {
    exists|i: int| occurs_at(s, p, i)
}

/// Whether `s` starts with `p`.
pub open spec fn starts_with_seq(s: Seq<char>, p: Seq<char>) -> bool {
    occurs_at(s, p, 0)
}

/// Whether `p` occurs in `s` at index `i`.
pub fn matches_at(s: &Vec<char>, p: &Vec<char>, i: usize) -> (b: bool)
    ensures
        b == occurs_at(s@, p@, i as int),
{
    if i > s.len() || p.len() > s.len() - i {
        return false;
    }
    let n = p.len();
    for k in 0..n
        invariant
            n == p.len(),
            i + n <= s.len(),
            forall|j: int| 0 <= j < k ==> s@[i + j] == p@[j],
    {
        if s[i + k] != p[k] {
            assert(s@.subrange(i as int, i + n)[k as int] != p@[k as int]);
            return false;
        }
    }
    assert(s@.subrange(i as int, i + n) =~= p@);
    true
}

/// Whether two texts are equal, compared character by character.
pub fn str_equal(a: &str, b: &str) -> (r: bool)
    ensures
        r == (a@ == b@),
{
    let x = str_chars(a);
    let y = str_chars(b);
    if x.len() != y.len() {
        return false;
    }
    let r = matches_at(&x, &y, 0);
    assert(x@.subrange(0, y@.len() as int) =~= x@);
    r
}

/// Whether `p` occurs in `s`.
pub fn contains_chars(s: &Vec<char>, p: &Vec<char>) -> (b: bool)
    ensures
        b == contains_seq(s@, p@),
{
    let n = s.len();
    let mut i: usize = 0;
    loop
        invariant
            n == s.len(),
            i <= n,
            forall|j: int| 0 <= j < i ==> !occurs_at(s@, p@, j),
        ensures
            forall|j: int| 0 <= j <= n ==> !occurs_at(s@, p@, j),
        decreases n - i,
    {
        if matches_at(s, p, i) {
            return true;
        }
        if i == n {
            break;
        }
        i = i + 1;
    }
    assert forall|j: int| !occurs_at(s@, p@, j) by {
        if 0 <= j && j <= n {
        }
    }
    false
}

/// Whether a character is white space in the sense of the Unicode
/// `White_Space` property, as `char::is_whitespace` decides it.
pub open spec fn is_white_space(c: char) -> bool {
    c == '\t' || c == '\n' || c == '\u{0B}' || c == '\u{0C}' || c == '\r' || c == ' '
        || c == '\u{85}' || c == '\u{A0}' || c == '\u{1680}'
        || ('\u{2000}' <= c && c <= '\u{200A}')
        || c == '\u{2028}' || c == '\u{2029}' || c == '\u{202F}' || c == '\u{205F}' || c == '\u{3000}'
}

/// Whether a character is white space (Unicode `White_Space`).
pub fn white_space(c: char) -> (b: bool)
    ensures
        b == is_white_space(c),
{
    c == '\t' || c == '\n' || c == '\u{0B}' || c == '\u{0C}' || c == '\r' || c == ' '
        || c == '\u{85}' || c == '\u{A0}' || c == '\u{1680}'
        || ('\u{2000}' <= c && c <= '\u{200A}')
        || c == '\u{2028}' || c == '\u{2029}' || c == '\u{202F}' || c == '\u{205F}' || c == '\u{3000}'
}

/// `s` without the characters satisfying `f` at its start.
pub open spec fn trim_start_by(s: Seq<char>, f: spec_fn(char) -> bool) -> Seq<char>
    decreases s.len(),
{
    if s.len() > 0 && f(s[0]) { trim_start_by(s.drop_first(), f) } else { s }
}

/// `s` without the characters satisfying `f` at its end.
pub open spec fn trim_end_by(s: Seq<char>, f: spec_fn(char) -> bool) -> Seq<char>
    decreases s.len(),
{
    if s.len() > 0 && f(s.last()) { trim_end_by(s.drop_last(), f) } else { s }
}

/// The characters trimmed: white space when `ws`, single and double quotes otherwise.
pub open spec fn trim_pred(ws: bool) -> spec_fn(char) -> bool {
    if ws { |c: char| is_white_space(c) } else { |c: char| c == '"' || c == '\'' }
}

/// `s` without the trimmed characters of `trim_pred(ws)` at both ends.
pub open spec fn trim_both(s: Seq<char>, ws: bool) -> Seq<char> {
    trim_end_by(trim_start_by(s, trim_pred(ws)), trim_pred(ws))
}

/// `s` without leading and trailing white space, as `str::trim` gives it.
pub open spec fn trim_ws(s: Seq<char>) -> Seq<char> {
    trim_both(s, true)
}

proof fn lemma_trim_start_skip(s: Seq<char>, f: spec_fn(char) -> bool, i: int)
    requires
        0 <= i <= s.len(),
        forall|j: int| 0 <= j < i ==> f(#[trigger] s[j]),
    ensures
        trim_start_by(s, f) == trim_start_by(s.skip(i), f),
    decreases i,
{
    if i > 0 {
        assert(s.skip(i) =~= s.drop_first().skip(i - 1));
        assert forall|j: int| 0 <= j < i - 1 implies f(#[trigger] s.drop_first()[j]) by {
            assert(s.drop_first()[j] == s[j + 1]);
        }
        lemma_trim_start_skip(s.drop_first(), f, i - 1);
    } else {
        assert(s.skip(0) =~= s);
    }
}

proof fn lemma_trim_end_take(s: Seq<char>, f: spec_fn(char) -> bool, i: int)
    requires
        0 <= i <= s.len(),
        forall|j: int| i <= j < s.len() ==> f(#[trigger] s[j]),
    ensures
        trim_end_by(s, f) == trim_end_by(s.take(i), f),
    decreases s.len() - i,
{
    if i < s.len() {
        assert(s.take(i) =~= s.drop_last().take(i));
        assert forall|j: int| i <= j < s.drop_last().len() implies f(#[trigger] s.drop_last()[j]) by {
            assert(s.drop_last()[j] == s[j]);
        }
        lemma_trim_end_take(s.drop_last(), f, i);
    } else {
        assert(s.take(i) =~= s);
    }
}

/// Whether `c` is trimmed: white space when `ws`, a quote otherwise.
fn trimmed_char(c: char, ws: bool) -> (b: bool)
    ensures
        b == (if ws { is_white_space(c) } else { c == '"' || c == '\'' }),
{
    if ws { white_space(c) } else { c == '"' || c == '\'' }
}

/// The bounds of `s[lo..hi]` once the characters satisfying `f` (decided by
/// `exec_f`) are removed from both ends.
pub fn trim_bounds(s: &Vec<char>, lo: usize, hi: usize, ws: bool) -> (r: (usize, usize))
    requires
        lo <= hi <= s.len(),
    ensures
        lo <= r.0 <= r.1 <= hi,
        trim_both(s@.subrange(lo as int, hi as int), ws) == s@.subrange(r.0 as int, r.1 as int),
{
    let ghost f = trim_pred(ws);
    let ghost t = s@.subrange(lo as int, hi as int);
    let mut a = lo;
    while a < hi && trimmed_char(s[a], ws)
        invariant
            lo <= a <= hi <= s.len(),
            t == s@.subrange(lo as int, hi as int),
            f == trim_pred(ws),
            forall|j: int| lo <= j < a ==> f(#[trigger] s@[j]),
        decreases hi - a,
    {
        a = a + 1;
    }
    proof {
        assert forall|j: int| 0 <= j < a - lo implies f(#[trigger] t[j]) by {
            assert(t[j] == s@[lo + j]);
        }
        lemma_trim_start_skip(t, f, a - lo);
        assert(t.skip(a - lo) =~= s@.subrange(a as int, hi as int));
        if a < hi {
            assert(!f(s@[a as int]));
            assert(trim_start_by(s@.subrange(a as int, hi as int), f) == s@.subrange(a as int, hi as int));
        } else {
            assert(s@.subrange(a as int, hi as int) =~= Seq::<char>::empty());
        }
    }
    let ghost u = s@.subrange(a as int, hi as int);
    let mut b = hi;
    while b > a && trimmed_char(s[b - 1], ws)
        invariant
            lo <= a <= b <= hi <= s.len(),
            u == s@.subrange(a as int, hi as int),
            f == trim_pred(ws),
            forall|j: int| b <= j < hi ==> f(#[trigger] s@[j]),
        decreases b - a,
    {
        b = b - 1;
    }
    proof {
        assert forall|j: int| b - a <= j < u.len() implies f(#[trigger] u[j]) by {
            assert(u[j] == s@[a + j]);
        }
        lemma_trim_end_take(u, f, b - a);
        assert(u.take(b - a) =~= s@.subrange(a as int, b as int));
        if b > a {
            assert(!f(s@[b - 1]));
            assert(s@.subrange(a as int, b as int).last() == s@[b - 1]);
        } else {
            assert(s@.subrange(a as int, b as int) =~= Seq::<char>::empty());
        }
    }
    (a, b)
}

/// Every occurrence of `p` in `s`, scanning from the left without overlap,
/// replaced by `r`, as `str::replace` does it.
pub open spec fn replace_all(s: Seq<char>, p: Seq<char>, r: Seq<char>) -> Seq<char>
    recommends
        p.len() > 0,
    decreases s.len(),
{
    if s.len() == 0 || p.len() == 0 {
        s
    } else if starts_with_seq(s, p) {
        r + replace_all(s.skip(p.len() as int), p, r)
    } else {
        seq![s[0]] + replace_all(s.drop_first(), p, r)
    }
}

/// `s` with every occurrence of `p` replaced by `r`.
pub fn replace_chars(s: &Vec<char>, p: &Vec<char>, r: &Vec<char>) -> (out: Vec<char>)
    requires
        p.len() > 0,
    ensures
        out@ == replace_all(s@, p@, r@),
{
    let mut out: Vec<char> = Vec::new();
    let n = s.len();
    let mut i: usize = 0;
    assert(s@.skip(0) =~= s@);
    while i < n
        invariant
            n == s.len(),
            i <= n,
            p.len() > 0,
            out@ + replace_all(s@.skip(i as int), p@, r@) == replace_all(s@, p@, r@),
        decreases n - i,
    {
        let ghost rest = s@.skip(i as int);
        if matches_at(s, p, i) {
            proof {
                assert(rest.subrange(0, p.len() as int) =~= s@.subrange(i as int, i + p.len()));
                assert(rest.skip(p.len() as int) =~= s@.skip(i + p.len()));
            }
            let mut rc = r.clone();
            out.append(&mut rc);
            i = i + p.len();
            proof {
                assert(rc@.len() == 0);
            }
        } else {
            proof {
                if p.len() <= rest.len() {
                    assert(rest.subrange(0, p.len() as int) =~= s@.subrange(i as int, i + p.len()));
                }
                assert(rest.drop_first() =~= s@.skip(i + 1));
            }
            out.push(s[i]);
            i = i + 1;
        }
    }
    proof {
        assert(s@.skip(n as int) =~= Seq::<char>::empty());
    }
    out
}

} // verus!

verus! {

/// The characters of `t` before the first one satisfying `stop`.
pub open spec fn prefix_until(t: Seq<char>, stop: spec_fn(char) -> bool) -> Seq<char>
    decreases t.len(),
{
    if t.len() == 0 || stop(t[0]) { Seq::empty() } else { seq![t[0]] + prefix_until(t.drop_first(), stop) }
}

pub proof fn lemma_prefix_until(t: Seq<char>, stop: spec_fn(char) -> bool, k: int)
    requires
        0 <= k <= t.len(),
        forall|j: int| 0 <= j < k ==> !stop(#[trigger] t[j]),
        k == t.len() || stop(t[k]),
    ensures
        prefix_until(t, stop) == t.take(k),
    decreases k,
{
    if k == 0 {
        assert(t.take(0) =~= Seq::<char>::empty());
    } else {
        assert forall|j: int| 0 <= j < k - 1 implies !stop(#[trigger] t.drop_first()[j]) by {
            assert(t.drop_first()[j] == t[j + 1]);
        }
        if k < t.len() {
            assert(t.drop_first()[k - 1] == t[k]);
        }
        lemma_prefix_until(t.drop_first(), stop, k - 1);
        assert(t.take(k) =~= seq![t[0]] + t.drop_first().take(k - 1));
    }
}

/// The elements `[lo, hi)` of `s`.
pub fn slice_chars(s: &Vec<char>, lo: usize, hi: usize) -> (out: Vec<char>)
    requires
        lo <= hi <= s.len(),
    ensures
        out@ == s@.subrange(lo as int, hi as int),
{
    let mut out: Vec<char> = Vec::new();
    for i in lo..hi
        invariant
            lo <= hi <= s.len(),
            out@ == s@.subrange(lo as int, i as int),
    {
        out.push(s[i]);
        assert(out@ =~= s@.subrange(lo as int, i + 1));
    }
    out
}

} // verus!

//! The edit plan of a stitch: which clips are kept and in which order, the
//! transition into each segment, and the chain of crossfade filter labels
//! that joins the segments.
use vstd::prelude::*;
use crate::text::{decimal, push_decimal, string_from_chars};

verus! {

/// The most clips a stitch keeps.
pub const MAX_SEGMENTS: usize = 8;

/// Whether clip `a` comes before clip `b` in the interest order: a higher
/// key first, and among equal keys the earlier clip first.
pub open spec fn ranks_before(keys: Seq<u32>, a: int, b: int) -> bool {
    keys[a] > keys[b] || (keys[a] == keys[b] && a < b)
}

/// `order` is the start of the clips `0..keys.len()` sorted by descending
/// key, equal keys in input order: it holds distinct clips, each before the
/// next, and every clip left out comes after every clip kept.
pub open spec fn is_stitch_order(keys: Seq<u32>, order: Seq<usize>) -> bool {
    &&& forall|i: int| 0 <= i < order.len() ==> #[trigger] order[i] < keys.len()
    &&& forall|i: int, j: int| 0 <= i < j < order.len() ==> ranks_before(keys, order[i] as int, order[j] as int)
    &&& forall|i: int, c: int|
        0 <= i < order.len() && 0 <= c < keys.len() && !order.contains(c as usize)
            ==> #[trigger] ranks_before(keys, order[i] as int, c)
}

/// The clips kept by a stitch, in order: at most eight, sorted by descending
/// interest key (a stable sort, so equal keys keep their input order).
pub fn stitch_order(keys: &Vec<u32>) -> (order: Vec<usize>)
    ensures
        order.len() == if keys.len() < MAX_SEGMENTS { keys.len() } else { MAX_SEGMENTS },
        is_stitch_order(keys@, order@),
{
    let n = keys.len();
    let m = if n < MAX_SEGMENTS { n } else { MAX_SEGMENTS };
    let mut taken: Vec<bool> = Vec::new();
    for j in 0..n
        invariant
            taken.len() == j,
            forall|c: int| 0 <= c < j ==> !#[trigger] taken@[c],
    {
        taken.push(false);
    }
    let mut order: Vec<usize> = Vec::new();
    for k in 0..m
        invariant
            n == keys.len(),
            m <= n,
            taken.len() == n,
            order.len() == k,
            forall|c: int| 0 <= c < n ==> (#[trigger] taken@[c] <==> order@.contains(c as usize)),
            is_stitch_order(keys@, order@),
    {
        // An untaken clip exists: k < m <= n clips are taken.
        let mut best: usize = n;
        for j in 0..n
            invariant
                n == keys.len(),
                taken.len() == n,
                best == n || (best < j && !taken@[best as int]),
                best == n ==> forall|c: int| 0 <= c < j ==> #[trigger] taken@[c],
                best < n ==> forall|c: int|
                    0 <= c < j && !#[trigger] taken@[c] && c != best ==> ranks_before(keys@, best as int, c),
        {
            if !taken[j] {
                if best == n || keys[j] > keys[best] {
                    best = j;
                }
            }
        }
        proof {
            if best == n {
                // Every clip would be taken, so `order` would hold n > k distinct clips.
                assert forall|i: int, j: int| 0 <= i < j < order@.len() implies order@[i] != order@[j] by {
                    assert(ranks_before(keys@, order@[i] as int, order@[j] as int));
                }
                assert forall|c: usize| c < n implies #[trigger] order@.contains(c) by {
                    assert(taken@[c as int]);
                }
                lemma_all_taken(order@, n as int);
                assert(false);
            }
        }
        let ghost before = order@;
        order.push(best);
        taken.set(best, true);
        proof {
            assert forall|c: int| 0 <= c < n implies (#[trigger] taken@[c] <==> order@.contains(c as usize)) by {
                if c == best as int {
                    assert(order@[k as int] == best);
                } else {
                    if before.contains(c as usize) {
                        let w = choose|w: int| 0 <= w < before.len() && before[w] == c as usize;
                        assert(order@[w] == c as usize);
                    }
                    if order@.contains(c as usize) {
                        let w = choose|w: int| 0 <= w < order@.len() && order@[w] == c as usize;
                        assert(w < k);
                        assert(before[w] == c as usize);
                    }
                }
            }
            assert forall|i: int, c: int|
                0 <= i < order@.len() && 0 <= c < n && !order@.contains(c as usize)
                    implies #[trigger] ranks_before(keys@, order@[i] as int, c) by {
                assert(!taken@[c]);
                if i < k {
                    assert(order@[i] == before[i]);
                    if before.contains(c as usize) {
                        let w = choose|w: int| 0 <= w < before.len() && before[w] == c as usize;
                        assert(order@[w] == c as usize);
                    }
                } else {
                    assert(order@[i] == best);
                    assert(c != best as int) by {
                        assert(order@[k as int] == best);
                    }
                }
            }
            assert forall|i: int, j: int| 0 <= i < j < order@.len()
                implies ranks_before(keys@, order@[i] as int, order@[j] as int) by {
                if j < k {
                    assert(order@[i] == before[i] && order@[j] == before[j]);
                } else {
                    assert(order@[i] == before[i]);
                    assert(order@[j] == best);
                    assert(!before.contains(best)) by {
                        if before.contains(best) {
                            let w = choose|w: int| 0 <= w < before.len() && before[w] == best;
                            assert(order@[w] == best);
                        }
                    }
                }
            }
        }
    }
    order
}

/// Clips `0..n` all in `order`, with `order` holding distinct clips, make
/// `order` at least `n` long.
proof fn lemma_all_taken(order: Seq<usize>, n: int)
    requires
        0 <= n <= usize::MAX,
        forall|c: usize| c < n ==> #[trigger] order.contains(c),
        forall|i: int, j: int| 0 <= i < j < order.len() ==> order[i] != order[j],
    ensures
        order.len() >= n,
    decreases n,
{
    if n > 0 {
        assert(order.contains((n - 1) as usize));
        let w = choose|w: int| 0 <= w < order.len() && order[w] == (n - 1) as usize;
        let rest = order.remove(w);
        assert forall|c: usize| c < n - 1 implies #[trigger] rest.contains(c) by {
            assert(order.contains(c));
            let v = choose|v: int| 0 <= v < order.len() && order[v] == c;
            assert(v != w);
            if v < w {
                assert(rest[v] == c);
            } else {
                assert(rest[v - 1] == c);
            }
        }
        assert forall|i: int, j: int| 0 <= i < j < rest.len() implies rest[i] != rest[j] by {
            let oi = if i < w { i } else { i + 1 };
            let oj = if j < w { j } else { j + 1 };
            assert(rest[i] == order[oi] && rest[j] == order[oj]);
        }
        lemma_all_taken(rest, n - 1);
    }
}

/// The transition into each of `n` segments: "none" into the first, "fade"
/// into every other.
pub fn segment_transitions(n: usize) -> (t: Vec<String>)
    ensures
        t.len() == n,
        forall|i: int| 0 <= i < n ==> (#[trigger] t@[i])@ == if i == 0 { "none"@ } else { "fade"@ },
{
    let mut t: Vec<String> = Vec::new();
    for i in 0..n
        invariant
            t.len() == i,
            forall|j: int| 0 <= j < i ==> (#[trigger] t@[j])@ == if j == 0 { "none"@ } else { "fade"@ },
    {
        if i == 0 {
            t.push("none".to_owned());
        } else {
            t.push("fade".to_owned());
        }
    }
    t
}

/// A filter label: `[` , the tag, the number, `]`; `[v2]` for tag `v`, 2.
pub open spec fn filter_label(tag: char, k: nat) -> Seq<char> {
    seq!['['] + seq![tag] + decimal(k) + seq![']']
}

/// The label of the stream that crossfade step `k` (from 1) starts from: the
/// first segment for the first step, the previous step's output otherwise.
pub open spec fn chain_input(k: nat) -> Seq<char> {
    if k <= 1 { filter_label('v', 0) } else { filter_label('x', (k - 1) as nat) }
}

/// The label of the stream that ends a chain of `n` segments.
pub open spec fn chain_end(n: nat) -> Seq<char> {
    if n <= 1 { filter_label('v', 0) } else { filter_label('x', (n - 1) as nat) }
}

/// The label `[tag k]`.
fn make_label(tag: char, k: u32) -> (l: String)
    ensures
        l@ == filter_label(tag, k as nat),
{
    let mut cs: Vec<char> = Vec::new();
    cs.push('[');
    cs.push(tag);
    push_decimal(&mut cs, k);
    cs.push(']');
    assert(cs@ =~= filter_label(tag, k as nat));
    string_from_chars(&cs)
}

/// The crossfade chain that joins `n` segments labelled `[v0]`..: for each
/// step `k` from 1, the stream it starts from, the segment `[vk]` it fades
/// into and its output `[xk]`; then the label of the chain's end.
pub fn xfade_chain(n: u32) -> (r: (Vec<(String, String, String)>, String))
    requires
        n >= 1,
    ensures
        r.0.len() == n - 1,
        forall|i: int| 0 <= i < n - 1 ==> {
            let step = #[trigger] r.0@[i];
            &&& step.0@ == chain_input((i + 1) as nat)
            &&& step.1@ == filter_label('v', (i + 1) as nat)
            &&& step.2@ == filter_label('x', (i + 1) as nat)
        },
        r.1@ == chain_end(n as nat),
{
    let mut steps: Vec<(String, String, String)> = Vec::new();
    let mut prev = make_label('v', 0);
    let mut k: u32 = 1;
    while k < n
        invariant
            1 <= k <= n,
            steps.len() == k - 1,
            prev@ == chain_input(k as nat),
            forall|i: int| 0 <= i < k - 1 ==> {
                let step = #[trigger] steps@[i];
                &&& step.0@ == chain_input((i + 1) as nat)
                &&& step.1@ == filter_label('v', (i + 1) as nat)
                &&& step.2@ == filter_label('x', (i + 1) as nat)
            },
        decreases n - k,
    {
        let input = make_label('v', k);
        let out = make_label('x', k);
        let next = make_label('x', k);
        steps.push((prev, input, out));
        prev = next;
        k = k + 1;
    }
    (steps, prev)
}

} // verus!

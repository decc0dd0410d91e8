//! Topic-pattern matching for hierarchical publish/subscribe topics.
//!
//! A topic is a string of segments separated by `/`. A pattern is a topic
//! whose segments may also be the single-level wildcard `+`, which matches
//! exactly one segment of any content, or the multi-level wildcard `#`,
//! which is legal only as the final pattern segment and matches any
//! remaining suffix of segments, including the empty one. A pattern with a
//! multi-level wildcard anywhere but last is treated as matching nothing,
//! so one malformed pattern cannot disable a whole pattern set.

use vstd::prelude::*;
use crate::text::chars_of;

verus! {

/// Index of the first `/` in `s`, or `s.len()` when there is none.
pub open spec fn first_slash(s: Seq<char>) -> int
    decreases s.len(),
{
    if s.len() == 0 {
        0
    } else if s[0] == '/' {
        0
    } else {
        1 + first_slash(s.skip(1))
    }
}

proof fn lemma_first_slash(s: Seq<char>)
    ensures
        0 <= first_slash(s) <= s.len(),
        first_slash(s) < s.len() ==> s[first_slash(s)] == '/',
        forall|j: int| 0 <= j < first_slash(s) ==> s[j] != '/',
    decreases s.len(),
{
    if s.len() == 0 {
    } else if s[0] == '/' {
    } else {
        lemma_first_slash(s.skip(1));
        assert forall|j: int| 0 <= j < first_slash(s) implies s[j] != '/' by {
            if j > 0 {
                assert(s.skip(1)[j - 1] == s[j]);
            }
        }
    }
}

/// A slash-free prefix of length `k`, followed by the end of the sequence
/// or by a slash, pins `first_slash` down to `k`.
proof fn lemma_first_slash_is(s: Seq<char>, k: int)
    requires
        0 <= k <= s.len(),
        forall|j: int| 0 <= j < k ==> s[j] != '/',
        k < s.len() ==> s[k] == '/',
    ensures
        first_slash(s) == k,
    decreases s.len(),
{
    if s.len() == 0 {
    } else if s[0] == '/' {
        assert(k == 0);
    } else {
        assert(k >= 1);
        assert forall|j: int| 0 <= j < k - 1 implies s.skip(1)[j] != '/' by {
            assert(s.skip(1)[j] == s[j + 1]);
        }
        assert(k - 1 < s.skip(1).len() ==> s.skip(1)[k - 1] == s[k]);
        lemma_first_slash_is(s.skip(1), k - 1);
    }
}

/// The segments of `s`: the maximal slash-free runs between the slashes.
/// The empty string has one empty segment, and a trailing slash yields a
/// trailing empty segment.
pub open spec fn split_segments(s: Seq<char>) -> Seq<Seq<char>>
    decreases s.len(),
    via split_segments_dec
{
    let i = first_slash(s);
    if i >= s.len() {
        seq![s]
    } else {
        seq![s.take(i)] + split_segments(s.skip(i + 1))
    }
}

#[via_fn]
proof fn split_segments_dec(s: Seq<char>) {
    lemma_first_slash(s);
}

/// The single-level wildcard segment.
pub open spec fn single_wild() -> Seq<char> {
    seq!['+']
}

/// The multi-level wildcard segment.
pub open spec fn multi_wild() -> Seq<char> {
    seq!['#']
}

/// Whether the pattern segments `pat` match the topic segments `top`:
/// compared left to right, a literal segment must be equal, `+` consumes
/// exactly one topic segment, and `#` — legal only as the last pattern
/// segment — consumes any remaining topic segments, including none.
pub open spec fn segs_match(pat: Seq<Seq<char>>, top: Seq<Seq<char>>) -> bool
    decreases pat.len(),
{
    if pat.len() == 0 {
        top.len() == 0
    } else if pat[0] == multi_wild() {
        pat.len() == 1
    } else if top.len() == 0 {
        false
    } else if pat[0] == single_wild() || pat[0] == top[0] {
        segs_match(pat.skip(1), top.skip(1))
    } else {
        false
    }
}

/// Whether the pattern string `pattern` matches the topic string `topic`,
/// by the segment rules of `segs_match`.
pub open spec fn spec_topic_matches(pattern: Seq<char>, topic: Seq<char>) -> bool {
    segs_match(split_segments(pattern), split_segments(topic))
}

/// Whether `topic` matches at least one pattern in `patterns`.
pub open spec fn spec_matches_any(patterns: Seq<Seq<char>>, topic: Seq<char>) -> bool {
    exists|i: int| 0 <= i < patterns.len() && spec_topic_matches(patterns[i], topic)
}

/// The character sequences of a vector of strings.
pub open spec fn str_views(v: Seq<String>) -> Seq<Seq<char>> {
    v.map_values(|s: String| s@)
}

/// The character sequences of a vector of character vectors.
pub open spec fn views_of(v: Seq<Vec<char>>) -> Seq<Seq<char>> {
    v.map_values(|s: Vec<char>| s@)
}

/// A copy of `v[from..to]`.
fn copy_range(v: &Vec<char>, from: usize, to: usize) -> (r: Vec<char>)
    requires
        from <= to <= v.len(),
    ensures
        r@ == v@.subrange(from as int, to as int),
{
    let mut r: Vec<char> = Vec::new();
    let mut i: usize = from;
    while i < to
        invariant
            from <= i <= to <= v.len(),
            r@ == v@.subrange(from as int, i as int),
        decreases to - i,
    {
        r.push(v[i]);
        i = i + 1;
        proof {
            assert(r@ =~= v@.subrange(from as int, i as int));
        }
    }
    r
}

/// The segments of `v` from position `from` on, split at the slashes.
fn split_from(v: &Vec<char>, from: usize) -> (r: Vec<Vec<char>>)
    requires
        from <= v.len(),
    ensures
        views_of(r@) == split_segments(v@.skip(from as int)),
    decreases v@.len() - from,
{
    let ghost s: Seq<char> = v@.skip(from as int);
    let mut i: usize = from;
    while i < v.len() && v[i] != '/'
        invariant
            from <= i <= v.len(),
            forall|j: int| from <= j < i ==> v@[j] != '/',
        decreases v.len() - i,
    {
        i = i + 1;
    }
    proof {
        assert forall|j: int| 0 <= j < i - from implies s[j] != '/' by {
            assert(s[j] == v@[j + from]);
        }
        assert((i - from) < s.len() ==> s[i - from] == '/');
        lemma_first_slash_is(s, i - from);
    }
    if i == v.len() {
        let seg = copy_range(v, from, i);
        let mut r: Vec<Vec<char>> = Vec::new();
        r.push(seg);
        proof {
            assert(seg@ =~= s);
            assert(views_of(r@) =~= seq![s]);
        }
        r
    } else {
        let seg = copy_range(v, from, i);
        let mut r = split_from(v, i + 1);
        r.insert(0, seg);
        proof {
            let k: int = i - from;
            assert(seg@ =~= s.take(k));
            assert(v@.skip(i + 1) =~= s.skip(k + 1));
            assert(views_of(r@) =~= seq![s.take(k)] + split_segments(s.skip(k + 1)));
        }
        r
    }
}

/// Whether the character vectors `a` and `b` hold the same characters.
fn seg_eq(a: &Vec<char>, b: &Vec<char>) -> (r: bool)
    ensures
        r == (a@ == b@),
{
    if a.len() != b.len() {
        return false;
    }
    let mut i: usize = 0;
    while i < a.len()
        invariant
            i <= a.len(),
            a.len() == b.len(),
            forall|j: int| 0 <= j < i ==> a@[j] == b@[j],
        decreases a.len() - i,
    {
        if a[i] != b[i] {
            return false;
        }
        i = i + 1;
    }
    proof {
        assert(a@ =~= b@);
    }
    true
}

/// Whether `seg` is exactly the one-character segment `w`.
fn seg_is(seg: &Vec<char>, w: char) -> (r: bool)
    ensures
        r == (seg@ == seq![w]),
{
    let r = seg.len() == 1 && seg[0] == w;
    proof {
        if seg@.len() == 1 && seg@[0] == w {
            assert(seg@ =~= seq![w]);
        }
        if seg@ == seq![w] {
            assert(seg@.len() == 1 && seg@[0] == w);
        }
    }
    r
}

/// Whether the pattern segments `pat` match the topic segments `top`.
fn match_segments(pat: &Vec<Vec<char>>, top: &Vec<Vec<char>>) -> (r: bool)
    ensures
        r == segs_match(views_of(pat@), views_of(top@)),
{
    let ghost p: Seq<Seq<char>> = views_of(pat@);
    let ghost t: Seq<Seq<char>> = views_of(top@);
    let mut i: usize = 0;
    proof {
        assert(p.skip(0) =~= p);
        assert(t.skip(0) =~= t);
    }
    loop
        invariant
            i <= pat.len(),
            i <= top.len(),
            p == views_of(pat@),
            t == views_of(top@),
            segs_match(p.skip(i as int), t.skip(i as int)) == segs_match(p, t),
        decreases pat.len() - i,
    {
        let ghost pi = p.skip(i as int);
        let ghost ti = t.skip(i as int);
        if i == pat.len() {
            proof {
                assert(pi.len() == 0);
            }
            return i == top.len();
        }
        if seg_is(&pat[i], '#') {
            proof {
                assert(pi[0] == p[i as int]);
            }
            return i + 1 == pat.len();
        }
        if i == top.len() {
            proof {
                assert(pi[0] == p[i as int]);
                assert(ti.len() == 0);
            }
            return false;
        }
        let step = seg_is(&pat[i], '+') || seg_eq(&pat[i], &top[i]);
        proof {
            assert(pi[0] == p[i as int]);
            assert(ti[0] == t[i as int]);
        }
        if step {
            proof {
                assert(pi.skip(1) =~= p.skip(i + 1));
                assert(ti.skip(1) =~= t.skip(i + 1));
            }
            i = i + 1;
        } else {
            return false;
        }
    }
}

/// Whether the pattern string `pattern` matches the topic string `topic`,
/// per the hierarchical wildcard rules.
pub fn topic_matches(pattern: &str, topic: &str) -> (r: bool)
    ensures
        r == spec_topic_matches(pattern@, topic@),
{
    let pc = chars_of(pattern);
    let tc = chars_of(topic);
    let pat = split_from(&pc, 0);
    let top = split_from(&tc, 0);
    proof {
        assert(pc@.skip(0) =~= pattern@);
        assert(tc@.skip(0) =~= topic@);
    }
    match_segments(&pat, &top)
}

/// Whether `topic` matches at least one of the patterns in `patterns`.
pub fn matches_any(patterns: &Vec<String>, topic: &str) -> (r: bool)
    ensures
        r == spec_matches_any(str_views(patterns@), topic@),
{
    let ghost ps: Seq<Seq<char>> = str_views(patterns@);
    let mut i: usize = 0;
    while i < patterns.len()
        invariant
            i <= patterns.len(),
            ps == str_views(patterns@),
            forall|j: int| 0 <= j < i ==> !spec_topic_matches(ps[j], topic@),
        decreases patterns.len() - i,
    {
        if topic_matches(patterns[i].as_str(), topic) {
            proof {
                assert(ps[i as int] == patterns@[i as int]@);
            }
            return true;
        }
        i = i + 1;
    }
    false
}

} // verus!

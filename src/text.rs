//! Character-sequence facts used by the cache: occurrence of a word,
//! left-to-right replacement, and prefix tests.
use vstd::prelude::*;

verus! {

/// `w` occurs in `s` starting at position `p`.
pub open spec fn occurs_at(s: Seq<char>, w: Seq<char>, p: int) -> bool {
    &&& 0 <= p
    &&& p + w.len() <= s.len()
    &&& s.subrange(p, p + w.len()) == w
}

/// `w` occurs somewhere in `s`.
pub open spec fn contains(s: Seq<char>, w: Seq<char>) -> bool {
    exists|p: int| occurs_at(s, w, p)
}

/// `p` is a prefix of `s`.
pub open spec fn has_prefix(s: Seq<char>, p: Seq<char>) -> bool {
    p.len() <= s.len() && s.subrange(0, p.len() as int) == p
}

/// No character of `a` appears in `b`.
pub open spec fn disjoint(a: Seq<char>, b: Seq<char>) -> bool {
    forall|i: int, j: int| 0 <= i < a.len() && 0 <= j < b.len() ==> a[i] != b[j]
}

/// Every non-overlapping occurrence of `from` in `s`, scanning from the left,
/// replaced by `to`.
pub open spec fn replace_all(s: Seq<char>, from: Seq<char>, to: Seq<char>) -> Seq<char>
    decreases s.len(),
{
    if from.len() == 0 || s.len() < from.len() {
        s
    } else if s.subrange(0, from.len() as int) == from {
        to + replace_all(s.subrange(from.len() as int, s.len() as int), from, to)
    } else {
        seq![s[0]] + replace_all(s.subrange(1, s.len() as int), from, to)
    }
}

/// Relies on `str::replace`: every non-overlapping match of a non-empty
/// pattern, taken from the left, is replaced.
#[verifier::external_body]
pub(crate) fn replace_str(s: &str, from: &str, to: &str) -> (r: String)
    requires
        from@.len() > 0,
    ensures
        r@ == replace_all(s@, from@, to@),
{
    s.replace(from, to)
}

/// Whether `s` begins with `p`.
pub fn starts_with(s: &str, p: &str) -> (r: bool)
    ensures
        r == has_prefix(s@, p@),
{
    let n = s.unicode_len();
    let m = p.unicode_len();
    if m > n {
        return false;
    }
    let mut i: usize = 0;
    while i < m
        invariant
            m == p@.len(),
            n == s@.len(),
            m <= n,
            i <= m,
            forall|k: int| 0 <= k < i ==> s@[k] == p@[k],
        decreases m - i,
    {
        if s.get_char(i) != p.get_char(i) {
            return false;
        }
        i = i + 1;
    }
    assert(s@.subrange(0, m as int) =~= p@);
    true
}

/// A word cannot begin inside a prefix that lacks its first character.
pub proof fn lemma_absent_after_prefix(p: Seq<char>, q: Seq<char>, w: Seq<char>)
    requires
        w.len() > 0,
        !contains(q, w),
        forall|i: int| 0 <= i < p.len() ==> p[i] != w[0],
    ensures
        !contains(p + q, w),
{
    if contains(p + q, w) {
        let k = choose|k: int| occurs_at(p + q, w, k);
        if k < p.len() {
            assert((p + q).subrange(k, k + w.len())[0] == (p + q)[k]);
        } else {
            assert(q.subrange(k - p.len(), k - p.len() + w.len()) =~= (p + q).subrange(
                k,
                k + w.len(),
            ));
            assert(occurs_at(q, w, k - p.len()));
        }
    }
}

/// An occurrence in `q` is still one after something is put in front.
pub proof fn lemma_present_after_prefix(p: Seq<char>, q: Seq<char>, w: Seq<char>)
    requires
        contains(q, w),
    ensures
        contains(p + q, w),
{
    let k = choose|k: int| occurs_at(q, w, k);
    assert((p + q).subrange(k + p.len(), k + p.len() + w.len()) =~= q.subrange(k, k + w.len()));
    assert(occurs_at(p + q, w, k + p.len()));
}

/// A leading stretch of the replaced text that holds no character of `to`
/// is copied unchanged from the input.
proof fn lemma_untouched_prefix(t: Seq<char>, from: Seq<char>, to: Seq<char>, m: int)
    requires
        from.len() > 0,
        to.len() > 0,
        0 <= m <= replace_all(t, from, to).len(),
        forall|i: int, j: int|
            0 <= i < m && 0 <= j < to.len() ==> replace_all(t, from, to)[i] != to[j],
    ensures
        m <= t.len(),
        t.subrange(0, m) == replace_all(t, from, to).subrange(0, m),
    decreases t.len(),
{
    let r = replace_all(t, from, to);
    if t.len() < from.len() {
        assert(t.subrange(0, m) =~= r.subrange(0, m));
    } else if t.subrange(0, from.len() as int) == from {
        if m > 0 {
            assert(r[0] == to[0]);
        }
        assert(t.subrange(0, m) =~= r.subrange(0, m));
    } else if m > 0 {
        let rest = t.subrange(1, t.len() as int);
        let rr = replace_all(rest, from, to);
        assert(r == seq![t[0]] + rr);
        assert forall|i: int, j: int| 0 <= i < m - 1 && 0 <= j < to.len() implies rr[i] != to[j] by {
            assert(r[i + 1] == rr[i]);
        }
        lemma_untouched_prefix(rest, from, to, m - 1);
        assert(t.subrange(0, m) =~= r.subrange(0, m)) by {
            assert forall|i: int| 0 <= i < m implies t.subrange(0, m)[i] == r.subrange(0, m)[i] by {
                if i > 0 {
                    assert(rest.subrange(0, m - 1)[i - 1] == rr.subrange(0, m - 1)[i - 1]);
                }
            }
        }
    } else {
        assert(t.subrange(0, m) =~= r.subrange(0, m));
    }
}

/// Once replaced by a word with none of its characters, `from` no longer occurs.
pub proof fn lemma_replaced_word_absent(s: Seq<char>, from: Seq<char>, to: Seq<char>)
    requires
        from.len() > 0,
        to.len() > 0,
        disjoint(from, to),
    ensures
        !contains(replace_all(s, from, to), from),
    decreases s.len(),
{
    let r = replace_all(s, from, to);
    if s.len() < from.len() {
    } else if s.subrange(0, from.len() as int) == from {
        let rest = s.subrange(from.len() as int, s.len() as int);
        lemma_replaced_word_absent(rest, from, to);
        lemma_absent_after_prefix(to, replace_all(rest, from, to), from);
    } else {
        let rest = s.subrange(1, s.len() as int);
        let rr = replace_all(rest, from, to);
        lemma_replaced_word_absent(rest, from, to);
        assert(r == seq![s[0]] + rr);
        if contains(r, from) {
            let k = choose|k: int| occurs_at(r, from, k);
            if k == 0 {
                let m = from.len() - 1;
                assert forall|i: int, j: int| 0 <= i < m && 0 <= j < to.len() implies rr[i] != to[j] by {
                    assert(r.subrange(0, from.len() as int)[i + 1] == r[i + 1]);
                    assert(from[i + 1] != to[j]);
                }
                lemma_untouched_prefix(rest, from, to, m);
                assert(s.subrange(0, from.len() as int) =~= from) by {
                    assert forall|i: int| 0 <= i < from.len() implies s.subrange(
                        0,
                        from.len() as int,
                    )[i] == from[i] by {
                        assert(r.subrange(0, from.len() as int)[i] == r[i]);
                        if i > 0 {
                            assert(rest.subrange(0, m)[i - 1] == rr.subrange(0, m)[i - 1]);
                        }
                    }
                }
            } else {
                assert(rr.subrange(k - 1, k - 1 + from.len()) =~= r.subrange(k, k + from.len()));
                assert(occurs_at(rr, from, k - 1));
            }
        }
    }
}

/// Where `from` occurs, the replacement word occurs in the result.
pub proof fn lemma_replacement_present(s: Seq<char>, from: Seq<char>, to: Seq<char>)
    requires
        from.len() > 0,
        contains(s, from),
    ensures
        contains(replace_all(s, from, to), to),
    decreases s.len(),
{
    let k = choose|k: int| occurs_at(s, from, k);
    if s.len() < from.len() {
    } else if s.subrange(0, from.len() as int) == from {
        let rest = s.subrange(from.len() as int, s.len() as int);
        let r = replace_all(s, from, to);
        assert(r.subrange(0, to.len() as int) =~= to);
        assert(occurs_at(r, to, 0));
    } else {
        let rest = s.subrange(1, s.len() as int);
        assert(k != 0);
        assert(rest.subrange(k - 1, k - 1 + from.len()) =~= s.subrange(k, k + from.len()));
        assert(occurs_at(rest, from, k - 1));
        lemma_replacement_present(rest, from, to);
        lemma_present_after_prefix(seq![s[0]], replace_all(rest, from, to), to);
    }
}

} // verus!

//! Ordered sets of capability tokens: strictly ascending lists of strings
//! under the ordering of `str` (lexicographic by Unicode scalar value, the
//! order of their UTF-8 bytes).

use vstd::prelude::*;
use vstd::string::StrSliceExecFns;
use crate::vocab::bounded::no_dups;
use crate::vocab::conformance::str_eq;

verus! {

/// `a` sorts before `b`: at the first position where they differ the
/// character of `a` is smaller, or `a` is a proper prefix of `b`.
pub open spec fn lex_lt(a: Seq<char>, b: Seq<char>) -> bool
    decreases a.len(),
{
    if a.len() == 0 {
        b.len() > 0
    } else if b.len() == 0 {
        false
    } else if a[0] != b[0] {
        (a[0] as int) < (b[0] as int)
    } else {
        lex_lt(a.drop_first(), b.drop_first())
    }
}

/// No text sorts before itself.
pub proof fn lemma_lex_irreflexive(a: Seq<char>)
    ensures
        !lex_lt(a, a),
    decreases a.len(),
{
    if a.len() > 0 {
        lemma_lex_irreflexive(a.drop_first());
    }
}

/// The order is transitive.
pub proof fn lemma_lex_transitive(a: Seq<char>, b: Seq<char>, c: Seq<char>)
    requires
        lex_lt(a, b),
        lex_lt(b, c),
    ensures
        lex_lt(a, c),
    decreases a.len(),
{
    if a.len() > 0 && b.len() > 0 && c.len() > 0 && a[0] == b[0] && b[0] == c[0] {
        lemma_lex_transitive(a.drop_first(), b.drop_first(), c.drop_first());
    }
}

/// Of two different texts, one sorts before the other.
pub proof fn lemma_lex_total(a: Seq<char>, b: Seq<char>)
    requires
        a != b,
    ensures
        lex_lt(a, b) || lex_lt(b, a),
    decreases a.len(),
{
    if a.len() == 0 || b.len() == 0 {
        if a.len() == 0 && b.len() == 0 {
            assert(a =~= b);
        }
    } else if a[0] == b[0] {
        if a.drop_first() == b.drop_first() {
            assert(a =~= seq![a[0]] + a.drop_first());
            assert(b =~= seq![b[0]] + b.drop_first());
        }
        lemma_lex_total(a.drop_first(), b.drop_first());
    } else {
        assert((a[0] as int) != (b[0] as int));
    }
}

/// Compares two strings in the order of `str`.
pub fn str_lt(a: &str, b: &str) -> (r: bool)
    ensures
        r == lex_lt(a@, b@),
{
    let la = a.unicode_len();
    let lb = b.unicode_len();
    let mut i: usize = 0;
    assert(a@.skip(0) =~= a@);
    assert(b@.skip(0) =~= b@);
    while i < la && i < lb
        invariant
            la == a@.len(),
            lb == b@.len(),
            i <= la,
            i <= lb,
            lex_lt(a@, b@) == lex_lt(a@.skip(i as int), b@.skip(i as int)),
        decreases la - i,
    {
        let ca = a.get_char(i);
        let cb = b.get_char(i);
        assert(a@.skip(i as int)[0] == ca);
        assert(b@.skip(i as int)[0] == cb);
        if ca != cb {
            return (ca as u32) < (cb as u32);
        }
        assert(a@.skip(i as int).drop_first() =~= a@.skip(i + 1));
        assert(b@.skip(i as int).drop_first() =~= b@.skip(i + 1));
        i = i + 1;
    }
    i == la && i < lb
}

/// Strictly ascending.
pub open spec fn sorted(s: Seq<Seq<char>>) -> bool {
    forall|i: int, j: int| 0 <= i < j < s.len() ==> lex_lt(#[trigger] s[i], #[trigger] s[j])
}

/// A strictly ascending list holds no text twice.
pub proof fn lemma_sorted_no_dups(s: Seq<Seq<char>>)
    requires
        sorted(s),
    ensures
        no_dups(s),
{
    assert forall|i: int, j: int| 0 <= i < j < s.len() implies s[i] != s[j] by {
        lemma_lex_irreflexive(s[i]);
    }
}

/// The number of leading elements of `s` that sort before `x`: where `x`
/// belongs in an ascending `s`.
pub open spec fn lead_below(s: Seq<Seq<char>>, x: Seq<char>) -> nat
    decreases s.len(),
{
    if s.len() > 0 && lex_lt(s[0], x) {
        1 + lead_below(s.drop_first(), x)
    } else {
        0
    }
}

proof fn lemma_lead_below(s: Seq<Seq<char>>, x: Seq<char>)
    ensures
        lead_below(s, x) <= s.len(),
        forall|j: int| 0 <= j < lead_below(s, x) ==> lex_lt(#[trigger] s[j], x),
        lead_below(s, x) < s.len() ==> !lex_lt(s[lead_below(s, x) as int], x),
    decreases s.len(),
{
    if s.len() > 0 && lex_lt(s[0], x) {
        let t = s.drop_first();
        lemma_lead_below(t, x);
        assert forall|j: int| 0 <= j < lead_below(s, x) implies lex_lt(#[trigger] s[j], x) by {
            if j > 0 {
                assert(s[j] == t[j - 1]);
            }
        }
        if lead_below(s, x) < s.len() {
            assert(s[lead_below(s, x) as int] == t[lead_below(t, x) as int]);
        }
    }
}

proof fn lemma_lead_below_exact(s: Seq<Seq<char>>, x: Seq<char>, i: int)
    requires
        0 <= i <= s.len(),
        forall|j: int| 0 <= j < i ==> lex_lt(#[trigger] s[j], x),
        i == s.len() || !lex_lt(s[i], x),
    ensures
        lead_below(s, x) == i,
    decreases i,
{
    if i > 0 {
        let t = s.drop_first();
        assert forall|j: int| 0 <= j < i - 1 implies lex_lt(#[trigger] t[j], x) by {
            assert(t[j] == s[j + 1]);
        }
        if i < s.len() {
            assert(t[i - 1] == s[i]);
        }
        lemma_lead_below_exact(t, x, i - 1);
        assert(lex_lt(s[0], x));
    }
}

/// `s` with `x` added at its place, unless it already holds `x`.
pub open spec fn sorted_insert(s: Seq<Seq<char>>, x: Seq<char>) -> Seq<Seq<char>> {
    let p = lead_below(s, x) as int;
    if p < s.len() && s[p] == x {
        s
    } else {
        s.take(p).push(x) + s.skip(p)
    }
}

/// Inserting into an ascending list keeps it ascending and adds exactly
/// `x`.
pub proof fn lemma_sorted_insert(s: Seq<Seq<char>>, x: Seq<char>)
    requires
        sorted(s),
    ensures
        sorted(sorted_insert(s, x)),
        forall|y: Seq<char>| #[trigger] sorted_insert(s, x).contains(y) <==> s.contains(y) || y == x,
{
    lemma_lead_below(s, x);
    let p = lead_below(s, x) as int;
    if p < s.len() && s[p] == x {
        assert(s.contains(x));
    } else {
        let n = s.take(p).push(x) + s.skip(p);
        assert(n.len() == s.len() + 1);
        assert forall|k: int| 0 <= k < n.len() implies #[trigger] n[k] == (if k < p {
            s[k]
        } else if k == p {
            x
        } else {
            s[k - 1]
        }) by {}
        assert forall|j: int| p <= j < s.len() implies lex_lt(x, #[trigger] s[j]) by {
            lemma_lex_total(x, s[p]);
            if j > p {
                lemma_lex_transitive(x, s[p], s[j]);
            }
        }
        assert forall|i: int, j: int| 0 <= i < j < n.len() implies lex_lt(#[trigger] n[i], #[trigger] n[j]) by {
            if i < p && j == p {
            } else if i < p && j > p {
                assert(lex_lt(s[i], s[j - 1]));
            } else if i == p {
                assert(lex_lt(x, s[j - 1]));
            } else if j < p {
            } else {
                assert(lex_lt(s[i - 1], s[j - 1]));
            }
        }
        assert forall|y: Seq<char>| #[trigger] n.contains(y) <==> s.contains(y) || y == x by {
            if n.contains(y) {
                let k = choose|k: int| 0 <= k < n.len() && n[k] == y;
                if k < p {
                    assert(s[k] == y);
                } else if k > p {
                    assert(s[k - 1] == y);
                }
            }
            if s.contains(y) {
                let k = choose|k: int| 0 <= k < s.len() && s[k] == y;
                if k < p {
                    assert(n[k] == y);
                } else {
                    assert(n[k + 1] == y);
                }
            }
            if y == x {
                assert(n[p] == x);
            }
        }
    }
}

/// Keeping the elements of an ascending list that satisfy `pred` leaves it
/// ascending.
pub proof fn lemma_filter_sorted(s: Seq<Seq<char>>, pred: spec_fn(Seq<char>) -> bool)
    requires
        sorted(s),
    ensures
        sorted(s.filter(pred)),
    decreases s.len(),
{
    reveal(Seq::filter);
    if s.len() > 0 {
        let d = s.drop_last();
        assert forall|i: int, j: int| 0 <= i < j < d.len() implies lex_lt(#[trigger] d[i], #[trigger] d[j]) by {
            assert(d[i] == s[i] && d[j] == s[j]);
        }
        lemma_filter_sorted(d, pred);
        let sub = d.filter(pred);
        if pred(s.last()) {
            let n = sub.push(s.last());
            assert forall|i: int, j: int| 0 <= i < j < n.len() implies lex_lt(#[trigger] n[i], #[trigger] n[j]) by {
                if j == n.len() - 1 {
                    assert(sub.contains(sub[i]));
                    d.lemma_filter_contains_rev(pred, sub[i]);
                    let k = choose|k: int| 0 <= k < d.len() && d[k] == sub[i];
                    assert(s[k] == d[k]);
                    assert(n[j] == s[s.len() - 1]);
                } else {
                    assert(n[i] == sub[i] && n[j] == sub[j]);
                }
            }
        }
    }
}

/// The texts of a list of strings.
pub open spec fn strs(s: Seq<String>) -> Seq<Seq<char>> {
    s.map_values(|x: String| x@)
}

/// Adds `x` to the ascending list `v` at its place, unless already there.
pub fn insert_sorted(v: &mut Vec<String>, x: &str)
    ensures
        strs(final(v)@) == sorted_insert(strs(old(v)@), x@),
{
    let ghost ss = strs(v@);
    let mut i: usize = 0;
    while i < v.len()
        invariant_except_break
            0 <= i <= v@.len(),
            ss == strs(v@),
            forall|j: int| 0 <= j < i ==> lex_lt(#[trigger] ss[j], x@),
        ensures
            0 <= i <= v@.len(),
            ss == strs(v@),
            forall|j: int| 0 <= j < i ==> lex_lt(#[trigger] ss[j], x@),
            i == v@.len() || !lex_lt(ss[i as int], x@),
        decreases v@.len() - i,
    {
        assert(ss[i as int] == v@[i as int]@);
        if !str_lt(v[i].as_str(), x) {
            break;
        }
        i = i + 1;
    }
    proof {
        lemma_lead_below_exact(ss, x@, i as int);
    }
    if i < v.len() && str_eq(v[i].as_str(), x) {
        assert(ss[i as int] == x@);
        return;
    }
    v.insert(i, x.to_owned());
    assert(strs(v@) =~= ss.take(i as int).push(x@) + ss.skip(i as int));
}

} // verus!

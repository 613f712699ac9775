//! Lexicographic order on strings (the order of `String`'s `Ord`, which is
//! code-point order) and sorted, duplicate-free lists of strings.
use vstd::prelude::*;

use crate::text::chars_of;

verus! {

broadcast use vstd::string::group_string_axioms;

/// `a` sorts strictly before `b`.
pub open spec fn lex_lt(a: Seq<char>, b: Seq<char>) -> bool
    decreases a.len(),
{
    if a.len() == 0 {
        b.len() > 0
    } else if b.len() == 0 {
        false
    } else if a[0] < b[0] {
        true
    } else if a[0] == b[0] {
        lex_lt(a.drop_first(), b.drop_first())
    } else {
        false
    }
}

pub proof fn lemma_lex_irreflexive(a: Seq<char>)
    ensures
        !lex_lt(a, a),
    decreases a.len(),
{
    if a.len() > 0 {
        lemma_lex_irreflexive(a.drop_first());
    }
}

pub proof fn lemma_lex_transitive(a: Seq<char>, b: Seq<char>, c: Seq<char>)
    requires
        lex_lt(a, b),
        lex_lt(b, c),
    ensures
        lex_lt(a, c),
    decreases a.len(),
{
    if a.len() > 0 && b.len() > 0 && c.len() > 0 {
        if a[0] == b[0] && b[0] == c[0] {
            lemma_lex_transitive(a.drop_first(), b.drop_first(), c.drop_first());
        }
    }
}

pub proof fn lemma_lex_total(a: Seq<char>, b: Seq<char>)
    requires
        a != b,
    ensures
        lex_lt(a, b) || lex_lt(b, a),
    decreases a.len(),
{
    if a.len() > 0 && b.len() > 0 {
        if a[0] == b[0] {
            if a.drop_first() == b.drop_first() {
                assert(a =~= seq![a[0]] + a.drop_first());
                assert(b =~= seq![b[0]] + b.drop_first());
            }
            lemma_lex_total(a.drop_first(), b.drop_first());
        } else {
        }
    } else if a.len() == 0 && b.len() == 0 {
        assert(a =~= b);
    }
}

pub proof fn lemma_lex_asymmetric(a: Seq<char>, b: Seq<char>)
    requires
        lex_lt(a, b),
    ensures
        !lex_lt(b, a),
{
    if lex_lt(b, a) {
        lemma_lex_transitive(a, b, a);
        lemma_lex_irreflexive(a);
    }
}

pub fn chars_lt(a: &[char], b: &[char]) -> (r: bool)
    ensures
        r == lex_lt(a@, b@),
{
    let mut i: usize = 0;
    assert(a@.skip(0) =~= a@);
    assert(b@.skip(0) =~= b@);
    while i < a.len() && i < b.len() && a[i] == b[i]
        invariant
            i <= a@.len(),
            i <= b@.len(),
            lex_lt(a@, b@) == lex_lt(a@.skip(i as int), b@.skip(i as int)),
        decreases a.len() - i,
    {
        assert(a@.skip(i as int).drop_first() =~= a@.skip(i + 1));
        assert(b@.skip(i as int).drop_first() =~= b@.skip(i + 1));
        i = i + 1;
    }
    if i == a.len() {
        i < b.len()
    } else if i == b.len() {
        false
    } else {
        a[i] < b[i]
    }
}

pub open spec fn views_of(v: Seq<String>) -> Seq<Seq<char>> {
    v.map_values(|s: String| s@)
}

pub open spec fn strictly_sorted(s: Seq<Seq<char>>) -> bool {
    forall|i: int, j: int| 0 <= i < j < s.len() ==> lex_lt(#[trigger] s[i], #[trigger] s[j])
}

/// The same strings occur in `a` and in `b`, whatever their order and repetitions.
pub open spec fn same_elements(a: Seq<Seq<char>>, b: Seq<Seq<char>>) -> bool {
    &&& forall|i: int| 0 <= i < a.len() ==> b.contains(#[trigger] a[i])
    &&& forall|j: int| 0 <= j < b.len() ==> a.contains(#[trigger] b[j])
}

fn contains_string(v: &Vec<String>, x: &String) -> (r: bool)
    ensures
        r == views_of(v@).contains(x@),
{
    let xs = chars_of(x.as_str());
    let mut i: usize = 0;
    while i < v.len()
        invariant
            i <= v@.len(),
            xs@ == x@,
            forall|k: int| 0 <= k < i ==> v@[k]@ != x@,
        decreases v.len() - i,
    {
        let ys = chars_of(v[i].as_str());
        if crate::text::chars_eq(ys.as_slice(), xs.as_slice()) {
            assert(views_of(v@)[i as int] == x@);
            return true;
        }
        i = i + 1;
    }
    assert forall|k: int| 0 <= k < views_of(v@).len() implies views_of(v@)[k] != x@ by {
        assert(views_of(v@)[k] == v@[k]@);
    }
    false
}

/// Whether two lists hold the same strings (as sets).
pub fn same_string_set(a: &Vec<String>, b: &Vec<String>) -> (r: bool)
    ensures
        r == same_elements(views_of(a@), views_of(b@)),
{
    let mut i: usize = 0;
    while i < a.len()
        invariant
            i <= a@.len(),
            forall|k: int| 0 <= k < i ==> views_of(b@).contains(#[trigger] views_of(a@)[k]),
        decreases a.len() - i,
    {
        if !contains_string(b, &a[i]) {
            assert(!views_of(b@).contains(views_of(a@)[i as int]));
            return false;
        }
        i = i + 1;
    }
    let mut j: usize = 0;
    while j < b.len()
        invariant
            j <= b@.len(),
            forall|k: int| 0 <= k < a@.len() ==> views_of(b@).contains(#[trigger] views_of(a@)[k]),
            forall|k: int| 0 <= k < j ==> views_of(a@).contains(#[trigger] views_of(b@)[k]),
        decreases b.len() - j,
    {
        if !contains_string(a, &b[j]) {
            assert(!views_of(a@).contains(views_of(b@)[j as int]));
            return false;
        }
        j = j + 1;
    }
    true
}

fn insertion_point(r: &Vec<String>, x: &[char]) -> (res: (usize, bool))
    ensures
        res.0 <= r@.len(),
        forall|k: int| 0 <= k < res.0 ==> lex_lt(#[trigger] views_of(r@)[k], x@),
        res.1 ==> res.0 < r@.len() && views_of(r@)[res.0 as int] == x@,
        !res.1 && res.0 < r@.len() ==> !lex_lt(views_of(r@)[res.0 as int], x@) && views_of(
            r@,
        )[res.0 as int] != x@,
{
    let mut p: usize = 0;
    while p < r.len()
        invariant
            p <= r@.len(),
            forall|k: int| 0 <= k < p ==> lex_lt(#[trigger] views_of(r@)[k], x@),
        decreases r.len() - p,
    {
        let ys = chars_of(r[p].as_str());
        assert(views_of(r@)[p as int] == ys@);
        if !chars_lt(ys.as_slice(), x) {
            return (p, crate::text::chars_eq(ys.as_slice(), x));
        }
        p = p + 1;
    }
    (p, false)
}

/// The distinct strings of `v` in ascending order (`sort` then `dedup`).
pub fn sorted_unique(v: &Vec<String>) -> (r: Vec<String>)
    ensures
        strictly_sorted(views_of(r@)),
        same_elements(views_of(r@), views_of(v@)),
{
    let mut r: Vec<String> = Vec::new();
    let mut i: usize = 0;
    while i < v.len()
        invariant
            i <= v@.len(),
            strictly_sorted(views_of(r@)),
            forall|k: int| 0 <= k < r@.len() ==> views_of(v@.take(i as int)).contains(#[trigger] views_of(r@)[k]),
            forall|k: int| 0 <= k < i ==> views_of(r@).contains(#[trigger] views_of(v@)[k]),
        decreases v.len() - i,
    {
        let x = v[i].clone();
        let xs = chars_of(x.as_str());
        let ghost old_r = views_of(r@);
        let (p, dup) = insertion_point(&r, xs.as_slice());
        proof {
            assert(views_of(v@.take(i + 1)) =~= views_of(v@.take(i as int)).push(x@));
        }
        if dup {
            assert(old_r[p as int] == x@);
            assert forall|k: int| 0 <= k < i + 1 implies views_of(r@).contains(#[trigger] views_of(v@)[k]) by {
                if k == i {
                    assert(views_of(r@)[p as int] == views_of(v@)[k]);
                }
            }
            assert forall|k: int| 0 <= k < r@.len() implies views_of(v@.take(i + 1)).contains(#[trigger] views_of(r@)[k]) by {
                assert(views_of(v@.take(i as int)).contains(views_of(r@)[k]));
                let w = choose|w: int| 0 <= w < views_of(v@.take(i as int)).len() && views_of(v@.take(i as int))[w] == views_of(r@)[k];
                assert(views_of(v@.take(i + 1))[w] == views_of(r@)[k]);
            }
        } else {
            proof {
                if p < r@.len() {
                    lemma_lex_total(old_r[p as int], x@);
                }
            }
            r.insert(p, x);
            proof {
                let nr = views_of(r@);
                assert(nr =~= old_r.insert(p as int, x@));
                assert forall|a: int, b: int| 0 <= a < b < nr.len() implies lex_lt(#[trigger] nr[a], #[trigger] nr[b]) by {
                    if b < p {
                    } else if b == p {
                    } else if a < p {
                        if p < old_r.len() {
                            lemma_lex_transitive(nr[a], x@, old_r[p as int]);
                            if b - 1 > p {
                                lemma_lex_transitive(nr[a], old_r[p as int], old_r[b - 1]);
                            }
                        }
                    } else if a == p {
                        if b - 1 > p {
                            lemma_lex_transitive(x@, old_r[p as int], old_r[b - 1]);
                        }
                    } else {
                        assert(nr[a] == old_r[a - 1]);
                        assert(nr[b] == old_r[b - 1]);
                    }
                }
                assert forall|k: int| 0 <= k < i + 1 implies nr.contains(#[trigger] views_of(v@)[k]) by {
                    if k == i {
                        assert(nr[p as int] == views_of(v@)[k]);
                    } else {
                        assert(old_r.contains(views_of(v@)[k]));
                        let w = choose|w: int| 0 <= w < old_r.len() && old_r[w] == views_of(v@)[k];
                        if w < p {
                            assert(nr[w] == old_r[w]);
                        } else {
                            assert(nr[w + 1] == old_r[w]);
                        }
                    }
                }
                assert forall|k: int| 0 <= k < nr.len() implies views_of(v@.take(i + 1)).contains(#[trigger] nr[k]) by {
                    if k == p {
                        assert(views_of(v@.take(i + 1))[i as int] == x@);
                    } else {
                        let kk = if k < p { k } else { k - 1 };
                        assert(nr[k] == old_r[kk]);
                        assert(views_of(v@.take(i as int)).contains(old_r[kk]));
                        let w = choose|w: int| 0 <= w < views_of(v@.take(i as int)).len() && views_of(v@.take(i as int))[w] == old_r[kk];
                        assert(views_of(v@.take(i + 1))[w] == old_r[kk]);
                    }
                }
            }
        }
        i = i + 1;
    }
    assert(v@.take(v@.len() as int) =~= v@);
    r
}

/// Two strictly sorted sequences with the same elements are equal.
pub proof fn lemma_sorted_unique(a: Seq<Seq<char>>, b: Seq<Seq<char>>)
    requires
        strictly_sorted(a),
        strictly_sorted(b),
        same_elements(a, b),
    ensures
        a == b,
    decreases a.len(),
{
    if a.len() == 0 {
        if b.len() > 0 {
            assert(a.contains(b[0]));
        }
        assert(a =~= b);
    } else {
        assert(b.contains(a[0]));
        let j = choose|j: int| 0 <= j < b.len() && b[j] == a[0];
        assert(a.contains(b[0]));
        let i = choose|i: int| 0 <= i < a.len() && a[i] == b[0];
        if j > 0 {
            assert(lex_lt(b[0], b[j]));
            if i > 0 {
                assert(lex_lt(a[0], a[i]));
                lemma_lex_asymmetric(b[0], a[0]);
            } else {
                lemma_lex_irreflexive(b[0]);
            }
        }
        assert(a[0] == b[0]);
        let a1 = a.drop_first();
        let b1 = b.drop_first();
        assert forall|k: int| 0 <= k < a1.len() implies b1.contains(#[trigger] a1[k]) by {
            assert(a1[k] == a[k + 1]);
            assert(b.contains(a[k + 1]));
            let w = choose|w: int| 0 <= w < b.len() && b[w] == a[k + 1];
            assert(lex_lt(a[0], a[k + 1]));
            if w == 0 {
                lemma_lex_irreflexive(a[0]);
            }
            assert(b1[w - 1] == a1[k]);
        }
        assert forall|k: int| 0 <= k < b1.len() implies a1.contains(#[trigger] b1[k]) by {
            assert(b1[k] == b[k + 1]);
            assert(a.contains(b[k + 1]));
            let w = choose|w: int| 0 <= w < a.len() && a[w] == b[k + 1];
            assert(lex_lt(b[0], b[k + 1]));
            if w == 0 {
                lemma_lex_irreflexive(b[0]);
            }
            assert(a1[w - 1] == b1[k]);
        }
        lemma_sorted_unique(a1, b1);
        assert(a =~= seq![a[0]] + a1);
        assert(b =~= seq![b[0]] + b1);
    }
}

/// The distinct elements of `s`, in ascending order.
pub open spec fn sorted_distinct(s: Seq<Seq<char>>) -> Seq<Seq<char>> {
    choose|t: Seq<Seq<char>>| strictly_sorted(t) && same_elements(t, s)
}

/// The exact `sorted_distinct` of a list.
pub fn sorted_distinct_of(v: &Vec<String>) -> (r: Vec<String>)
    ensures
        views_of(r@) == sorted_distinct(views_of(v@)),
{
    let r = sorted_unique(v);
    proof {
        let t = sorted_distinct(views_of(v@));
        assert(strictly_sorted(views_of(r@)) && same_elements(views_of(r@), views_of(v@)));
        assert(strictly_sorted(t) && same_elements(t, views_of(v@)));
        assert(same_elements(views_of(r@), t)) by {
            assert forall|i: int| 0 <= i < views_of(r@).len() implies t.contains(#[trigger] views_of(r@)[i]) by {
                assert(views_of(v@).contains(views_of(r@)[i]));
                let w = choose|w: int| 0 <= w < views_of(v@).len() && views_of(v@)[w] == views_of(r@)[i];
                assert(t.contains(views_of(v@)[w]));
            }
            assert forall|j: int| 0 <= j < t.len() implies views_of(r@).contains(#[trigger] t[j]) by {
                assert(views_of(v@).contains(t[j]));
                let w = choose|w: int| 0 <= w < views_of(v@).len() && views_of(v@)[w] == t[j];
                assert(views_of(r@).contains(views_of(v@)[w]));
            }
        }
        lemma_sorted_unique(views_of(r@), t);
    }
    r
}

} // verus!

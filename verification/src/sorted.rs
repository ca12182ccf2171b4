//! Sets of strings kept as strictly increasing sequences, in the order that
//! `String`'s `Ord` gives (code point by code point, a prefix first).

use vstd::prelude::*;

verus! {

/// `a` comes strictly before `b` in lexicographic order of code points.
pub open spec fn lex_lt(a: Seq<char>, b: Seq<char>) -> bool
    decreases a.len(),
{
    if a.len() == 0 {
        b.len() > 0
    } else if b.len() == 0 {
        false
    } else if a[0] < b[0] {
        true
    } else if a[0] > b[0] {
        false
    } else {
        lex_lt(a.drop_first(), b.drop_first())
    }
}

/// Every element comes strictly before the next.
pub open spec fn strictly_sorted(s: Seq<Seq<char>>) -> bool {
    forall|i: int, j: int| 0 <= i < j < s.len() ==> lex_lt(#[trigger] s[i], #[trigger] s[j])
}

/// The elements of a set in increasing order.
pub open spec fn sorted_elements(set: Set<Seq<char>>) -> Seq<Seq<char>> {
    choose|s: Seq<Seq<char>>| strictly_sorted(s) && s.to_set() == set
}

/// No string comes before itself.
pub proof fn lex_irreflexive(a: Seq<char>)
    ensures
        !lex_lt(a, a),
    decreases a.len(),
{
    if a.len() > 0 {
        lex_irreflexive(a.drop_first());
    }
}

/// The order is transitive.
pub proof fn lex_transitive(a: Seq<char>, b: Seq<char>, c: Seq<char>)
    requires
        lex_lt(a, b),
        lex_lt(b, c),
    ensures
        lex_lt(a, c),
    decreases a.len(),
{
    if a.len() > 0 && b.len() > 0 && c.len() > 0 {
        if a[0] == b[0] && b[0] == c[0] {
            lex_transitive(a.drop_first(), b.drop_first(), c.drop_first());
        }
    }
}

/// Of two different strings, one comes first.
pub proof fn lex_total(a: Seq<char>, b: Seq<char>)
    requires
        a != b,
    ensures
        lex_lt(a, b) || lex_lt(b, a),
    decreases a.len(),
{
    if a.len() > 0 && b.len() > 0 && a[0] == b[0] {
        if a.drop_first() == b.drop_first() {
            assert(a =~= seq![a[0]] + a.drop_first());
            assert(b =~= seq![b[0]] + b.drop_first());
        }
        lex_total(a.drop_first(), b.drop_first());
    } else if a.len() > 0 && b.len() > 0 {
        assert(a[0] != b[0]);
    } else if a.len() == 0 && b.len() == 0 {
        assert(a =~= b);
    }
}

/// No two strings come each before the other.
pub proof fn lex_asymmetric(a: Seq<char>, b: Seq<char>)
    requires
        lex_lt(a, b),
    ensures
        !lex_lt(b, a),
{
    if lex_lt(b, a) {
        lex_transitive(a, b, a);
        lex_irreflexive(a);
    }
}

/// Two increasing sequences with the same elements are equal.
pub proof fn sorted_unique(a: Seq<Seq<char>>, b: Seq<Seq<char>>)
    requires
        strictly_sorted(a),
        strictly_sorted(b),
        a.to_set() == b.to_set(),
    ensures
        a == b,
    decreases a.len(),
{
    if a.len() == 0 {
        if b.len() > 0 {
            assert(b.to_set().contains(b[0]));
        }
        assert(a =~= b);
    } else {
        assert(a.to_set().contains(a[0]));
        assert(b.len() > 0);
        assert(b.to_set().contains(b[0]));
        let ia = choose|i: int| 0 <= i < a.len() && a[i] == b[0];
        let ib = choose|i: int| 0 <= i < b.len() && b[i] == a[0];
        if a[0] != b[0] {
            if ia > 0 {
                assert(lex_lt(a[0], a[ia]));
            }
            if ib > 0 {
                assert(lex_lt(b[0], b[ib]));
            }
            lex_asymmetric(a[0], b[0]);
        }
        let ta = a.drop_first();
        let tb = b.drop_first();
        assert(strictly_sorted(ta)) by {
            assert forall|i: int, j: int| 0 <= i < j < ta.len() implies lex_lt(#[trigger] ta[i], #[trigger] ta[j]) by {
                assert(lex_lt(a[i + 1], a[j + 1]));
            }
        }
        assert(strictly_sorted(tb)) by {
            assert forall|i: int, j: int| 0 <= i < j < tb.len() implies lex_lt(#[trigger] tb[i], #[trigger] tb[j]) by {
                assert(lex_lt(b[i + 1], b[j + 1]));
            }
        }
        assert(ta.to_set() =~= tb.to_set()) by {
            assert forall|x: Seq<char>| ta.to_set().contains(x) implies tb.to_set().contains(x) by {
                let i = choose|i: int| 0 <= i < ta.len() && ta[i] == x;
                assert(a[i + 1] == x);
                assert(lex_lt(a[0], a[i + 1]));
                assert(b.to_set().contains(x));
                let k = choose|k: int| 0 <= k < b.len() && b[k] == x;
                if k == 0 {
                    lex_irreflexive(x);
                }
                assert(tb[k - 1] == x);
            }
            assert forall|x: Seq<char>| tb.to_set().contains(x) implies ta.to_set().contains(x) by {
                let i = choose|i: int| 0 <= i < tb.len() && tb[i] == x;
                assert(b[i + 1] == x);
                assert(lex_lt(b[0], b[i + 1]));
                assert(a.to_set().contains(x));
                let k = choose|k: int| 0 <= k < a.len() && a[k] == x;
                if k == 0 {
                    lex_irreflexive(x);
                }
                assert(ta[k - 1] == x);
            }
        }
        sorted_unique(ta, tb);
        assert(a =~= seq![a[0]] + ta);
        assert(b =~= seq![b[0]] + tb);
    }
}

/// The elements of a set, in increasing order, are the increasing sequence
/// holding them.
pub proof fn sorted_elements_is(s: Seq<Seq<char>>)
    requires
        strictly_sorted(s),
    ensures
        sorted_elements(s.to_set()) == s,
{
    let t = sorted_elements(s.to_set());
    assert(strictly_sorted(t) && t.to_set() == s.to_set());
    sorted_unique(t, s);
}

/// The character values of a list of character vectors.
pub open spec fn views(v: Seq<Vec<char>>) -> Seq<Seq<char>> {
    v.map_values(|x: Vec<char>| x@)
}

/// `a` comes strictly before `b`.
pub fn lex_less(a: &[char], b: &[char]) -> (r: bool)
    ensures
        r == lex_lt(a@, b@),
{
    let mut i: usize = 0;
    proof {
        assert(a@.skip(0) =~= a@);
        assert(b@.skip(0) =~= b@);
    }
    while i < a.len() && i < b.len()
        invariant
            i <= a@.len(),
            i <= b@.len(),
            lex_lt(a@, b@) == lex_lt(a@.skip(i as int), b@.skip(i as int)),
        decreases a@.len() - i,
    {
        if a[i] < b[i] {
            return true;
        }
        if a[i] > b[i] {
            return false;
        }
        proof {
            assert(a@.skip(i as int).drop_first() =~= a@.skip(i + 1));
            assert(b@.skip(i as int).drop_first() =~= b@.skip(i + 1));
        }
        i += 1;
    }
    i == a.len() && i < b.len()
}

fn clone_chars(v: &Vec<char>) -> (r: Vec<char>)
    ensures
        r@ == v@,
{
    let r = v.clone();
    proof {
        assert(r@ =~= v@);
    }
    r
}

proof fn push_contains(s: Seq<Seq<char>>, e: Seq<char>, y: Seq<char>)
    ensures
        s.push(e).contains(y) <==> (s.contains(y) || y == e),
{
    if s.push(e).contains(y) {
        let k = choose|k: int| 0 <= k < s.push(e).len() && s.push(e)[k] == y;
        if k < s.len() {
            assert(s[k] == y);
        }
    }
    if s.contains(y) {
        let k = choose|k: int| 0 <= k < s.len() && s[k] == y;
        assert(s.push(e)[k] == y);
    }
    if y == e {
        assert(s.push(e)[s.len() as int] == y);
    }
}

proof fn sorted_push(s: Seq<Seq<char>>, x: Seq<char>)
    requires
        strictly_sorted(s),
        s.len() > 0 ==> lex_lt(s.last(), x),
    ensures
        strictly_sorted(s.push(x)),
{
    let t = s.push(x);
    assert forall|i: int, j: int| 0 <= i < j < t.len() implies lex_lt(#[trigger] t[i], #[trigger] t[j]) by {
        if j == s.len() {
            if i < s.len() - 1 {
                lex_transitive(s[i], s.last(), x);
            }
        } else {
            assert(t[i] == s[i] && t[j] == s[j]);
        }
    }
}

/// The union of two increasing sequences, increasing.
pub fn merge_union(a: &Vec<Vec<char>>, b: &Vec<Vec<char>>) -> (r: Vec<Vec<char>>)
    requires
        strictly_sorted(views(a@)),
        strictly_sorted(views(b@)),
    ensures
        strictly_sorted(views(r@)),
        forall|x: Seq<char>| views(r@).contains(x) <==> (views(a@).contains(x) || views(b@).contains(x)),
{
    let ghost va = views(a@);
    let ghost vb = views(b@);
    let mut out: Vec<Vec<char>> = Vec::new();
    let mut i: usize = 0;
    let mut j: usize = 0;
    while i < a.len() || j < b.len()
        invariant
            va == views(a@),
            vb == views(b@),
            strictly_sorted(va),
            strictly_sorted(vb),
            i <= a@.len(),
            j <= b@.len(),
            strictly_sorted(views(out@)),
            forall|x: Seq<char>| views(out@).contains(x) <==> (va.take(i as int).contains(x) || vb.take(j as int).contains(x)),
            out@.len() > 0 && i < a@.len() ==> lex_lt(views(out@).last(), va[i as int]),
            out@.len() > 0 && j < b@.len() ==> lex_lt(views(out@).last(), vb[j as int]),
        decreases a@.len() - i + b@.len() - j,
    {
        let ghost old_out = views(out@);
        let take_a: bool;
        let take_b: bool;
        if i < a.len() && j < b.len() {
            if lex_less(a[i].as_slice(), b[j].as_slice()) {
                take_a = true;
                take_b = false;
            } else if lex_less(b[j].as_slice(), a[i].as_slice()) {
                take_a = false;
                take_b = true;
            } else {
                proof {
                    if va[i as int] != vb[j as int] {
                        lex_total(va[i as int], vb[j as int]);
                    }
                }
                take_a = true;
                take_b = true;
            }
        } else if i < a.len() {
            take_a = true;
            take_b = false;
        } else {
            take_a = false;
            take_b = true;
        }
        let ghost x: Seq<char>;
        if take_a {
            let e = clone_chars(&a[i]);
            proof { x = va[i as int]; }
            out.push(e);
        } else {
            let e = clone_chars(&b[j]);
            proof { x = vb[j as int]; }
            out.push(e);
        }
        proof {
            assert(views(out@) =~= old_out.push(x));
            sorted_push(old_out, x);
            let ni: int = if take_a { i + 1 } else { i as int };
            let nj: int = if take_b { j + 1 } else { j as int };
            if take_a {
                assert(va.take(ni) =~= va.take(i as int).push(va[i as int]));
            } else {
                assert(va.take(ni) =~= va.take(i as int));
            }
            if take_b {
                assert(vb.take(nj) =~= vb.take(j as int).push(vb[j as int]));
            } else {
                assert(vb.take(nj) =~= vb.take(j as int));
            }
            assert forall|y: Seq<char>| views(out@).contains(y) <==> (va.take(ni).contains(y) || vb.take(nj).contains(y)) by {
                push_contains(old_out, x, y);
                push_contains(va.take(i as int), va[i as int], y);
                push_contains(vb.take(j as int), vb[j as int], y);
            }
            if ni < va.len() {
                if take_a {
                    assert(lex_lt(va[i as int], va[ni]));
                } else {
                    lex_asymmetric(vb[j as int], va[i as int]);
                    if vb[j as int] == va[i as int] {
                        lex_irreflexive(va[i as int]);
                    } else {
                        lex_total(vb[j as int], va[i as int]);
                    }
                }
            }
            if nj < vb.len() {
                if take_b {
                    assert(lex_lt(vb[j as int], vb[nj]));
                } else {
                    if va[i as int] == vb[j as int] {
                    } else {
                        lex_total(va[i as int], vb[j as int]);
                    }
                }
            }
        }
        if take_a {
            i += 1;
        }
        if take_b {
            j += 1;
        }
    }
    proof {
        assert(va.take(a@.len() as int) =~= va);
        assert(vb.take(b@.len() as int) =~= vb);
    }
    out
}

fn sort_unique_range(v: &Vec<Vec<char>>, lo: usize, hi: usize) -> (r: Vec<Vec<char>>)
    requires
        lo <= hi <= v@.len(),
    ensures
        strictly_sorted(views(r@)),
        forall|x: Seq<char>| views(r@).contains(x) <==> views(v@).subrange(lo as int, hi as int).contains(x),
    decreases hi - lo,
{
    let ghost part = views(v@).subrange(lo as int, hi as int);
    if hi == lo {
        let r: Vec<Vec<char>> = Vec::new();
        proof {
            assert(views(r@) =~= Seq::<Seq<char>>::empty());
            assert(part =~= Seq::<Seq<char>>::empty());
        }
        r
    } else if hi - lo == 1 {
        let mut r: Vec<Vec<char>> = Vec::new();
        r.push(clone_chars(&v[lo]));
        proof {
            assert(views(r@) =~= part);
        }
        r
    } else {
        let mid = lo + (hi - lo) / 2;
        let left = sort_unique_range(v, lo, mid);
        let right = sort_unique_range(v, mid, hi);
        let r = merge_union(&left, &right);
        proof {
            let pl = views(v@).subrange(lo as int, mid as int);
            let pr = views(v@).subrange(mid as int, hi as int);
            assert(part =~= pl + pr);
            assert forall|x: Seq<char>| views(r@).contains(x) <==> part.contains(x) by {
                if part.contains(x) {
                    let k = choose|k: int| 0 <= k < part.len() && part[k] == x;
                    if k < pl.len() {
                        assert(pl[k] == x);
                    } else {
                        assert(pr[k - pl.len()] == x);
                    }
                }
                if pl.contains(x) {
                    let k = choose|k: int| 0 <= k < pl.len() && pl[k] == x;
                    assert(part[k] == x);
                }
                if pr.contains(x) {
                    let k = choose|k: int| 0 <= k < pr.len() && pr[k] == x;
                    assert(part[k + pl.len()] == x);
                }
            }
        }
        r
    }
}

/// The distinct elements of `v` in increasing order (what collecting into a
/// `BTreeSet<String>` and iterating gives).
pub fn sorted_set(v: &Vec<Vec<char>>) -> (r: Vec<Vec<char>>)
    ensures
        views(r@) == sorted_elements(views(v@).to_set()),
        strictly_sorted(views(r@)),
        views(r@).to_set() == views(v@).to_set(),
{
    let r = sort_unique_range(v, 0, v.len());
    proof {
        assert(views(v@).subrange(0, v@.len() as int) =~= views(v@));
        assert(views(r@).to_set() =~= views(v@).to_set());
        sorted_elements_is(views(r@));
    }
    r
}

} // verus!

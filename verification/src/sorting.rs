//! Ordering of the names that capability reports list.
use vstd::prelude::*;

use crate::pipeline::views;

verus! {

broadcast use vstd::seq_lib::group_to_multiset_ensures;

/// Lexicographic order of character sequences, which is how `String`'s `Ord` orders
/// text (UTF-8 byte order and code-point order agree).
pub open spec fn lex_le(a: Seq<char>, b: Seq<char>) -> bool
    decreases a.len(),
{
    if a.len() == 0 {
        true
    } else if b.len() == 0 {
        false
    } else if a[0] != b[0] {
        a[0] < b[0]
    } else {
        lex_le(a.drop_first(), b.drop_first())
    }
}

pub proof fn lemma_lex_total(a: Seq<char>, b: Seq<char>)
    ensures
        lex_le(a, b) || lex_le(b, a),
    decreases a.len(),
{
    if a.len() > 0 && b.len() > 0 && a[0] == b[0] {
        lemma_lex_total(a.drop_first(), b.drop_first());
    }
}

pub proof fn lemma_lex_trans(a: Seq<char>, b: Seq<char>, c: Seq<char>)
    requires
        lex_le(a, b),
        lex_le(b, c),
    ensures
        lex_le(a, c),
    decreases a.len(),
{
    if a.len() > 0 && b.len() > 0 && c.len() > 0 && a[0] == b[0] && b[0] == c[0] {
        lemma_lex_trans(a.drop_first(), b.drop_first(), c.drop_first());
    }
}

pub proof fn lemma_lex_antisym(a: Seq<char>, b: Seq<char>)
    requires
        lex_le(a, b),
        lex_le(b, a),
    ensures
        a == b,
    decreases a.len(),
{
    if a.len() > 0 && b.len() > 0 {
        lemma_lex_antisym(a.drop_first(), b.drop_first());
        assert(a =~= seq![a[0]] + a.drop_first());
        assert(b =~= seq![b[0]] + b.drop_first());
    }
}

/// Whether the texts are in ascending order.
pub open spec fn lex_sorted(s: Seq<Seq<char>>) -> bool {
    forall|i: int, j: int| 0 <= i < j < s.len() ==> lex_le(#[trigger] s[i], #[trigger] s[j])
}

fn lex_le_exec(a: &str, b: &str) -> (r: bool)
    ensures
        r == lex_le(a@, b@),
{
    let va = crate::text::chars_of(a);
    let vb = crate::text::chars_of(b);
    let mut i: usize = 0;
    assert(va@.skip(0) =~= va@);
    assert(vb@.skip(0) =~= vb@);
    while i < va.len() && i < vb.len() && va[i] == vb[i]
        invariant
            0 <= i <= va@.len(),
            i <= vb@.len(),
            lex_le(va@, vb@) == lex_le(va@.skip(i as int), vb@.skip(i as int)),
        decreases va@.len() - i,
    {
        assert(va@.skip(i as int).drop_first() =~= va@.skip(i + 1));
        assert(vb@.skip(i as int).drop_first() =~= vb@.skip(i + 1));
        i = i + 1;
    }
    if i == va.len() {
        true
    } else if i == vb.len() {
        false
    } else {
        assert(va@.skip(i as int)[0] == va@[i as int]);
        assert(vb@.skip(i as int)[0] == vb@[i as int]);
        va[i] < vb[i]
    }
}

/// `v` rearranged into ascending order.
pub fn sort_strings(v: Vec<String>) -> (r: Vec<String>)
    ensures
        lex_sorted(views(r@)),
        views(r@).to_multiset() == views(v@).to_multiset(),
{
    let mut r: Vec<String> = Vec::new();
    let mut k: usize = 0;
    while k < v.len()
        invariant
            0 <= k <= v@.len(),
            lex_sorted(views(r@)),
            views(r@).to_multiset() == views(v@.take(k as int)).to_multiset(),
        decreases v@.len() - k,
    {
        let x = &v[k];
        let mut p: usize = 0;
        while p < r.len() && lex_le_exec(r[p].as_str(), x.as_str())
            invariant
                0 <= p <= r@.len(),
                forall|i: int| 0 <= i < p ==> lex_le(#[trigger] r@[i]@, x@),
            decreases r@.len() - p,
        {
            p = p + 1;
        }
        let ghost before = views(r@);
        r.insert(p, x.clone());
        proof {
            let after = views(r@);
            assert(after =~= before.insert(p as int, x@));
            assert forall|i: int, j: int| 0 <= i < j < after.len() implies lex_le(
                #[trigger] after[i],
                #[trigger] after[j],
            ) by {
                if j < p {
                    assert(after[i] == before[i] && after[j] == before[j]);
                } else if j == p {
                    assert(after[i] == before[i]);
                } else if i == p {
                    assert(after[j] == before[j - 1]);
                    assert(!lex_le(before[p as int], x@));
                    lemma_lex_total(before[p as int], x@);
                    if j - 1 > p {
                        lemma_lex_trans(x@, before[p as int], before[j - 1]);
                    }
                } else if i < p {
                    assert(after[i] == before[i] && after[j] == before[j - 1]);
                } else {
                    assert(after[i] == before[i - 1] && after[j] == before[j - 1]);
                }
            }
            assert(after.remove(p as int) =~= before);
            assert(after.to_multiset().remove(after[p as int]) == before.to_multiset());
            assert(views(v@.take(k + 1)) =~= views(v@.take(k as int)).push(x@));
            assert(after.to_multiset() =~= before.to_multiset().insert(x@));
        }
        k = k + 1;
    }
    assert(v@.take(v@.len() as int) =~= v@);
    r
}

/// Strictly ascending.
pub open spec fn strictly_ascending(s: Seq<i32>) -> bool {
    forall|i: int, j: int| 0 <= i < j < s.len() ==> s[i] < s[j]
}

/// The distinct values of `v`, in ascending order.
pub fn sorted_distinct(v: &Vec<i32>) -> (r: Vec<i32>)
    ensures
        strictly_ascending(r@),
        r@.to_set() == v@.to_set(),
{
    let mut r: Vec<i32> = Vec::new();
    let mut k: usize = 0;
    while k < v.len()
        invariant
            0 <= k <= v@.len(),
            strictly_ascending(r@),
            r@.to_set() == v@.take(k as int).to_set(),
        decreases v@.len() - k,
    {
        let x = v[k];
        let mut p: usize = 0;
        while p < r.len() && r[p] < x
            invariant
                0 <= p <= r@.len(),
                forall|i: int| 0 <= i < p ==> r@[i] < x,
            decreases r@.len() - p,
        {
            p = p + 1;
        }
        let ghost before = r@;
        if p < r.len() && r[p] == x {
        } else {
            r.insert(p, x);
            assert(r@ =~= before.insert(p as int, x));
        }
        proof {
            assert(v@.take(k + 1) =~= v@.take(k as int).push(x));
            assert forall|y: i32| r@.contains(y) <==> v@.take(k + 1).contains(y) by {
                if r@.contains(y) {
                    let i = choose|i: int| 0 <= i < r@.len() && r@[i] == y;
                    if y != x {
                        if i < p {
                            assert(before[i] == y);
                        } else if r@.len() == before.len() {
                            assert(before[i] == y);
                        } else {
                            assert(before[i - 1] == y);
                        }
                        assert(before.contains(y));
                        assert(before.to_set().contains(y));
                        assert(v@.take(k as int).contains(y));
                        let t0 = v@.take(k as int);
                        let m = choose|m: int| 0 <= m < t0.len() && t0[m] == y;
                        assert(v@.take(k + 1)[m] == y);
                    } else {
                        assert(v@.take(k + 1)[k as int] == y);
                    }
                }
                let t = v@.take(k + 1);
                if t.contains(y) {
                    let m = choose|m: int| 0 <= m < t.len() && t[m] == y;
                    if m < k {
                        assert(v@.take(k as int)[m] == y);
                        assert(v@.take(k as int).to_set().contains(y));
                        assert(before.to_set().contains(y));
                        let i = choose|i: int| 0 <= i < before.len() && before[i] == y;
                        if r@.len() == before.len() || i < p {
                            assert(r@[i] == y);
                        } else {
                            assert(r@[i + 1] == y);
                        }
                    } else {
                        assert(r@[p as int] == x);
                    }
                }
            }
            assert(r@.to_set() =~= v@.take(k + 1).to_set());
        }
        k = k + 1;
    }
    assert(v@.take(v@.len() as int) =~= v@);
    r
}

} // verus!

//! The order of texts, and lists of texts in that order.

use crate::text;
use vstd::prelude::*;
use vstd::relations::*;
use vstd::seq_lib::*;

verus! {

/// Whether `a` comes before `b` or equals it: the first character in which they
/// differ decides, and a text comes before what it is the beginning of.
pub open spec fn not_after(a: Seq<char>, b: Seq<char>) -> bool
    decreases a.len(),
{
    if a.len() == 0 {
        true
    } else if b.len() == 0 {
        false
    } else if a.first() == b.first() {
        not_after(a.drop_first(), b.drop_first())
    } else {
        a.first() < b.first()
    }
}

/// The order of texts as a relation.
pub open spec fn text_order() -> spec_fn(Seq<char>, Seq<char>) -> bool {
    |a: Seq<char>, b: Seq<char>| not_after(a, b)
}

proof fn lemma_reflexive(a: Seq<char>)
    ensures
        not_after(a, a),
    decreases a.len(),
{
    if a.len() > 0 {
        lemma_reflexive(a.drop_first());
    }
}

proof fn lemma_antisymmetric(a: Seq<char>, b: Seq<char>)
    requires
        not_after(a, b),
        not_after(b, a),
    ensures
        a == b,
    decreases a.len(),
{
    if a.len() > 0 && b.len() > 0 {
        lemma_antisymmetric(a.drop_first(), b.drop_first());
        assert(a =~= seq![a.first()] + a.drop_first());
        assert(b =~= seq![b.first()] + b.drop_first());
    } else {
        assert(a =~= b);
    }
}

proof fn lemma_transitive(a: Seq<char>, b: Seq<char>, c: Seq<char>)
    requires
        not_after(a, b),
        not_after(b, c),
    ensures
        not_after(a, c),
    decreases a.len(),
{
    if a.len() > 0 && b.len() > 0 && c.len() > 0 {
        if a.first() == b.first() && b.first() == c.first() {
            lemma_transitive(a.drop_first(), b.drop_first(), c.drop_first());
        }
    }
}

proof fn lemma_total(a: Seq<char>, b: Seq<char>)
    ensures
        not_after(a, b) || not_after(b, a),
    decreases a.len(),
{
    if a.len() > 0 && b.len() > 0 && a.first() == b.first() {
        lemma_total(a.drop_first(), b.drop_first());
    }
}

/// The order of texts is a total order.
pub proof fn text_order_is_total()
    ensures
        total_ordering(text_order()),
{
    let r = text_order();
    assert forall|x: Seq<char>| #[trigger] r(x, x) by {
        lemma_reflexive(x);
    }
    assert forall|x: Seq<char>, y: Seq<char>| #[trigger] r(x, y) && #[trigger] r(y, x) implies x
        == y by {
        lemma_antisymmetric(x, y);
    }
    assert forall|x: Seq<char>, y: Seq<char>, z: Seq<char>| #[trigger]
        r(x, y) && #[trigger] r(y, z) implies r(x, z) by {
        lemma_transitive(x, y, z);
    }
    assert forall|x: Seq<char>, y: Seq<char>| #[trigger] r(x, y) || #[trigger] r(y, x) by {
        lemma_total(x, y);
    }
}

/// Whether `a` comes before `b` or equals it.
pub fn is_not_after(a: &str, b: &str) -> (r: bool)
    ensures
        r == not_after(a@, b@),
{
    let x = text::characters(a);
    let y = text::characters(b);
    let mut i: usize = 0;
    assert(a@.skip(0) =~= a@);
    assert(b@.skip(0) =~= b@);
    while i < x.len() && i < y.len() && x[i] == y[i]
        invariant
            x@ == a@,
            y@ == b@,
            0 <= i <= x.len(),
            i <= y.len(),
            not_after(a@, b@) == not_after(a@.skip(i as int), b@.skip(i as int)),
        decreases x.len() - i,
    {
        assert(a@.skip(i as int).drop_first() =~= a@.skip(i + 1));
        assert(b@.skip(i as int).drop_first() =~= b@.skip(i + 1));
        i += 1;
    }
    if i == x.len() {
        true
    } else if i == y.len() {
        false
    } else {
        assert(a@.skip(i as int).first() == x[i as int]);
        assert(b@.skip(i as int).first() == y[i as int]);
        x[i] < y[i]
    }
}

/// The place at which `item` goes into a sorted list: after everything that is
/// not after it.
fn place_for(list: &Vec<String>, item: &str) -> (k: usize)
    requires
        sorted_by(list.deep_view(), text_order()),
    ensures
        k <= list.len(),
        forall|i: int| 0 <= i < k ==> #[trigger] not_after(list.deep_view()[i], item@),
        forall|i: int| k <= i < list.len() ==> #[trigger] not_after(item@, list.deep_view()[i]),
{
    let ghost all = list.deep_view();
    let mut k: usize = 0;
    while k < list.len() && is_not_after(list[k].as_str(), item)
        invariant
            0 <= k <= list.len(),
            all == list.deep_view(),
            forall|i: int| 0 <= i < k ==> #[trigger] not_after(all[i], item@),
        decreases list.len() - k,
    {
        assert(all[k as int] == list[k as int]@);
        k += 1;
    }
    proof {
        assert forall|i: int| k <= i < list.len() implies #[trigger] not_after(item@, all[i]) by {
            assert(all[k as int] == list[k as int]@);
            lemma_total(item@, all[k as int]);
            if i > k {
                assert((text_order())(all[k as int], all[i]));
                lemma_transitive(item@, all[k as int], all[i]);
            }
        }
    }
    k
}

/// Sorts a list of texts.
pub fn sort(list: &Vec<String>) -> (r: Vec<String>)
    ensures
        r.deep_view() == list.deep_view().sort_by(text_order()),
{
    let ghost all = list.deep_view();
    let mut r: Vec<String> = Vec::new();
    let mut n: usize = 0;
    assert(r.deep_view() =~= all.take(0));
    while n < list.len()
        invariant
            0 <= n <= list.len(),
            all == list.deep_view(),
            sorted_by(r.deep_view(), text_order()),
            r.deep_view().to_multiset() == all.take(n as int).to_multiset(),
        decreases list.len() - n,
    {
        let item = list[n].clone();
        let k = place_for(&r, item.as_str());
        let ghost before = r.deep_view();
        r.insert(k, item);
        proof {
            let after = r.deep_view();
            assert(after =~= before.insert(k as int, item@));
            assert forall|i: int, j: int| 0 <= i < j < after.len() implies #[trigger] (
            text_order())(after[i], after[j]) by {
                let i0 = if i < k { i } else { i - 1 };
                let j0 = if j < k { j } else { j - 1 };
                if i == k {
                    assert(not_after(item@, before[j0]));
                } else if j == k {
                    assert(not_after(before[i0], item@));
                } else {
                    assert((text_order())(before[i0], before[j0]));
                }
            }
            assert(all.take(n + 1) =~= all.take(n as int).push(item@));
            to_multiset_insert(before, k as int, item@);
            to_multiset_build(all.take(n as int), item@);
        }
        n += 1;
    }
    proof {
        assert(all.take(list.len() as int) =~= all);
        text_order_is_total();
        all.lemma_sort_by_ensures(text_order());
        lemma_sorted_unique(r.deep_view(), all.sort_by(text_order()), text_order());
    }
    r
}

} // verus!

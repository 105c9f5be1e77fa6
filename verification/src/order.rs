//! The order of texts, and lists sorted by it.
use vstd::prelude::*;
use vstd::string::*;

use crate::text::{chars_of, str_eq, texts};

verus! {

/// Whether the text `a` comes before `b` or equals it: the first character in
/// which they differ decides, and a text comes before its extensions.
pub open spec fn text_le(a: Seq<char>, b: Seq<char>) -> bool
    decreases a.len(),
{
    if a.len() == 0 {
        true
    } else if b.len() == 0 {
        false
    } else if a[0] == b[0] {
        text_le(a.drop_first(), b.drop_first())
    } else {
        a[0] < b[0]
    }
}

pub proof fn lemma_text_le_reflexive(a: Seq<char>)
    ensures
        text_le(a, a),
    decreases a.len(),
{
    if a.len() > 0 {
        lemma_text_le_reflexive(a.drop_first());
    }
}

pub proof fn lemma_text_le_total(a: Seq<char>, b: Seq<char>)
    ensures
        text_le(a, b) || text_le(b, a),
    decreases a.len(),
{
    if a.len() > 0 && b.len() > 0 && a[0] == b[0] {
        lemma_text_le_total(a.drop_first(), b.drop_first());
    }
}

pub proof fn lemma_text_le_transitive(a: Seq<char>, b: Seq<char>, c: Seq<char>)
    requires
        text_le(a, b),
        text_le(b, c),
    ensures
        text_le(a, c),
    decreases a.len(),
{
    if a.len() > 0 && b.len() > 0 && c.len() > 0 && a[0] == b[0] && b[0] == c[0] {
        lemma_text_le_transitive(a.drop_first(), b.drop_first(), c.drop_first());
    }
}

pub proof fn lemma_text_le_antisymmetric(a: Seq<char>, b: Seq<char>)
    requires
        text_le(a, b),
        text_le(b, a),
    ensures
        a == b,
    decreases a.len(),
{
    if a.len() > 0 && b.len() > 0 {
        lemma_text_le_antisymmetric(a.drop_first(), b.drop_first());
        assert(a =~= seq![a[0]] + a.drop_first());
        assert(b =~= seq![b[0]] + b.drop_first());
    } else {
        assert(a =~= b);
    }
}

/// Tells whether one text comes before another or equals it.
pub fn is_text_le(a: &Vec<char>, b: &Vec<char>) -> (r: bool)
    ensures
        r == text_le(a@, b@),
{
    let mut i: usize = 0;
    assert(a@.skip(0) =~= a@);
    assert(b@.skip(0) =~= b@);
    while i < a.len() && i < b.len()
        invariant
            i <= a@.len(),
            i <= b@.len(),
            text_le(a@, b@) == text_le(a@.skip(i as int), b@.skip(i as int)),
        decreases a.len() - i,
    {
        if a[i] != b[i] {
            return a[i] < b[i];
        }
        assert(a@.skip(i as int).drop_first() =~= a@.skip(i + 1));
        assert(b@.skip(i as int).drop_first() =~= b@.skip(i + 1));
        i += 1;
    }
    i == a.len()
}

/// The position `k` put into an order of positions, behind all whose key is
/// not greater.
pub open spec fn placed(order: Seq<int>, keys: Seq<Seq<char>>, k: int) -> Seq<int>
    decreases order.len(),
{
    if order.len() == 0 {
        seq![k]
    } else if text_le(keys[order.last()], keys[k]) {
        order.push(k)
    } else {
        placed(order.drop_last(), keys, k).push(order.last())
    }
}

/// The positions of a list, in the order in which their keys are sorted.
/// Positions with equal keys keep their order.
pub open spec fn order_of(keys: Seq<Seq<char>>) -> Seq<int>
    decreases keys.len(),
{
    if keys.len() == 0 {
        seq![]
    } else {
        placed(order_of(keys.drop_last()), keys, keys.len() - 1)
    }
}

/// Whether an order of positions is ascending by its keys.
pub open spec fn ascending(order: Seq<int>, keys: Seq<Seq<char>>) -> bool {
    forall|i: int, j: int|
        0 <= i < j < order.len() ==> #[trigger] text_le(keys[order[i]], keys[order[j]])
}

/// Whether all positions of an order lie in a list of this length.
pub open spec fn within(order: Seq<int>, len: int) -> bool {
    forall|i: int| 0 <= i < order.len() ==> 0 <= #[trigger] order[i] < len
}

proof fn lemma_placed_at(order: Seq<int>, keys: Seq<Seq<char>>, k: int, p: int)
    requires
        0 <= p <= order.len(),
        forall|i: int| 0 <= i < p ==> text_le(keys[#[trigger] order[i]], keys[k]),
        forall|i: int| p <= i < order.len() ==> !text_le(keys[#[trigger] order[i]], keys[k]),
    ensures
        placed(order, keys, k) == order.take(p).push(k) + order.skip(p),
    decreases order.len(),
{
    if order.len() == p {
        assert(placed(order, keys, k) =~= order.take(p).push(k) + order.skip(p));
    } else {
        let init = order.drop_last();
        assert forall|i: int| 0 <= i < p implies text_le(keys[#[trigger] init[i]], keys[k]) by {
            assert(init[i] == order[i]);
        }
        assert forall|i: int| p <= i < init.len() implies !text_le(
            keys[#[trigger] init[i]],
            keys[k],
        ) by {
            assert(init[i] == order[i]);
        }
        lemma_placed_at(init, keys, k, p);
        assert(!text_le(keys[order.last()], keys[k]));
        assert(init.take(p) =~= order.take(p));
        assert(placed(order, keys, k) =~= order.take(p).push(k) + order.skip(p));
    }
}

/// Where `k` belongs in an ascending order.
spec fn place_of(order: Seq<int>, keys: Seq<Seq<char>>, k: int) -> int
    decreases order.len(),
{
    if order.len() == 0 || text_le(keys[order.last()], keys[k]) {
        order.len() as int
    } else {
        place_of(order.drop_last(), keys, k)
    }
}

proof fn lemma_place_of(order: Seq<int>, keys: Seq<Seq<char>>, k: int)
    requires
        ascending(order, keys),
    ensures
        0 <= place_of(order, keys, k) <= order.len(),
        forall|i: int|
            0 <= i < place_of(order, keys, k) ==> text_le(keys[#[trigger] order[i]], keys[k]),
        forall|i: int|
            place_of(order, keys, k) <= i < order.len() ==> !text_le(
                keys[#[trigger] order[i]],
                keys[k],
            ),
    decreases order.len(),
{
    if order.len() > 0 {
        if text_le(keys[order.last()], keys[k]) {
            assert forall|i: int| 0 <= i < order.len() implies text_le(
                keys[#[trigger] order[i]],
                keys[k],
            ) by {
                if i < order.len() - 1 {
                    assert(text_le(keys[order[i]], keys[order[order.len() - 1]]));
                    lemma_text_le_transitive(keys[order[i]], keys[order.last()], keys[k]);
                }
            }
        } else {
            let init = order.drop_last();
            assert forall|i: int, j: int| 0 <= i < j < init.len() implies #[trigger] text_le(
                keys[init[i]],
                keys[init[j]],
            ) by {
                assert(text_le(keys[order[i]], keys[order[j]]));
            }
            lemma_place_of(init, keys, k);
            assert forall|i: int| 0 <= i < place_of(order, keys, k) implies text_le(
                keys[#[trigger] order[i]],
                keys[k],
            ) by {
                assert(init[i] == order[i]);
            }
            assert forall|i: int| place_of(order, keys, k) <= i < order.len() implies !text_le(
                keys[#[trigger] order[i]],
                keys[k],
            ) by {
                if i < order.len() - 1 {
                    assert(init[i] == order[i]);
                }
            }
        }
    }
}

proof fn lemma_placed(order: Seq<int>, keys: Seq<Seq<char>>, k: int)
    requires
        ascending(order, keys),
        within(order, k),
        0 <= k < keys.len(),
    ensures
        ascending(placed(order, keys, k), keys),
        within(placed(order, keys, k), k + 1),
        placed(order, keys, k).len() == order.len() + 1,
        placed(order, keys, k).to_multiset() =~= order.to_multiset().insert(k),
{
    broadcast use vstd::seq_lib::group_to_multiset_ensures;

    let p = place_of(order, keys, k);
    lemma_place_of(order, keys, k);
    lemma_placed_at(order, keys, k, p);
    let r = order.take(p).push(k) + order.skip(p);
    assert(placed(order, keys, k) == r);
    assert forall|i: int, j: int| 0 <= i < j < r.len() implies #[trigger] text_le(
        keys[r[i]],
        keys[r[j]],
    ) by {
        if j < p {
            assert(text_le(keys[order[i]], keys[order[j]]));
        } else if j == p {
            assert(text_le(keys[order[i]], keys[k]));
        } else if i < p {
            assert(text_le(keys[order[i]], keys[order[j - 1]]));
        } else if i == p {
            lemma_text_le_total(keys[k], keys[order[j - 1]]);
        } else {
            assert(text_le(keys[order[i - 1]], keys[order[j - 1]]));
        }
    }
    assert(within(r, k + 1)) by {
        assert forall|i: int| 0 <= i < r.len() implies 0 <= #[trigger] r[i] < k + 1 by {
            if i < p {
                assert(r[i] == order[i]);
            } else if i > p {
                assert(r[i] == order[i - 1]);
            }
        }
    }
    assert(r =~= order.insert(p, k));
    vstd::seq_lib::to_multiset_insert(order, p, k);
}

/// The order of positions holds each position once, and ascends by the keys.
pub proof fn lemma_order_of(keys: Seq<Seq<char>>)
    ensures
        order_of(keys).len() == keys.len(),
        within(order_of(keys), keys.len() as int),
        ascending(order_of(keys), keys),
        order_of(keys).to_multiset() =~= Seq::new(keys.len(), |i: int| i).to_multiset(),
    decreases keys.len(),
{
    broadcast use vstd::seq_lib::group_to_multiset_ensures;

    if keys.len() > 0 {
        let init = keys.drop_last();
        let n = keys.len() - 1;
        lemma_order_of(init);
        let order = order_of(init);
        assert(ascending(order, keys)) by {
            assert forall|i: int, j: int| 0 <= i < j < order.len() implies #[trigger] text_le(
                keys[order[i]],
                keys[order[j]],
            ) by {
                assert(text_le(init[order[i]], init[order[j]]));
            }
        }
        lemma_placed(order, keys, n);
        let ids = Seq::new(init.len(), |i: int| i);
        assert(Seq::new(keys.len(), |i: int| i) =~= ids.push(n));
    } else {
        assert(order_of(keys) =~= Seq::new(keys.len(), |i: int| i));
    }
}

/// The order in which the positions of a list of keys are sorted.
pub fn sort_order(keys: &Vec<String>) -> (r: Vec<usize>)
    ensures
        r@.map_values(|i: usize| i as int) == order_of(texts(keys@)),
        r@.len() == keys@.len(),
        forall|i: int| 0 <= i < r@.len() ==> (#[trigger] r@[i]) < keys@.len(),
{
    let mut split: Vec<Vec<char>> = Vec::new();
    let mut order: Vec<usize> = Vec::new();
    let mut k: usize = 0;
    let ghost all = texts(keys@);
    while k < keys.len()
        invariant
            k <= keys@.len(),
            all == texts(keys@),
            split@.len() == k,
            forall|i: int| 0 <= i < k ==> (#[trigger] split@[i])@ == all[i],
            order@.map_values(|i: usize| i as int) == order_of(all.take(k as int)),
        decreases keys.len() - k,
    {
        split.push(chars_of(keys[k].as_str()));
        let ghost ids = order@.map_values(|i: usize| i as int);
        let ghost part = all.take(k + 1);
        proof {
            assert(part.drop_last() =~= all.take(k as int));
            lemma_order_of(all.take(k as int));
            assert(ascending(ids, part)) by {
                assert forall|i: int, j: int| 0 <= i < j < ids.len() implies #[trigger] text_le(
                    part[ids[i]],
                    part[ids[j]],
                ) by {
                    assert(text_le(all.take(k as int)[ids[i]], all.take(k as int)[ids[j]]));
                }
            }
            lemma_place_of(ids, part, k as int);
        }
        let ghost p = place_of(ids, part, k as int);
        let mut low: usize = 0;
        let mut high: usize = order.len();
        while low < high
            invariant
                0 <= low <= p <= high <= order@.len(),
                k < keys@.len(),
                split@.len() == k + 1,
                part.len() == k + 1,
                forall|i: int| 0 <= i <= k ==> (#[trigger] split@[i])@ == part[i],
                ids == order@.map_values(|i: usize| i as int),
                within(ids, k as int),
                forall|i: int| 0 <= i < p ==> text_le(part[#[trigger] ids[i]], part[k as int]),
                forall|i: int|
                    p <= i < ids.len() ==> !text_le(part[#[trigger] ids[i]], part[k as int]),
            decreases high - low,
        {
            let mid = low + (high - low) / 2;
            let at = order[mid];
            assert(ids[mid as int] == at as int);
            if is_text_le(&split[at], &split[k]) {
                low = mid + 1;
            } else {
                high = mid;
            }
        }
        proof {
            lemma_placed_at(ids, part, k as int, p);
        }
        order.insert(low, k);
        assert(order@.map_values(|i: usize| i as int) =~= ids.take(p).push(k as int) + ids.skip(p));
        k += 1;
    }
    assert(all.take(keys@.len() as int) =~= all);
    proof {
        lemma_order_of(all);
        let ids = order@.map_values(|i: usize| i as int);
        assert forall|i: int| 0 <= i < order@.len() implies (#[trigger] order@[i])
            < keys@.len() by {
            assert(ids[i] == order@[i] as int);
            assert(0 <= ids[i] < all.len());
        }
    }
    order
}

/// A list of texts in ascending order.
pub open spec fn sorted_texts(s: Seq<Seq<char>>) -> Seq<Seq<char>> {
    order_of(s).map_values(|i: int| s[i])
}

/// Sorts a list of strings.
pub fn sort_texts(v: &Vec<String>) -> (r: Vec<String>)
    ensures
        texts(r@) == sorted_texts(texts(v@)),
        r@.len() == v@.len(),
{
    let order = sort_order(v);
    let mut r: Vec<String> = Vec::new();
    let mut i: usize = 0;
    let ghost ids = order@.map_values(|i: usize| i as int);
    while i < order.len()
        invariant
            i <= order@.len(),
            order@.len() == v@.len(),
            forall|j: int| 0 <= j < order@.len() ==> (#[trigger] order@[j]) < v@.len(),
            ids == order@.map_values(|i: usize| i as int),
            r@.len() == i,
            forall|j: int| 0 <= j < i ==> (#[trigger] r@[j])@ == texts(v@)[ids[j]],
        decreases order.len() - i,
    {
        let at = order[i];
        assert(ids[i as int] == at as int);
        r.push(v[at].clone());
        i += 1;
    }
    assert(texts(r@) =~= sorted_texts(texts(v@)));
    r
}

/// A list without the entries that equal the one before them.
pub open spec fn deduplicated(s: Seq<Seq<char>>) -> Seq<Seq<char>>
    decreases s.len(),
{
    if s.len() <= 1 {
        s
    } else if s[s.len() - 2] == s.last() {
        deduplicated(s.drop_last())
    } else {
        deduplicated(s.drop_last()).push(s.last())
    }
}

/// Drops the entries that equal the one before them.
pub fn dedup_texts(v: &Vec<String>) -> (r: Vec<String>)
    ensures
        texts(r@) == deduplicated(texts(v@)),
{
    let mut r: Vec<String> = Vec::new();
    let mut i: usize = 0;
    let ghost all = texts(v@);
    while i < v.len()
        invariant
            i <= v@.len(),
            all == texts(v@),
            texts(r@) == deduplicated(all.take(i as int)),
        decreases v.len() - i,
    {
        let ghost before = r@;
        let ghost part = all.take(i + 1);
        assert(part.drop_last() =~= all.take(i as int));
        if i == 0 || !str_eq(v[i - 1].as_str(), v[i].as_str()) {
            let s = v[i].clone();
            r.push(s);
            assert(texts(r@) =~= texts(before).push(s@));
            if i == 0 {
                assert(texts(r@) =~= part);
            }
        }
        i += 1;
    }
    assert(all.take(v@.len() as int) =~= all);
    r
}

/// Sorting keeps the texts: each occurs as often as before, and the result
/// ascends.
pub proof fn law_sorting_keeps_the_texts(s: Seq<Seq<char>>)
    ensures
        sorted_texts(s).to_multiset() =~= s.to_multiset(),
        forall|i: int, j: int|
            0 <= i < j < s.len() ==> #[trigger] text_le(sorted_texts(s)[i], sorted_texts(s)[j]),
{
    lemma_order_of(s);
    let order = order_of(s);
    let ids = Seq::new(s.len(), |i: int| i);
    lemma_mapped_multiset(order, ids, s);
    assert(ids.map_values(|i: int| s[i]) =~= s);
    assert forall|i: int, j: int| 0 <= i < j < s.len() implies #[trigger] text_le(
        sorted_texts(s)[i],
        sorted_texts(s)[j],
    ) by {
        assert(text_le(s[order[i]], s[order[j]]));
    }
}

/// Reordered positions stand for the same texts.
proof fn lemma_mapped_multiset(a: Seq<int>, b: Seq<int>, s: Seq<Seq<char>>)
    requires
        a.to_multiset() =~= b.to_multiset(),
    ensures
        a.map_values(|i: int| s[i]).to_multiset() =~= b.map_values(|i: int| s[i]).to_multiset(),
    decreases a.len(),
{
    broadcast use vstd::seq_lib::group_to_multiset_ensures;
    broadcast use vstd::multiset::group_multiset_axioms;

    let f = |i: int| s[i];
    if a.len() == 0 {
        assert(a.to_multiset().len() == 0);
        assert(b.len() == 0);
        assert(a.map_values(f) =~= b.map_values(f));
    } else {
        let x = a.last();
        assert(a.contains(x));
        assert(a.to_multiset().count(x) > 0);
        assert(b.to_multiset().count(x) > 0);
        assert(b.contains(x));
        let p = choose|p: int| 0 <= p < b.len() && b[p] == x;
        let rest = b.remove(p);
        let init = a.drop_last();
        assert(init.push(x) =~= a);
        assert(rest.insert(p, x) =~= b);
        vstd::seq_lib::to_multiset_insert(rest, p, x);
        assert(a.to_multiset() =~= init.to_multiset().insert(x));
        assert(init.to_multiset() =~= a.to_multiset().remove(x));
        assert(rest.to_multiset() =~= b.to_multiset().remove(x));
        lemma_mapped_multiset(init, rest, s);
        assert(a.map_values(f) =~= init.map_values(f).push(f(x)));
        assert(b.map_values(f) =~= rest.map_values(f).insert(p, f(x)));
        vstd::seq_lib::to_multiset_insert(rest.map_values(f), p, f(x));
    }
}

} // verus!

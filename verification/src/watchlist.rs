//! The watchlist: exchange-prefixed symbols kept sorted. Adding a symbol
//! already present, or removing one that is absent, changes nothing.

use vstd::prelude::*;
use vstd::relations::{sorted_by, total_ordering};

use crate::text::{
    chars_less, chars_of, lemma_text_lt_transitive, lemma_text_trichotomy, same_text, text_le,
    text_lt, texts,
};

verus! {

broadcast use vstd::seq_lib::group_to_multiset_ensures;

/// The order of `String`'s `Ord`: code-point lexicographic, non-strict.
pub open spec fn text_order() -> spec_fn(Seq<char>, Seq<char>) -> bool {
    |a: Seq<char>, b: Seq<char>| text_le(a, b)
}

/// [`text_order`] is a total order.
pub proof fn lemma_text_order_total()
    ensures
        total_ordering(text_order()),
{
    let r = text_order();
    assert forall|x: Seq<char>, y: Seq<char>| #[trigger] r(x, y) && #[trigger] r(y, x) implies x
        == y by {
        lemma_text_trichotomy(x, y);
    }
    assert forall|x: Seq<char>, y: Seq<char>, z: Seq<char>| #[trigger] r(x, y) && #[trigger] r(
        y,
        z,
    ) implies r(x, z) by {
        if text_lt(x, y) && text_lt(y, z) {
            lemma_text_lt_transitive(x, y, z);
        }
    }
    assert forall|x: Seq<char>, y: Seq<char>| #[trigger] r(x, y) || #[trigger] r(y, x) by {
        lemma_text_trichotomy(x, y);
    }
}

/// Sort strings in `String` order (the order of `slice::sort`).
pub fn sort_texts(v: &Vec<String>) -> (r: Vec<String>)
    ensures
        texts(r@) == texts(v@).sort_by(text_order()),
{
    let mut r: Vec<String> = Vec::new();
    let mut i: usize = 0;
    while i < v.len()
        invariant
            i <= v@.len(),
            sorted_by(texts(r@), text_order()),
            texts(r@).to_multiset() == texts(v@).take(i as int).to_multiset(),
        decreases v@.len() - i,
    {
        let s = v[i].clone();
        let sc = chars_of(s.as_str());
        let mut p: usize = 0;
        loop
            invariant
                p <= r@.len(),
                sc@ == s@,
                forall|k: int| 0 <= k < p ==> text_le(#[trigger] texts(r@)[k], s@),
            ensures
                p <= r@.len(),
                forall|k: int| 0 <= k < p ==> text_le(#[trigger] texts(r@)[k], s@),
                p < r@.len() ==> text_lt(s@, texts(r@)[p as int]),
            decreases r@.len() - p,
        {
            if p == r.len() {
                break;
            }
            let other = chars_of(r[p].as_str());
            if chars_less(&sc, &other) {
                break;
            }
            proof {
                lemma_text_trichotomy(s@, texts(r@)[p as int]);
            }
            p = p + 1;
        }
        let ghost old_t = texts(r@);
        r.insert(p, s);
        proof {
            let t = texts(r@);
            assert(t =~= old_t.insert(p as int, s@));
            lemma_text_order_total();
            assert forall|a: int, b: int| 0 <= a < b < t.len() implies #[trigger] text_order()(
                t[a],
                t[b],
            ) by {
                if b < p {
                    assert(t[a] == old_t[a] && t[b] == old_t[b]);
                } else if b == p {
                    assert(t[a] == old_t[a]);
                } else if a < p {
                    assert(t[a] == old_t[a] && t[b] == old_t[b - 1]);
                    if p < b - 1 {
                        assert(text_order()(old_t[p as int], old_t[b - 1]));
                    }
                    assert(text_le(old_t[p as int], old_t[b - 1]));
                    assert(text_lt(s@, old_t[p as int]));
                    crate::text::lemma_text_le_transitive(s@, old_t[p as int], old_t[b - 1]);
                    assert(text_le(s@, old_t[b - 1]));
                } else if a == p {
                    assert(t[b] == old_t[b - 1]);
                    if p < b - 1 {
                        assert(text_order()(old_t[p as int], old_t[b - 1]));
                    }
                    assert(text_le(old_t[p as int], old_t[b - 1]));
                    crate::text::lemma_text_le_transitive(s@, old_t[p as int], old_t[b - 1]);
                } else {
                    assert(t[a] == old_t[a - 1] && t[b] == old_t[b - 1]);
                }
            }
            assert(texts(v@).take(i + 1) =~= texts(v@).take(i as int).push(s@));
            vstd::seq_lib::to_multiset_insert(old_t, p as int, s@);
        }
        i = i + 1;
    }
    proof {
        assert(texts(v@).take(i as int) =~= texts(v@));
        lemma_text_order_total();
        texts(v@).lemma_sort_by_ensures(text_order());
        vstd::seq_lib::lemma_sorted_unique(texts(r@), texts(v@).sort_by(text_order()), text_order());
    }
    r
}

/// The watchlist after adding `symbol`: `None` (unchanged) when it is
/// already there, otherwise the list with the symbol, sorted.
pub fn watchlist_add(list: &Vec<String>, symbol: &str) -> (r: Option<Vec<String>>)
    ensures
        texts(list@).contains(symbol@) <==> r is None,
        r matches Some(l) ==> texts(l@) == texts(list@).push(symbol@).sort_by(text_order()),
{
    let mut i: usize = 0;
    while i < list.len()
        invariant
            i <= list@.len(),
            forall|k: int| 0 <= k < i ==> texts(list@)[k] != symbol@,
        decreases list@.len() - i,
    {
        if same_text(list[i].as_str(), symbol) {
            proof {
                assert(texts(list@)[i as int] == symbol@);
            }
            return None;
        }
        i = i + 1;
    }
    let mut grown: Vec<String> = list.clone();
    grown.push(crate::text::owned(symbol));
    proof {
        assert(texts(grown@) =~= texts(list@).push(symbol@));
    }
    Some(sort_texts(&grown))
}

/// The list without `symbol`.
pub open spec fn without(list: Seq<Seq<char>>, symbol: Seq<char>) -> Seq<Seq<char>> {
    list.filter(other_than(symbol))
}

/// The texts other than `symbol`.
pub open spec fn other_than(symbol: Seq<char>) -> spec_fn(Seq<char>) -> bool {
    |t: Seq<char>| t != symbol
}

/// The watchlist after removing `symbol`: `None` (unchanged) when it is not
/// there, otherwise the list without it, order kept.
pub fn watchlist_remove(list: &Vec<String>, symbol: &str) -> (r: Option<Vec<String>>)
    ensures
        !texts(list@).contains(symbol@) <==> r is None,
        r matches Some(l) ==> texts(l@) == without(texts(list@), symbol@),
{
    let mut kept: Vec<String> = Vec::new();
    let mut found = false;
    let mut i: usize = 0;
    while i < list.len()
        invariant
            i <= list@.len(),
            texts(kept@) == without(texts(list@).take(i as int), symbol@),
            found <==> texts(list@).take(i as int).contains(symbol@),
        decreases list@.len() - i,
    {
        let ghost pre = texts(list@).take(i as int);
        let ghost post = texts(list@).take(i + 1);
        proof {
            assert(post.drop_last() =~= pre);
            assert(post.last() == list@[i as int]@);
            reveal_with_fuel(Seq::filter, 1);
        }
        if same_text(list[i].as_str(), symbol) {
            found = true;
            proof {
                assert(post[i as int] == symbol@);
            }
        } else {
            kept.push(list[i].clone());
            proof {
                assert(texts(kept@) =~= without(pre, symbol@).push(list@[i as int]@));
                if post.contains(symbol@) {
                    let k = choose|k: int| 0 <= k < post.len() && post[k] == symbol@;
                    assert(k < i);
                    assert(pre[k] == symbol@);
                }
            }
        }
        proof {
            if pre.contains(symbol@) {
                let k = choose|k: int| 0 <= k < pre.len() && pre[k] == symbol@;
                assert(post[k] == symbol@);
            }
        }
        i = i + 1;
    }
    proof {
        assert(texts(list@).take(i as int) =~= texts(list@));
    }
    if found {
        Some(kept)
    } else {
        None
    }
}

/// Adding a symbol yields a sorted list that holds the old symbols and the
/// new one, so adding it again changes nothing.
pub proof fn lemma_add_sorted_and_present(list: Seq<Seq<char>>, symbol: Seq<char>)
    ensures
        sorted_by(list.push(symbol).sort_by(text_order()), text_order()),
        list.push(symbol).sort_by(text_order()).to_multiset() == list.to_multiset().insert(symbol),
        list.push(symbol).sort_by(text_order()).contains(symbol),
{
    lemma_text_order_total();
    let grown = list.push(symbol);
    grown.lemma_sort_by_ensures(text_order());
    assert(grown.to_multiset() =~= list.to_multiset().insert(symbol));
    assert(grown.sort_by(text_order()).to_multiset().count(symbol) > 0);
}

/// Removing a symbol leaves no trace of it and keeps every other symbol.
pub proof fn lemma_remove_drops_only_symbol(list: Seq<Seq<char>>, symbol: Seq<char>, other: Seq<char>)
    ensures
        !without(list, symbol).contains(symbol),
        other != symbol ==> (without(list, symbol).contains(other) <==> list.contains(other)),
{
    let pred = other_than(symbol);
    let w = list.filter(pred);
    if w.contains(symbol) {
        let i = choose|i: int| 0 <= i < w.len() && w[i] == symbol;
        list.lemma_filter_pred(pred, i);
    }
    if other != symbol {
        if list.contains(other) {
            let i = choose|i: int| 0 <= i < list.len() && list[i] == other;
            list.lemma_filter_contains(pred, i);
        }
        if w.contains(other) {
            list.lemma_filter_contains_rev(pred, other);
        }
    }
}

/// Dropping the elements equal to `symbol` keeps a sorted list sorted.
proof fn lemma_without_sorted(list: Seq<Seq<char>>, symbol: Seq<char>)
    requires
        sorted_by(list, text_order()),
    ensures
        sorted_by(without(list, symbol), text_order()),
    decreases list.len(),
{
    reveal_with_fuel(Seq::filter, 1);
    if list.len() > 0 {
        let init = list.drop_last();
        assert forall|a: int, b: int| 0 <= a < b < init.len() implies #[trigger] text_order()(
            init[a],
            init[b],
        ) by {
            assert(text_order()(list[a], list[b]));
        }
        lemma_without_sorted(init, symbol);
        let w = without(init, symbol);
        if list.last() != symbol {
            assert forall|a: int| 0 <= a < w.len() implies #[trigger] text_order()(
                w[a],
                list.last(),
            ) by {
                assert(w.contains(w[a]));
                init.lemma_filter_contains_rev(other_than(symbol), w[a]);
                let k = choose|k: int| 0 <= k < init.len() && init[k] == w[a];
                assert(text_order()(list[k], list[list.len() - 1]));
            }
            let ww = w.push(list.last());
            assert forall|a: int, b: int| 0 <= a < b < ww.len() implies #[trigger] text_order()(
                ww[a],
                ww[b],
            ) by {
                if b == ww.len() - 1 {
                    assert(text_order()(w[a], list.last()));
                } else {
                    assert(text_order()(w[a], w[b]));
                }
            }
        }
    }
}

/// How often `x` occurs once the elements equal to `symbol` are dropped.
proof fn lemma_without_count(list: Seq<Seq<char>>, symbol: Seq<char>, x: Seq<char>)
    ensures
        without(list, symbol).to_multiset().count(x) == (if x == symbol {
            0
        } else {
            list.to_multiset().count(x)
        }),
    decreases list.len(),
{
    reveal_with_fuel(Seq::filter, 1);
    if list.len() == 0 {
        assert(without(list, symbol) =~= Seq::<Seq<char>>::empty());
    } else {
        let init = list.drop_last();
        lemma_without_count(init, symbol, x);
        assert(list =~= init.push(list.last()));
        vstd::seq_lib::to_multiset_build(init, list.last());
        if list.last() != symbol {
            vstd::seq_lib::to_multiset_build(without(init, symbol), list.last());
        }
    }
}

/// Removing a symbol that was just added to a sorted list without it gives
/// back the list.
pub proof fn lemma_remove_undoes_add(list: Seq<Seq<char>>, symbol: Seq<char>)
    requires
        sorted_by(list, text_order()),
        !list.contains(symbol),
    ensures
        without(list.push(symbol).sort_by(text_order()), symbol) == list,
{
    let added = list.push(symbol).sort_by(text_order());
    lemma_add_sorted_and_present(list, symbol);
    lemma_without_sorted(added, symbol);
    let w = without(added, symbol);
    assert forall|x: Seq<char>| w.to_multiset().count(x) == list.to_multiset().count(x) by {
        lemma_without_count(added, symbol, x);
        if x == symbol {
            assert(list.to_multiset().count(x) == 0);
        }
    }
    assert(w.to_multiset() =~= list.to_multiset());
    lemma_text_order_total();
    vstd::seq_lib::lemma_sorted_unique(w, list, text_order());
}
} // verus!

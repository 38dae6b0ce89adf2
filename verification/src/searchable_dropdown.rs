//! The searchable stock picker: the text shown for the selected stock, the
//! popup's open / closed state, and the list of stocks matching the typed
//! filter (by symbol prefix or name substring, case-insensitively), ordered
//! by symbol.

use vstd::prelude::*;

use crate::text::{
    chars_less, chars_of, contains_chars, has_infix, has_prefix, occurs_at, lemma_text_lt_transitive,
    lemma_text_trichotomy, lemma_trim_push_space, is_space, owned, same_text, starts_with_chars, text_lt,
    trim, trim_start, trimmed,
};
use vstd::string::{StrSliceExecFns, StringExecFns};

verus! {

/// One entry of the stock list the picker searches.
#[derive(Debug, Clone, PartialEq)]
pub struct PickerStock {
    /// Stock symbol.
    pub symbol: String,
    /// Stock name.
    pub name: String,
    /// Exchange code, when known.
    pub exchange: Option<String>,
}

/// The text of an optional string, empty when absent.
pub open spec fn opt_text(o: Option<String>) -> Seq<char> {
    match o {
        Some(s) => s@,
        None => Seq::empty(),
    }
}

/// The text shown for a selection: the non-empty parts among exchange,
/// symbol and name, joined by `" | "` (the symbol is always shown).
pub open spec fn format_display_spec(exchange: Seq<char>, symbol: Seq<char>, name: Seq<char>) -> Seq<
    char,
> {
    if name.len() == 0 {
        if exchange.len() == 0 {
            symbol
        } else {
            exchange + " | "@ + symbol
        }
    } else if exchange.len() == 0 {
        symbol + " | "@ + name
    } else {
        exchange + " | "@ + symbol + " | "@ + name
    }
}

/// Format a selection for display.
pub fn format_display(exchange: &str, symbol: &str, name: &str) -> (r: String)
    ensures
        r@ == format_display_spec(exchange@, symbol@, name@),
{
    if name.unicode_len() == 0 {
        if exchange.unicode_len() == 0 {
            owned(symbol)
        } else {
            let mut s = owned(exchange);
            s.append(" | ");
            s.append(symbol);
            s
        }
    } else if exchange.unicode_len() == 0 {
        let mut s = owned(symbol);
        s.append(" | ");
        s.append(name);
        s
    } else {
        let mut s = owned(exchange);
        s.append(" | ");
        s.append(symbol);
        s.append(" | ");
        s.append(name);
        s
    }
}

/// The lower-case form of a text (`str::to_lowercase`, full Unicode case
/// mapping).
pub uninterp spec fn lowercase_of(s: Seq<char>) -> Seq<char>;

/// `str::to_lowercase`.
#[verifier::external_body]
fn to_lowercase(s: &str) -> (r: String)
    ensures
        r@ == lowercase_of(s@),
{
    s.to_lowercase()
}

/// The lower-cased, trimmed filter text that stocks are matched against.
pub open spec fn picker_query(filter_text: Seq<char>) -> Seq<char> {
    lowercase_of(trim(filter_text))
}

/// A stock matches a (lower-cased) query when the query is empty, its
/// lower-cased symbol starts with the query, or its lower-cased name
/// contains it.
pub open spec fn stock_matches(s: PickerStock, query: Seq<char>) -> bool {
    ||| query.len() == 0
    ||| has_prefix(lowercase_of(s.symbol@), query)
    ||| has_infix(lowercase_of(s.name@), query)
}

/// Entry `i` sorts before entry `j`: by symbol, ties by list position.
pub open spec fn sorts_before(stocks: Seq<PickerStock>, i: int, j: int) -> bool {
    ||| text_lt(stocks[i].symbol@, stocks[j].symbol@)
    ||| (stocks[i].symbol@ == stocks[j].symbol@ && i < j)
}

/// `r` lists, in the order of [`sorts_before`], exactly the positions of the
/// stocks that match `query`, each once.
pub open spec fn is_listing(stocks: Seq<PickerStock>, query: Seq<char>, r: Seq<usize>) -> bool {
    &&& forall|k: int| 0 <= k < r.len() ==> r[k] < stocks.len() && stock_matches(stocks[r[k] as int], query)
    &&& forall|i: int| 0 <= i < stocks.len() && stock_matches(#[trigger] stocks[i], query) ==> r.contains(i as usize)
    &&& forall|a: int, b: int| 0 <= a < b < r.len() ==> sorts_before(stocks, r[a] as int, r[b] as int)
}

/// [`sorts_before`] is transitive.
pub proof fn lemma_sorts_before_transitive(stocks: Seq<PickerStock>, i: int, j: int, k: int)
    requires
        sorts_before(stocks, i, j),
        sorts_before(stocks, j, k),
    ensures
        sorts_before(stocks, i, k),
{
    let (a, b, c) = (stocks[i].symbol@, stocks[j].symbol@, stocks[k].symbol@);
    if text_lt(a, b) && text_lt(b, c) {
        lemma_text_lt_transitive(a, b, c);
    }
}

/// [`sorts_before`] is irreflexive and asymmetric.
pub proof fn lemma_sorts_before_strict(stocks: Seq<PickerStock>, i: int, j: int)
    ensures
        !sorts_before(stocks, i, i),
        sorts_before(stocks, i, j) ==> !sorts_before(stocks, j, i),
{
    lemma_text_trichotomy(stocks[i].symbol@, stocks[j].symbol@);
    lemma_text_trichotomy(stocks[i].symbol@, stocks[i].symbol@);
}

/// `r` lists positions of `stocks` in strictly increasing [`sorts_before`]
/// order.
pub open spec fn strictly_sorted(stocks: Seq<PickerStock>, r: Seq<usize>) -> bool {
    &&& forall|k: int| 0 <= k < r.len() ==> r[k] < stocks.len()
    &&& forall|a: int, b: int| 0 <= a < b < r.len() ==> sorts_before(stocks, r[a] as int, r[b] as int)
}

/// Two strictly sorted sequences holding the same positions are equal.
proof fn lemma_sorted_same_members(stocks: Seq<PickerStock>, t1: Seq<usize>, t2: Seq<usize>)
    requires
        strictly_sorted(stocks, t1),
        strictly_sorted(stocks, t2),
        forall|v: usize| t1.contains(v) <==> t2.contains(v),
    ensures
        t1 == t2,
    decreases t1.len() + t2.len(),
{
    if t1.len() == 0 {
        if t2.len() > 0 {
            assert(t2.contains(t2[0]));
        }
        assert(t1 =~= t2);
    } else if t2.len() == 0 {
        assert(t1.contains(t1[0]));
    } else {
        let (p, q) = (t1[0], t2[0]);
        assert(t1.contains(p));
        assert(t2.contains(q));
        if p != q {
            let kp = choose|k: int| 0 <= k < t2.len() && t2[k] == p;
            let kq = choose|k: int| 0 <= k < t1.len() && t1[k] == q;
            assert(kp > 0);
            assert(kq > 0);
            assert(sorts_before(stocks, q as int, p as int));
            assert(sorts_before(stocks, p as int, q as int));
            lemma_sorts_before_strict(stocks, p as int, q as int);
        }
        let (u1, u2) = (t1.drop_first(), t2.drop_first());
        assert forall|v: usize| u1.contains(v) implies u2.contains(v) by {
            let k = choose|k: int| 0 <= k < u1.len() && u1[k] == v;
            assert(sorts_before(stocks, t1[0] as int, t1[k + 1] as int));
            lemma_sorts_before_strict(stocks, p as int, p as int);
            assert(t1.contains(v));
            let j = choose|j: int| 0 <= j < t2.len() && t2[j] == v;
            assert(j != 0);
            assert(u2[j - 1] == v);
        }
        assert forall|v: usize| u2.contains(v) implies u1.contains(v) by {
            let k = choose|k: int| 0 <= k < u2.len() && u2[k] == v;
            assert(sorts_before(stocks, t2[0] as int, t2[k + 1] as int));
            lemma_sorts_before_strict(stocks, q as int, q as int);
            assert(t2.contains(v));
            let j = choose|j: int| 0 <= j < t1.len() && t1[j] == v;
            assert(j != 0);
            assert(u1[j - 1] == v);
        }
        assert forall|a: int, b: int| 0 <= a < b < u1.len() implies sorts_before(
            stocks,
            u1[a] as int,
            u1[b] as int,
        ) by {
            assert(sorts_before(stocks, t1[a + 1] as int, t1[b + 1] as int));
        }
        assert forall|a: int, b: int| 0 <= a < b < u2.len() implies sorts_before(
            stocks,
            u2[a] as int,
            u2[b] as int,
        ) by {
            assert(sorts_before(stocks, t2[a + 1] as int, t2[b + 1] as int));
        }
        lemma_sorted_same_members(stocks, u1, u2);
        assert(t1 =~= seq![p] + u1);
        assert(t2 =~= seq![p] + u2);
    }
}

/// The listing of a query is unique: two listings of the same stocks and
/// query are equal.
pub proof fn lemma_listing_unique(
    stocks: Seq<PickerStock>,
    query: Seq<char>,
    r1: Seq<usize>,
    r2: Seq<usize>,
)
    requires
        is_listing(stocks, query, r1),
        is_listing(stocks, query, r2),
    ensures
        r1 == r2,
{
    assert forall|v: usize| r1.contains(v) implies r2.contains(v) by {
        let k = choose|k: int| 0 <= k < r1.len() && r1[k] == v;
        assert(stock_matches(stocks[v as int], query));
    }
    assert forall|v: usize| r2.contains(v) implies r1.contains(v) by {
        let k = choose|k: int| 0 <= k < r2.len() && r2[k] == v;
        assert(stock_matches(stocks[v as int], query));
    }
    lemma_sorted_same_members(stocks, r1, r2);
}

/// Whether a stock matches a (lower-cased) query.
fn matches_query(stock: &PickerStock, query: &Vec<char>) -> (r: bool)
    ensures
        r == stock_matches(*stock, query@),
{
    if query.len() == 0 {
        return true;
    }
    let sym = to_lowercase(stock.symbol.as_str());
    let sym_chars = chars_of(sym.as_str());
    if starts_with_chars(&sym_chars, query) {
        return true;
    }
    let name = to_lowercase(stock.name.as_str());
    let name_chars = chars_of(name.as_str());
    contains_chars(&name_chars, query)
}

/// Insert position for a new last entry `j` into a sorted listing: after
/// every entry whose symbol is not above `j`'s.
fn insert_position(stocks: &[PickerStock], r: &Vec<usize>, j: usize) -> (p: usize)
    requires
        j < stocks@.len(),
        strictly_sorted(stocks@, r@),
        forall|k: int| 0 <= k < r@.len() ==> r@[k] < j,
    ensures
        p <= r@.len(),
        forall|k: int| 0 <= k < p ==> sorts_before(stocks@, #[trigger] r@[k] as int, j as int),
        forall|k: int| p <= k < r@.len() ==> sorts_before(stocks@, j as int, #[trigger] r@[k] as int),
{
    let sym = chars_of(stocks[j].symbol.as_str());
    let mut p = r.len();
    loop
        invariant
            p <= r@.len(),
            sym@ == stocks@[j as int].symbol@,
            j < stocks@.len(),
            strictly_sorted(stocks@, r@),
            forall|k: int| 0 <= k < r@.len() ==> r@[k] < j,
            forall|k: int| p <= k < r@.len() ==> text_lt(stocks@[j as int].symbol@, stocks@[#[trigger] r@[k] as int].symbol@),
        ensures
            p <= r@.len(),
            forall|k: int| p <= k < r@.len() ==> text_lt(stocks@[j as int].symbol@, stocks@[#[trigger] r@[k] as int].symbol@),
            p > 0 ==> !text_lt(stocks@[j as int].symbol@, stocks@[r@[p - 1] as int].symbol@),
        decreases p,
    {
        if p == 0 {
            break;
        }
        let other = chars_of(stocks[r[p - 1]].symbol.as_str());
        if !chars_less(&sym, &other) {
            break;
        }
        p = p - 1;
    }
    proof {
        if p > 0 {
            let last = r@[p - 1] as int;
            lemma_text_trichotomy(stocks@[j as int].symbol@, stocks@[last].symbol@);
            assert(sorts_before(stocks@, last, j as int));
            assert forall|k: int| 0 <= k < p implies sorts_before(stocks@, #[trigger] r@[k] as int, j as int) by {
                if k < p - 1 {
                    lemma_sorts_before_transitive(stocks@, r@[k] as int, last, j as int);
                }
            }
        }
    }
    p
}

/// The stocks matching a (lower-cased) query, by position, ordered by
/// symbol (ties keep list order).
pub fn listing(stocks: &[PickerStock], query: &Vec<char>) -> (r: Vec<usize>)
    ensures
        is_listing(stocks@, query@, r@),
{
    let mut r: Vec<usize> = Vec::new();
    let mut i: usize = 0;
    while i < stocks.len()
        invariant
            i <= stocks@.len(),
            strictly_sorted(stocks@, r@),
            forall|k: int| 0 <= k < r@.len() ==> r@[k] < i && stock_matches(stocks@[r@[k] as int], query@),
            forall|j: int| 0 <= j < i && stock_matches(#[trigger] stocks@[j], query@) ==> r@.contains(j as usize),
        decreases stocks@.len() - i,
    {
        if matches_query(&stocks[i], query) {
            let p = insert_position(stocks, &r, i);
            let ghost old_r = r@;
            r.insert(p, i);
            proof {
                assert(r@ =~= old_r.subrange(0, p as int) + seq![i] + old_r.subrange(p as int, old_r.len() as int));
                assert forall|a: int, b: int| 0 <= a < b < r@.len() implies sorts_before(
                    stocks@,
                    r@[a] as int,
                    r@[b] as int,
                ) by {
                    if b < p {
                        assert(r@[a] == old_r[a] && r@[b] == old_r[b]);
                    } else if b == p {
                        assert(r@[a] == old_r[a]);
                    } else if a < p {
                        assert(r@[a] == old_r[a] && r@[b] == old_r[b - 1]);
                        lemma_sorts_before_transitive(stocks@, old_r[a] as int, i as int, old_r[b - 1] as int);
                    } else if a == p {
                        assert(r@[b] == old_r[b - 1]);
                    } else {
                        assert(r@[a] == old_r[a - 1] && r@[b] == old_r[b - 1]);
                    }
                }
                assert forall|j: int| 0 <= j < i + 1 && stock_matches(#[trigger] stocks@[j], query@) implies r@.contains(j as usize) by {
                    if j == i {
                        assert(r@[p as int] == i);
                    } else {
                        let k = choose|k: int| 0 <= k < old_r.len() && old_r[k] == j as usize;
                        if k < p {
                            assert(r@[k] == j as usize);
                        } else {
                            assert(r@[k + 1] == j as usize);
                        }
                    }
                }
            }
        }
        i = i + 1;
    }
    r
}

/// `r` lists, in the order of [`sorts_before`], exactly the positions of the
/// stocks that are kept (`keep`) and match `query`, each once.
pub open spec fn is_listing_where(
    stocks: Seq<PickerStock>,
    query: Seq<char>,
    keep: Seq<bool>,
    r: Seq<usize>,
) -> bool {
    &&& forall|k: int|
        0 <= k < r.len() ==> r[k] < stocks.len() && keep[r[k] as int] && stock_matches(
            stocks[r[k] as int],
            query,
        )
    &&& forall|i: int|
        0 <= i < stocks.len() && keep[i] && stock_matches(#[trigger] stocks[i], query) ==> r.contains(
            i as usize,
        )
    &&& forall|a: int, b: int| 0 <= a < b < r.len() ==> sorts_before(stocks, r[a] as int, r[b] as int)
}

/// What a stock must satisfy to be listed for `query`, spelled out: the
/// query is empty, or the lower-cased symbol begins with it, or the query
/// occurs at some position of the lower-cased name.
proof fn lemma_stock_matches_spelled_out(s: PickerStock, query: Seq<char>)
    ensures
        stock_matches(s, query) <==> {
            let sym = lowercase_of(s.symbol@);
            let name = lowercase_of(s.name@);
            ||| query.len() == 0
            ||| query.len() <= sym.len() && sym.subrange(0, query.len() as int) == query
            ||| exists|k: int|
                0 <= k && k + query.len() <= name.len() && #[trigger] name.subrange(
                    k,
                    k + query.len(),
                ) == query
        },
{
    let name = lowercase_of(s.name@);
    if has_infix(name, query) {
        let k = choose|k: int| occurs_at(name, query, k);
        assert(name.subrange(k, k + query.len()) == query);
    }
    if exists|k: int|
        0 <= k && k + query.len() <= name.len() && #[trigger] name.subrange(k, k + query.len())
            == query {
        let k = choose|k: int|
            0 <= k && k + query.len() <= name.len() && #[trigger] name.subrange(k, k + query.len())
                == query;
        assert(occurs_at(name, query, k));
    }
}

/// The picker's listing for a query holds exactly the stocks whose
/// lower-cased symbol begins with the query or whose lower-cased name
/// contains it anywhere (every stock when the query is empty), ordered by
/// symbol with ties in list order.
pub proof fn lemma_listing_spelled_out(stocks: Seq<PickerStock>, query: Seq<char>, r: Seq<usize>)
    requires
        is_listing(stocks, query, r),
    ensures
        forall|u: usize|
            u < stocks.len() ==> (r.contains(u) <==> {
                let sym = lowercase_of(#[trigger] stocks[u as int].symbol@);
                let name = lowercase_of(stocks[u as int].name@);
                ||| query.len() == 0
                ||| query.len() <= sym.len() && sym.subrange(0, query.len() as int) == query
                ||| exists|k: int|
                    0 <= k && k + query.len() <= name.len() && #[trigger] name.subrange(
                        k,
                        k + query.len(),
                    ) == query
            }),
        forall|k: int| 0 <= k < r.len() ==> r[k] < stocks.len(),
        forall|a: int, b: int|
            0 <= a < b < r.len() ==> text_lt(stocks[r[a] as int].symbol@, stocks[r[b] as int].symbol@)
                || (stocks[r[a] as int].symbol@ == stocks[r[b] as int].symbol@ && r[a] < r[b]),
{
    assert forall|u: usize| u < stocks.len() implies (r.contains(u) <==> {
        let sym = lowercase_of(#[trigger] stocks[u as int].symbol@);
        let name = lowercase_of(stocks[u as int].name@);
        ||| query.len() == 0
        ||| query.len() <= sym.len() && sym.subrange(0, query.len() as int) == query
        ||| exists|k: int|
            0 <= k && k + query.len() <= name.len() && #[trigger] name.subrange(k, k + query.len())
                == query
    }) by {
        lemma_stock_matches_spelled_out(stocks[u as int], query);
        if r.contains(u) {
            let k = choose|k: int| 0 <= k < r.len() && r[k] == u;
            assert(stock_matches(stocks[r[k] as int], query));
        }
    }
    assert forall|a: int, b: int| 0 <= a < b < r.len() implies text_lt(
        stocks[r[a] as int].symbol@,
        stocks[r[b] as int].symbol@,
    ) || (stocks[r[a] as int].symbol@ == stocks[r[b] as int].symbol@ && r[a] < r[b]) by {
        assert(sorts_before(stocks, r[a] as int, r[b] as int));
    }
}

/// The exchange-restricted listing holds exactly the stocks on the chosen
/// exchange whose lower-cased symbol begins with the query or whose
/// lower-cased name contains it anywhere (every one of them when the query
/// is empty), ordered by symbol with ties in list order.
pub proof fn lemma_listing_where_spelled_out(
    stocks: Seq<PickerStock>,
    query: Seq<char>,
    keep: Seq<bool>,
    r: Seq<usize>,
)
    requires
        keep.len() == stocks.len(),
        is_listing_where(stocks, query, keep, r),
    ensures
        forall|u: usize|
            u < stocks.len() ==> (r.contains(u) <==> keep[u as int] && {
                let sym = lowercase_of(#[trigger] stocks[u as int].symbol@);
                let name = lowercase_of(stocks[u as int].name@);
                ||| query.len() == 0
                ||| query.len() <= sym.len() && sym.subrange(0, query.len() as int) == query
                ||| exists|k: int|
                    0 <= k && k + query.len() <= name.len() && #[trigger] name.subrange(
                        k,
                        k + query.len(),
                    ) == query
            }),
        forall|k: int| 0 <= k < r.len() ==> r[k] < stocks.len(),
        forall|a: int, b: int|
            0 <= a < b < r.len() ==> text_lt(stocks[r[a] as int].symbol@, stocks[r[b] as int].symbol@)
                || (stocks[r[a] as int].symbol@ == stocks[r[b] as int].symbol@ && r[a] < r[b]),
{
    assert forall|u: usize| u < stocks.len() implies (r.contains(u) <==> keep[u as int] && {
        let sym = lowercase_of(#[trigger] stocks[u as int].symbol@);
        let name = lowercase_of(stocks[u as int].name@);
        ||| query.len() == 0
        ||| query.len() <= sym.len() && sym.subrange(0, query.len() as int) == query
        ||| exists|k: int|
            0 <= k && k + query.len() <= name.len() && #[trigger] name.subrange(k, k + query.len())
                == query
    }) by {
        lemma_stock_matches_spelled_out(stocks[u as int], query);
        if r.contains(u) {
            let k = choose|k: int| 0 <= k < r.len() && r[k] == u;
            assert(stock_matches(stocks[r[k] as int], query));
        }
    }
    assert forall|a: int, b: int| 0 <= a < b < r.len() implies text_lt(
        stocks[r[a] as int].symbol@,
        stocks[r[b] as int].symbol@,
    ) || (stocks[r[a] as int].symbol@ == stocks[r[b] as int].symbol@ && r[a] < r[b]) by {
        assert(sorts_before(stocks, r[a] as int, r[b] as int));
    }
}

/// Whitespace around the typed text does not change what is searched for:
/// a space added before or after the query gives the same search.
pub proof fn lemma_query_ignores_surrounding_space(q: Seq<char>, c: char)
    requires
        is_space(c),
    ensures
        picker_query(q.push(c)) == picker_query(q),
        picker_query(seq![c] + q) == picker_query(q),
{
    lemma_trim_push_space(q, c);
    assert((seq![c] + q)[0] == c);
    assert((seq![c] + q).drop_first() =~= q);
    assert(trim_start(seq![c] + q) == trim_start(q));
}

/// With every stock kept, a listing restricted by exchange is the picker's
/// listing.
pub proof fn lemma_listing_where_all_kept(
    stocks: Seq<PickerStock>,
    query: Seq<char>,
    keep: Seq<bool>,
    r: Seq<usize>,
)
    requires
        keep.len() == stocks.len(),
        forall|i: int| 0 <= i < keep.len() ==> #[trigger] keep[i],
    ensures
        is_listing_where(stocks, query, keep, r) <==> is_listing(stocks, query, r),
{
}

/// The stocks of the chosen exchange (`exchange_match[i]` tells whether
/// stock `i` is on it) whose symbol starts with, or whose name contains, the
/// trimmed query case-insensitively, by position, ordered by symbol (ties
/// keep list order).
pub fn filter_stocks(stocks: &[PickerStock], query: &str, exchange_match: &Vec<bool>) -> (r: Vec<
    usize,
>)
    requires
        exchange_match@.len() == stocks@.len(),
    ensures
        is_listing_where(stocks@, picker_query(query@), exchange_match@, r@),
{
    let lower = to_lowercase(trimmed(query));
    let q = chars_of(lower.as_str());
    let all = listing(stocks, &q);
    let ghost keep = exchange_match@;
    let n: usize = stocks.len();
    let mut out: Vec<usize> = Vec::new();
    let mut k: usize = 0;
    while k < all.len()
        invariant
            k <= all@.len(),
            keep == exchange_match@,
            keep.len() == stocks@.len(),
            n == stocks@.len(),
            is_listing(stocks@, q@, all@),
            forall|a: int|
                0 <= a < out@.len() ==> exists|j: int| 0 <= j < k && #[trigger] out@[a] == all@[j],
            forall|a: int|
                0 <= a < out@.len() ==> out@[a] < stocks@.len() && keep[out@[a] as int] && stock_matches(
                    stocks@[out@[a] as int],
                    q@,
                ),
            forall|a: int, b: int|
                0 <= a < b < out@.len() ==> sorts_before(stocks@, out@[a] as int, out@[b] as int),
            forall|j: int| 0 <= j < k && keep[#[trigger] all@[j] as int] ==> out@.contains(all@[j]),
        decreases all@.len() - k,
    {
        let i = all[k];
        if exchange_match[i] {
            let ghost old_out = out@;
            proof {
                assert forall|a: int| 0 <= a < old_out.len() implies sorts_before(
                    stocks@,
                    old_out[a] as int,
                    i as int,
                ) by {
                    let j = choose|j: int| 0 <= j < k && old_out[a] == all@[j];
                }
            }
            out.push(i);
            proof {
                assert forall|a: int| 0 <= a < out@.len() implies exists|j: int|
                    0 <= j < k + 1 && #[trigger] out@[a] == all@[j] by {
                    if a == old_out.len() {
                        assert(out@[a] == all@[k as int]);
                    } else {
                        let j = choose|j: int| 0 <= j < k && old_out[a] == all@[j];
                        assert(out@[a] == all@[j]);
                    }
                }
                assert forall|j: int| 0 <= j < k + 1 && keep[#[trigger] all@[j] as int] implies out@.contains(
                    all@[j],
                ) by {
                    if j == k {
                        assert(out@[old_out.len() as int] == all@[j]);
                    } else {
                        let c = choose|c: int| 0 <= c < old_out.len() && old_out[c] == all@[j];
                        assert(out@[c] == all@[j]);
                    }
                }
            }
        }
        k = k + 1;
    }
    proof {
        assert forall|i: int|
            0 <= i < stocks@.len() && keep[i] && stock_matches(#[trigger] stocks@[i], q@) implies out@.contains(
            i as usize,
        ) by {
            assert(all@.contains(i as usize));
            let j = choose|j: int| 0 <= j < all@.len() && all@[j] == i as usize;
            assert(all@[j] as int == i);
        }
    }
    out
}

/// The stock picker's state.
pub struct StockPicker {
    /// Text typed into the search box.
    pub filter_text: String,
    /// Selected stock's symbol.
    pub selected_symbol: String,
    /// Selected stock's name (empty when unknown).
    pub selected_name: String,
    /// Selected stock's exchange (empty when unknown).
    pub selected_exchange: String,
    /// Whether the result popup is open.
    pub popup_open: bool,
    /// Positions of the stocks matching `last_filter_text`, in display order.
    pub cached_indices: Vec<usize>,
    /// The filter text the cached positions were computed for.
    pub last_filter_text: String,
}

/// `i` is the first position of a stock with the given symbol.
pub open spec fn is_first_with_symbol(stocks: Seq<PickerStock>, symbol: Seq<char>, i: int) -> bool {
    &&& 0 <= i < stocks.len()
    &&& stocks[i].symbol@ == symbol
    &&& forall|k: int| 0 <= k < i ==> stocks[k].symbol@ != symbol
}

/// The selection's name and exchange for a default symbol: those of the
/// first stock with that symbol, empty when there is none (or it has no
/// exchange).
pub open spec fn default_selection(stocks: Seq<PickerStock>, symbol: Seq<char>) -> (Seq<char>, Seq<char>) {
    if exists|i: int| is_first_with_symbol(stocks, symbol, i) {
        let i = choose|i: int| is_first_with_symbol(stocks, symbol, i);
        (stocks[i].name@, opt_text(stocks[i].exchange))
    } else {
        (Seq::empty(), Seq::empty())
    }
}

/// Whether `c` is an ASCII digit.
pub open spec fn is_ascii_digit(c: char) -> bool {
    '0' <= c <= '9'
}

/// A symbol with an explicit exchange prefix `exchange` and the rest `code`
/// names a stock or a board: a stock is an exchange and six digits, a board
/// is `BK` and four digits.
pub open spec fn is_prefixed_symbol(exchange: Seq<char>, code: Seq<char>) -> bool {
    &&& exchange.len() > 0
    &&& forall|i: int| 0 <= i < code.len() ==> is_ascii_digit(#[trigger] code[i])
    &&& (code.len() == 6 || (exchange == "BK"@ && code.len() == 4))
}

/// Whether every character is an ASCII digit.
fn all_ascii_digits(code: &str) -> (r: bool)
    ensures
        r == (forall|i: int| 0 <= i < code@.len() ==> is_ascii_digit(#[trigger] code@[i])),
{
    let v = chars_of(code);
    let mut i: usize = 0;
    while i < v.len()
        invariant
            v@ == code@,
            i <= v@.len(),
            forall|k: int| 0 <= k < i ==> is_ascii_digit(#[trigger] v@[k]),
        decreases v@.len() - i,
    {
        let c = v[i];
        if !('0' <= c && c <= '9') {
            return false;
        }
        i = i + 1;
    }
    true
}

/// Whether a symbol split into its exchange prefix and the rest names a
/// stock or a board (see [`is_prefixed_symbol`]).
pub fn prefixed_symbol(exchange: &str, code: &str) -> (r: bool)
    ensures
        r == is_prefixed_symbol(exchange@, code@),
{
    if exchange.unicode_len() == 0 || !all_ascii_digits(code) {
        return false;
    }
    let n = code.unicode_len();
    n == 6 || (same_text(exchange, "BK") && n == 4)
}

/// The first position of a stock with the given symbol, if any.
fn first_with_symbol(stock_list: &[PickerStock], symbol: &str) -> (r: Option<usize>)
    ensures
        match r {
            Some(i) => is_first_with_symbol(stock_list@, symbol@, i as int),
            None => forall|k: int| 0 <= k < stock_list@.len() ==> stock_list@[k].symbol@ != symbol@,
        },
{
    let mut i: usize = 0;
    while i < stock_list.len()
        invariant
            i <= stock_list@.len(),
            forall|k: int| 0 <= k < i ==> stock_list@[k].symbol@ != symbol@,
        decreases stock_list@.len() - i,
    {
        if same_text(stock_list[i].symbol.as_str(), symbol) {
            return Some(i);
        }
        i = i + 1;
    }
    None
}

/// The name of the first stock with the given symbol, empty when there is
/// none.
pub open spec fn name_of_symbol(stocks: Seq<PickerStock>, symbol: Seq<char>) -> Seq<char> {
    default_selection(stocks, symbol).0
}

/// The text of an optional string, as an owned string (empty when absent).
fn opt_owned(o: &Option<String>) -> (r: String)
    ensures
        r@ == opt_text(*o),
{
    match o {
        Some(s) => s.clone(),
        None => String::new(),
    }
}

impl StockPicker {
    /// The filter text the cached positions were computed for.
    pub closed spec fn last_filter_spec(&self) -> Seq<char> {
        self.last_filter_text@
    }

    /// The cached positions of matching stocks.
    pub closed spec fn cached_spec(&self) -> Seq<usize> {
        self.cached_indices@
    }

    /// A closed picker selecting `default_symbol`, with the name and
    /// exchange of the first stock of that symbol, and nothing cached.
    pub fn new(default_symbol: &str, stock_list: &[PickerStock]) -> (r: Self)
        ensures
            r.selected_symbol@ == default_symbol@,
            (r.selected_name@, r.selected_exchange@) == default_selection(stock_list@, default_symbol@),
            r.filter_text@ == Seq::<char>::empty(),
            !r.popup_open,
            r.cached_spec() == Seq::<usize>::empty(),
            r.last_filter_spec() == Seq::<char>::empty(),
    {
        let mut i: usize = 0;
        let mut found = false;
        while i < stock_list.len()
            invariant_except_break
                !found,
            invariant
                i <= stock_list@.len(),
                forall|k: int| 0 <= k < i ==> stock_list@[k].symbol@ != default_symbol@,
            ensures
                i <= stock_list@.len(),
                forall|k: int| 0 <= k < i ==> stock_list@[k].symbol@ != default_symbol@,
                found ==> i < stock_list@.len() && stock_list@[i as int].symbol@ == default_symbol@,
                !found ==> i == stock_list@.len(),
            decreases stock_list@.len() - i,
        {
            if same_text(stock_list[i].symbol.as_str(), default_symbol) {
                found = true;
                break;
            }
            i = i + 1;
        }
        let (name, exchange) = if found && i < stock_list.len() {
            proof {
                assert(is_first_with_symbol(stock_list@, default_symbol@, i as int));
                let c = choose|c: int| is_first_with_symbol(stock_list@, default_symbol@, c);
                if c < i {
                    assert(stock_list@[c].symbol@ != default_symbol@);
                } else if c > i {
                    assert(stock_list@[i as int].symbol@ != default_symbol@);
                }
            }
            (stock_list[i].name.clone(), opt_owned(&stock_list[i].exchange))
        } else {
            proof {
                assert(!exists|c: int| is_first_with_symbol(stock_list@, default_symbol@, c));
            }
            (String::new(), String::new())
        };
        StockPicker {
            filter_text: String::new(),
            selected_symbol: owned(default_symbol),
            selected_name: name,
            selected_exchange: exchange,
            popup_open: false,
            cached_indices: Vec::new(),
            last_filter_text: String::new(),
        }
    }

    /// The text shown for the current selection.
    pub fn display_text(&self) -> (r: String)
        ensures
            r@ == format_display_spec(self.selected_exchange@, self.selected_symbol@, self.selected_name@),
    {
        format_display(
            self.selected_exchange.as_str(),
            self.selected_symbol.as_str(),
            self.selected_name.as_str(),
        )
    }

    /// Open the popup from the closed box: the search text starts as the
    /// selection's display text.
    pub fn open_popup(&mut self)
        ensures
            final(self).popup_open,
            final(self).filter_text@ == format_display_spec(
                old(self).selected_exchange@,
                old(self).selected_symbol@,
                old(self).selected_name@,
            ),
            final(self).selected_symbol == old(self).selected_symbol,
            final(self).selected_name == old(self).selected_name,
            final(self).selected_exchange == old(self).selected_exchange,
            final(self).cached_spec() == old(self).cached_spec(),
            final(self).last_filter_spec() == old(self).last_filter_spec(),
    {
        let text = self.display_text();
        self.popup_open = true;
        self.filter_text = text;
    }

    /// Escape closes the popup.
    pub fn escape(&mut self)
        ensures
            !final(self).popup_open,
            final(self).filter_text == old(self).filter_text,
            final(self).selected_symbol == old(self).selected_symbol,
            final(self).selected_name == old(self).selected_name,
            final(self).selected_exchange == old(self).selected_exchange,
            final(self).cached_spec() == old(self).cached_spec(),
            final(self).last_filter_spec() == old(self).last_filter_spec(),
    {
        self.popup_open = false;
    }

    /// Recompute the matching positions when the search text changed since
    /// they were last computed; otherwise keep them.
    pub fn refilter(&mut self, stock_list: &[PickerStock])
        ensures
            final(self).last_filter_spec() == old(self).filter_text@,
            old(self).filter_text@ != old(self).last_filter_spec() ==> is_listing(
                stock_list@,
                picker_query(old(self).filter_text@),
                final(self).cached_spec(),
            ),
            old(self).filter_text@ == old(self).last_filter_spec() ==> final(self).cached_spec()
                == old(self).cached_spec(),
            final(self).filter_text == old(self).filter_text,
            final(self).popup_open == old(self).popup_open,
            final(self).selected_symbol == old(self).selected_symbol,
            final(self).selected_name == old(self).selected_name,
            final(self).selected_exchange == old(self).selected_exchange,
    {
        if !same_text(self.filter_text.as_str(), self.last_filter_text.as_str()) {
            let t = trimmed(self.filter_text.as_str());
            let lower = to_lowercase(t);
            let q = chars_of(lower.as_str());
            self.cached_indices = listing(stock_list, &q);
            self.last_filter_text = self.filter_text.clone();
        }
    }

    /// The cached positions of matching stocks, in display order.
    pub fn cached_indices(&self) -> (r: &Vec<usize>)
        ensures
            r@ == self.cached_spec(),
    {
        &self.cached_indices
    }

    /// The filter text the cached positions were computed for.
    pub fn last_filter_text(&self) -> (r: &str)
        ensures
            r@ == self.last_filter_spec(),
    {
        self.last_filter_text.as_str()
    }

    /// Follow a change of the shared symbol made elsewhere (a screener row,
    /// the watchlist). `last_synced` is the symbol seen last time; nothing
    /// happens unless `symbol` differs from it. A changed symbol is
    /// remembered, and when it is an exchange-prefixed stock or board code
    /// (`exchange` and `code` are its prefix and the rest) the picker selects
    /// it, with the name of the first listed stock of that symbol (empty when
    /// unlisted) and the prefix as its exchange. Other symbols leave the
    /// selection as it was.
    pub fn sync_from_symbol(
        &mut self,
        last_synced: &mut String,
        symbol: &str,
        exchange: &str,
        code: &str,
        stock_list: &[PickerStock],
    )
        ensures
            final(last_synced)@ == symbol@,
            symbol@ != old(last_synced)@ && is_prefixed_symbol(exchange@, code@) ==> {
                &&& final(self).selected_symbol@ == symbol@
                &&& final(self).selected_name@ == name_of_symbol(stock_list@, symbol@)
                &&& final(self).selected_exchange@ == exchange@
            },
            symbol@ == old(last_synced)@ || !is_prefixed_symbol(exchange@, code@) ==> {
                &&& final(self).selected_symbol == old(self).selected_symbol
                &&& final(self).selected_name == old(self).selected_name
                &&& final(self).selected_exchange == old(self).selected_exchange
            },
            final(self).filter_text == old(self).filter_text,
            final(self).popup_open == old(self).popup_open,
            final(self).cached_spec() == old(self).cached_spec(),
            final(self).last_filter_spec() == old(self).last_filter_spec(),
    {
        if same_text(symbol, last_synced.as_str()) {
            return;
        }
        *last_synced = owned(symbol);
        if !prefixed_symbol(exchange, code) {
            return;
        }
        let name = match first_with_symbol(stock_list, symbol) {
            Some(i) => {
                proof {
                    let c = choose|c: int| is_first_with_symbol(stock_list@, symbol@, c);
                    if c < i {
                        assert(stock_list@[c].symbol@ != symbol@);
                    } else if c > i {
                        assert(stock_list@[i as int].symbol@ != symbol@);
                    }
                }
                stock_list[i].name.clone()
            },
            None => String::new(),
        };
        self.selected_symbol = owned(symbol);
        self.selected_name = name;
        self.selected_exchange = owned(exchange);
    }

    /// Select a stock from the popup: take its symbol, name and exchange,
    /// close the popup and clear the search text.
    pub fn select(&mut self, stock: &PickerStock)
        ensures
            final(self).selected_symbol@ == stock.symbol@,
            final(self).selected_name@ == stock.name@,
            final(self).selected_exchange@ == opt_text(stock.exchange),
            !final(self).popup_open,
            final(self).filter_text@ == Seq::<char>::empty(),
            final(self).cached_spec() == old(self).cached_spec(),
            final(self).last_filter_spec() == old(self).last_filter_spec(),
    {
        self.selected_symbol = stock.symbol.clone();
        self.selected_name = stock.name.clone();
        self.selected_exchange = opt_owned(&stock.exchange);
        self.popup_open = false;
        self.filter_text = String::new();
    }
}

} // verus!

//! Building the market snapshot from daily index rows (the last two
//! trading days per symbol, ordered by symbol then date): the rows are
//! grouped into runs of one symbol, each run's latest row gives the quote
//! and the one before it the reference close, names come from the index
//! table (falling back to the symbol), and the snapshot date is the latest
//! trading date seen.

use vstd::prelude::*;

use crate::text::{
    chars_less, chars_of, lemma_text_le_transitive, lemma_text_trichotomy, same_text, text_le,
    text_lt, texts,
};

verus! {

/// A run of consecutive rows of one symbol: positions `start..end`, the
/// latest quote at `end - 1` and the reference row at `prev` (the row
/// before the latest, or the latest itself when the run has one row).
#[derive(Debug, Clone, Copy, PartialEq, Eq, Structural)]
pub struct SymbolRun {
    /// First position of the run.
    pub start: usize,
    /// One past the last position of the run.
    pub end: usize,
    /// Position of the reference row.
    pub prev: usize,
}

/// `runs` splits the positions `0..symbols.len()` into maximal runs of
/// equal symbols, in order.
pub open spec fn is_run_split(symbols: Seq<Seq<char>>, runs: Seq<SymbolRun>) -> bool {
    &&& runs.len() == 0 <==> symbols.len() == 0
    &&& runs.len() > 0 ==> runs[0].start == 0 && runs.last().end == symbols.len()
    &&& forall|k: int| 0 <= k < runs.len() ==> #[trigger] runs[k].start < runs[k].end
    &&& forall|k: int| 0 <= k < runs.len() - 1 ==> #[trigger] runs[k].end == runs[k + 1].start
    &&& forall|k: int, i: int| 0 <= k < runs.len() && runs[k].start <= i < runs[k].end ==> #[trigger] symbols[i] == symbols[#[trigger] runs[k].start as int]
    &&& forall|k: int| 0 <= k < runs.len() - 1 ==> symbols[#[trigger] runs[k].end as int] != symbols[runs[k].end - 1]
    &&& forall|k: int| 0 <= k < runs.len() ==> #[trigger] runs[k].prev == (if runs[k].end - runs[k].start >= 2 {
        runs[k].end - 2
    } else {
        runs[k].start as int
    })
}

/// Split the rows' symbols into runs of one symbol.
pub fn symbol_runs(symbols: &Vec<String>) -> (runs: Vec<SymbolRun>)
    ensures
        is_run_split(texts(symbols@), runs@),
{
    let ghost s = texts(symbols@);
    let mut runs: Vec<SymbolRun> = Vec::new();
    let n = symbols.len();
    let mut start: usize = 0;
    while start < n
        invariant
            n == s.len(),
            s == texts(symbols@),
            start <= n,
            runs@.len() == 0 <==> start == 0,
            runs@.len() > 0 ==> runs@[0].start == 0 && runs@.last().end == start,
            forall|k: int| 0 <= k < runs@.len() ==> #[trigger] runs@[k].start < runs@[k].end,
            forall|k: int| 0 <= k < runs@.len() - 1 ==> #[trigger] runs@[k].end == runs@[k + 1].start,
            forall|k: int, i: int| 0 <= k < runs@.len() && runs@[k].start <= i < runs@[k].end ==> #[trigger] s[i] == s[#[trigger] runs@[k].start as int],
            forall|k: int| 0 <= k < runs@.len() - 1 ==> s[#[trigger] runs@[k].end as int] != s[runs@[k].end - 1],
            start < n && runs@.len() > 0 ==> s[start as int] != s[start - 1],
            forall|k: int| 0 <= k < runs@.len() ==> #[trigger] runs@[k].prev == (if runs@[k].end - runs@[k].start >= 2 {
                runs@[k].end - 2
            } else {
                runs@[k].start as int
            }),
        decreases n - start,
    {
        let mut end = start + 1;
        while end < n && same_text(symbols[end].as_str(), symbols[start].as_str())
            invariant
                start < end <= n,
                n == s.len(),
                s == texts(symbols@),
                forall|i: int| start <= i < end ==> #[trigger] s[i] == s[start as int],
            ensures
                start < end <= n,
                forall|i: int| start <= i < end ==> #[trigger] s[i] == s[start as int],
                end < n ==> s[end as int] != s[start as int],
            decreases n - end,
        {
            end = end + 1;
        }
        let prev = if end - start >= 2 {
            end - 2
        } else {
            start
        };
        let ghost old_runs = runs@;
        runs.push(SymbolRun { start, end, prev });
        proof {
            assert forall|k: int, i: int| 0 <= k < runs@.len() && runs@[k].start <= i < runs@[k].end implies #[trigger] s[i] == s[#[trigger] runs@[k].start as int] by {
                if k < old_runs.len() {
                    assert(runs@[k] == old_runs[k]);
                }
            }
            assert forall|k: int| 0 <= k < runs@.len() - 1 implies s[#[trigger] runs@[k].end as int] != s[runs@[k].end - 1] by {
                if k < old_runs.len() - 1 {
                    assert(runs@[k] == old_runs[k]);
                } else {
                    assert(runs@[k] == old_runs.last());
                    assert(s[(end - 1) as int] == s[start as int]);
                }
            }
            if end < n {
                assert(s[(end - 1) as int] == s[start as int]);
            }
        }
        start = end;
    }
    runs
}

/// The latest of the first `n` dates in text order, empty when there are
/// none.
pub open spec fn latest_date_upto(dates: Seq<Seq<char>>, n: int) -> Seq<char>
    decreases n,
{
    if n <= 0 {
        Seq::empty()
    } else {
        let best = latest_date_upto(dates, n - 1);
        if text_lt(best, dates[n - 1]) {
            dates[n - 1]
        } else {
            best
        }
    }
}

/// The latest of the first `n` dates is at least each of them and is one of
/// them (when `n > 0`).
pub proof fn lemma_latest_date_upto_is_max(dates: Seq<Seq<char>>, n: int)
    requires
        0 <= n <= dates.len(),
    ensures
        forall|i: int| 0 <= i < n ==> text_le(#[trigger] dates[i], latest_date_upto(dates, n)),
        n > 0 ==> exists|i: int| 0 <= i < n && dates[i] == latest_date_upto(dates, n),
    decreases n,
{
    if n > 0 {
        lemma_latest_date_upto_is_max(dates, n - 1);
        let best = latest_date_upto(dates, n - 1);
        let d = dates[n - 1];
        lemma_text_trichotomy(best, d);
        if text_lt(best, d) {
            assert forall|i: int| 0 <= i < n implies text_le(#[trigger] dates[i], d) by {
                if i < n - 1 {
                    lemma_text_le_transitive(dates[i], best, d);
                }
            }
        } else {
            if n == 1 {
                assert(best.len() == 0);
                assert(d =~= best);
            }
            assert(text_le(d, best));
            if n > 1 {
                let j = choose|j: int| 0 <= j < n - 1 && dates[j] == best;
                assert(dates[j] == latest_date_upto(dates, n));
            } else {
                assert(dates[0] == latest_date_upto(dates, n));
            }
        }
    }
}

/// The snapshot date is the maximum of all the dates in text order: no date
/// is later than it, and it is one of the dates when there are any.
pub proof fn lemma_latest_date_is_max(dates: Seq<String>)
    ensures
        forall|i: int|
            0 <= i < dates.len() ==> text_le(
                #[trigger] dates[i]@,
                latest_date_upto(texts(dates), dates.len() as int),
            ),
        dates.len() > 0 ==> exists|i: int|
            0 <= i < dates.len() && dates[i]@ == latest_date_upto(texts(dates), dates.len() as int),
{
    let d = texts(dates);
    lemma_latest_date_upto_is_max(d, dates.len() as int);
    assert forall|i: int| 0 <= i < dates.len() implies text_le(
        #[trigger] dates[i]@,
        latest_date_upto(texts(dates), dates.len() as int),
    ) by {
        assert(d[i] == dates[i]@);
    }
    if dates.len() > 0 {
        let j = choose|j: int| 0 <= j < d.len() && d[j] == latest_date_upto(d, dates.len() as int);
        assert(d[j] == dates[j]@);
    }
}

/// The snapshot date: the latest of the dates (empty when there are none).
pub fn latest_date(dates: &Vec<String>) -> (r: String)
    ensures
        r@ == latest_date_upto(texts(dates@), dates@.len() as int),
        forall|i: int| 0 <= i < dates@.len() ==> text_le(#[trigger] dates@[i]@, r@),
        dates@.len() > 0 ==> exists|i: int| 0 <= i < dates@.len() && dates@[i]@ == r@,
{
    proof {
        lemma_latest_date_is_max(dates@);
    }
    let ghost d = texts(dates@);
    let mut best = String::new();
    let mut best_chars: Vec<char> = Vec::new();
    let mut i: usize = 0;
    while i < dates.len()
        invariant
            i <= dates@.len(),
            d == texts(dates@),
            best@ == latest_date_upto(d, i as int),
            best_chars@ == best@,
        decreases dates@.len() - i,
    {
        let c = chars_of(dates[i].as_str());
        if chars_less(&best_chars, &c) {
            best = dates[i].clone();
            best_chars = c;
        }
        i = i + 1;
    }
    best
}

/// An entry of the index table: symbol, name and index type.
#[derive(Debug, Clone, PartialEq)]
pub struct IndexBasic {
    /// Index / board symbol.
    pub symbol: String,
    /// Display name.
    pub name: String,
    /// `industry`, `concept` or `official`.
    pub index_type: String,
}

/// `i` is the last position of `symbol` in the index table.
pub open spec fn is_last_basic(basics: Seq<IndexBasic>, symbol: Seq<char>, i: int) -> bool {
    &&& 0 <= i < basics.len()
    &&& basics[i].symbol@ == symbol
    &&& forall|k: int| i < k < basics.len() ==> basics[k].symbol@ != symbol
}

/// The name and type shown for a symbol: those of its (last) entry in the
/// index table, or the symbol itself with the row's own type when the
/// table has none.
pub open spec fn resolve_name_spec(basics: Seq<IndexBasic>, symbol: Seq<char>, row_type: Seq<char>) -> (
    Seq<char>,
    Seq<char>,
) {
    if exists|i: int| is_last_basic(basics, symbol, i) {
        let i = choose|i: int| is_last_basic(basics, symbol, i);
        (basics[i].name@, basics[i].index_type@)
    } else {
        (symbol, row_type)
    }
}

/// Look up the name and type for a symbol (a later table entry of the same
/// symbol overrides an earlier one, as when the table is loaded into a map).
pub fn resolve_name(basics: &Vec<IndexBasic>, symbol: &str, row_type: &str) -> (r: (String, String))
    ensures
        (r.0@, r.1@) == resolve_name_spec(basics@, symbol@, row_type@),
{
    let mut i: usize = basics.len();
    let mut found = false;
    while i > 0
        invariant_except_break
            !found,
        invariant
            i <= basics@.len(),
            forall|k: int| i <= k < basics@.len() ==> basics@[k].symbol@ != symbol@,
        ensures
            found ==> 0 < i <= basics@.len() && basics@[i - 1].symbol@ == symbol@ && forall|k: int| i <= k < basics@.len() ==> basics@[k].symbol@ != symbol@,
            !found ==> forall|k: int| 0 <= k < basics@.len() ==> basics@[k].symbol@ != symbol@,
        decreases i,
    {
        if same_text(basics[i - 1].symbol.as_str(), symbol) {
            found = true;
            break;
        }
        i = i - 1;
    }
    if found {
        i = i - 1;
    }
    if found {
        proof {
            assert(is_last_basic(basics@, symbol@, i as int));
            let c = choose|c: int| is_last_basic(basics@, symbol@, c);
            if c < i {
                assert(basics@[i as int].symbol@ != symbol@);
            } else if c > i {
                assert(basics@[c].symbol@ != symbol@);
            }
        }
        (basics[i].name.clone(), basics[i].index_type.clone())
    } else {
        (crate::text::owned(symbol), crate::text::owned(row_type))
    }
}

/// The name lookup behaves as loading the table into a map: with no entry
/// the symbol names itself with the row's type; an entry added at the end
/// decides its symbol's name and type; an entry of another symbol changes
/// nothing.
pub proof fn lemma_resolve_name_map_like(
    basics: Seq<IndexBasic>,
    b: IndexBasic,
    symbol: Seq<char>,
    row_type: Seq<char>,
)
    ensures
        resolve_name_spec(Seq::empty(), symbol, row_type) == (symbol, row_type),
        resolve_name_spec(basics.push(b), b.symbol@, row_type) == (b.name@, b.index_type@),
        b.symbol@ != symbol ==> resolve_name_spec(basics.push(b), symbol, row_type)
            == resolve_name_spec(basics, symbol, row_type),
{
    let ext = basics.push(b);
    let n = basics.len() as int;
    assert(is_last_basic(ext, b.symbol@, n));
    let c = choose|c: int| is_last_basic(ext, b.symbol@, c);
    if c < n {
        assert(ext[n].symbol@ == b.symbol@);
    }
    if b.symbol@ != symbol {
        if exists|i: int| is_last_basic(basics, symbol, i) {
            let i = choose|i: int| is_last_basic(basics, symbol, i);
            assert(is_last_basic(ext, symbol, i));
            let j = choose|j: int| is_last_basic(ext, symbol, j);
            if j < i {
                assert(ext[i].symbol@ == symbol);
            } else if j > i {
                assert(ext[j].symbol@ == symbol);
                assert(j < n);
            }
        }
        if exists|j: int| is_last_basic(ext, symbol, j) {
            let j = choose|j: int| is_last_basic(ext, symbol, j);
            assert(j < n);
            assert(ext[j] == basics[j]);
            assert forall|k: int| j < k < n implies basics[k].symbol@ != symbol by {
                assert(ext[k] == basics[k]);
            }
            assert(is_last_basic(basics, symbol, j));
        }
    }
}

} // verus!

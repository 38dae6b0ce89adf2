//! The market overview: the six pinned core indexes, the ranking table's
//! columns, and the rows of the selected segment (industry / concept /
//! official boards) ordered by change percent, strongest first.

use vstd::prelude::*;

use crate::filter::Real;
use crate::text::same_text;

verus! {

/// One column of a report table: its header's i18n key and whether it holds
/// numbers.
#[derive(Debug, Clone, Copy, PartialEq, Eq)]
pub struct ColumnSpec {
    /// I18n key of the header.
    pub header: &'static str,
    /// Numeric column (right-aligned, numeric sort).
    pub numeric: bool,
}

/// The core indexes pinned in the overview card, with fallback names.
pub const CORE_INDEX_WHITELIST: [(&'static str, &'static str); 6] = [
    ("SH000001", "上证指数"),
    ("SZ399001", "深证成指"),
    ("SZ399006", "创业板指"),
    ("SH000300", "沪深300"),
    ("SH000905", "中证500"),
    ("SH000852", "中证1000"),
];

/// The ranking table's columns: name, code, latest, change, turnover.
pub open spec fn market_columns_spec() -> Seq<(Seq<char>, bool)> {
    seq![
        ("index.table.name"@, false),
        ("index.table.code"@, false),
        ("index.table.latest"@, true),
        ("index.table.change"@, true),
        ("index.table.amount"@, true),
    ]
}

/// The header keys and numeric flags of a list of columns.
pub open spec fn columns_view(c: Seq<ColumnSpec>) -> Seq<(Seq<char>, bool)> {
    c.map_values(|s: ColumnSpec| (s.header@, s.numeric))
}

/// A column.
fn column(header: &'static str, numeric: bool) -> (r: ColumnSpec)
    ensures
        r.header@ == header@,
        r.numeric == numeric,
{
    ColumnSpec { header, numeric }
}

/// The ranking table's columns.
pub fn market_columns() -> (r: Vec<ColumnSpec>)
    ensures
        columns_view(r@) == market_columns_spec(),
{
    let mut r: Vec<ColumnSpec> = Vec::new();
    r.push(column("index.table.name", false));
    r.push(column("index.table.code", false));
    r.push(column("index.table.latest", true));
    r.push(column("index.table.change", true));
    r.push(column("index.table.amount", true));
    assert(columns_view(r@) =~= market_columns_spec());
    r
}

/// The change-percent column, the table's default (descending) sort.
pub const CHANGE_COLUMN: usize = 3;

/// The segment filter values, in segment order.
pub const SEGMENT_TYPES: [&'static str; 3] = ["industry", "concept", "official"];

/// The index type a segment shows; segments past the last mean the last.
pub open spec fn segment_type_spec(segment: usize) -> Seq<char> {
    if segment == 0 {
        "industry"@
    } else if segment == 1 {
        "concept"@
    } else {
        "official"@
    }
}

/// The index type a segment shows.
pub fn segment_type(segment: usize) -> (r: &'static str)
    ensures
        r@ == segment_type_spec(segment),
{
    if segment == 0 {
        "industry"
    } else if segment == 1 {
        "concept"
    } else {
        "official"
    }
}

/// One row of the index snapshot, as the ranking reads it.
#[derive(Debug, Clone, PartialEq)]
pub struct MarketRow {
    /// Index / board symbol.
    pub symbol: String,
    /// Display name.
    pub name: String,
    /// `industry`, `concept` or `official`.
    pub index_type: String,
    /// Change percent (an `f64` by its bits).
    pub change_pct: Real,
}

/// The key by which `f64::total_cmp` orders a float with these bits: the
/// sign-magnitude bits mapped onto a two's-complement integer.
pub open spec fn total_order_key(bits: u64) -> int {
    if bits < 0x8000_0000_0000_0000 {
        bits as int
    } else {
        -1 - ((bits - 0x8000_0000_0000_0000) as int)
    }
}

/// [`total_order_key`] as an `i64`.
pub fn total_order_key_of(x: Real) -> (r: i64)
    ensures
        r == total_order_key(x.bits),
{
    if x.bits < 0x8000_0000_0000_0000 {
        x.bits as i64
    } else {
        let m: u64 = x.bits - 0x8000_0000_0000_0000;
        -1 - (m as i64)
    }
}

/// Row `a` ranks strictly before row `b`: a larger change first (in the
/// order of `total_cmp`), ties keep their snapshot order.
pub open spec fn ranks_before(rows: Seq<MarketRow>, a: int, b: int) -> bool {
    let (ka, kb) = (total_order_key(rows[a].change_pct.bits), total_order_key(rows[b].change_pct.bits));
    ka > kb || (ka == kb && a < b)
}

/// `r` lists, best first, exactly the positions of the rows of the given
/// index type, each once.
pub open spec fn is_segment_ranking(rows: Seq<MarketRow>, want: Seq<char>, r: Seq<usize>) -> bool {
    &&& forall|k: int| 0 <= k < r.len() ==> r[k] < rows.len() && rows[r[k] as int].index_type@ == want
    &&& forall|i: int| 0 <= i < rows.len() && (#[trigger] rows[i]).index_type@ == want ==> r.contains(i as usize)
    &&& forall|a: int, b: int| 0 <= a < b < r.len() ==> ranks_before(rows, r[a] as int, r[b] as int)
}

/// Insert position for a new last row `j` into a ranking: after every row
/// whose change is not below `j`'s.
fn rank_position(rows: &[MarketRow], r: &Vec<usize>, j: usize) -> (p: usize)
    requires
        j < rows@.len(),
        forall|k: int| 0 <= k < r@.len() ==> r@[k] < j,
        forall|a: int, b: int| 0 <= a < b < r@.len() ==> ranks_before(rows@, r@[a] as int, r@[b] as int),
    ensures
        p <= r@.len(),
        forall|k: int| 0 <= k < p ==> ranks_before(rows@, #[trigger] r@[k] as int, j as int),
        forall|k: int| p <= k < r@.len() ==> ranks_before(rows@, j as int, #[trigger] r@[k] as int),
{
    let kj = total_order_key_of(rows[j].change_pct);
    let mut p = r.len();
    loop
        invariant
            p <= r@.len(),
            j < rows@.len(),
            kj == total_order_key(rows@[j as int].change_pct.bits),
            forall|k: int| 0 <= k < r@.len() ==> r@[k] < j,
            forall|a: int, b: int| 0 <= a < b < r@.len() ==> ranks_before(rows@, r@[a] as int, r@[b] as int),
            forall|k: int| p <= k < r@.len() ==> kj > total_order_key(rows@[#[trigger] r@[k] as int].change_pct.bits),
        ensures
            p <= r@.len(),
            forall|k: int| p <= k < r@.len() ==> kj > total_order_key(rows@[#[trigger] r@[k] as int].change_pct.bits),
            p > 0 ==> kj <= total_order_key(rows@[r@[p - 1] as int].change_pct.bits),
        decreases p,
    {
        if p == 0 {
            break;
        }
        let kp = total_order_key_of(rows[r[p - 1]].change_pct);
        if kj <= kp {
            break;
        }
        p = p - 1;
    }
    proof {
        if p > 0 {
            let last = r@[p - 1] as int;
            assert(ranks_before(rows@, last, j as int));
            assert forall|k: int| 0 <= k < p implies ranks_before(rows@, #[trigger] r@[k] as int, j as int) by {
                if k < p - 1 {
                    assert(ranks_before(rows@, r@[k] as int, last));
                }
            }
        }
    }
    p
}

/// The positions of the rows of a segment, strongest change first (ties
/// keep snapshot order).
pub fn segment_ranking(rows: &[MarketRow], segment: usize) -> (r: Vec<usize>)
    ensures
        is_segment_ranking(rows@, segment_type_spec(segment), r@),
{
    let want = segment_type(segment);
    let mut r: Vec<usize> = Vec::new();
    let mut i: usize = 0;
    while i < rows.len()
        invariant
            i <= rows@.len(),
            want@ == segment_type_spec(segment),
            forall|k: int| 0 <= k < r@.len() ==> r@[k] < i && rows@[r@[k] as int].index_type@ == want@,
            forall|j: int| 0 <= j < i && (#[trigger] rows@[j]).index_type@ == want@ ==> r@.contains(j as usize),
            forall|a: int, b: int| 0 <= a < b < r@.len() ==> ranks_before(rows@, r@[a] as int, r@[b] as int),
        decreases rows@.len() - i,
    {
        if same_text(rows[i].index_type.as_str(), want) {
            let p = rank_position(rows, &r, i);
            let ghost old_r = r@;
            r.insert(p, i);
            proof {
                assert(r@ =~= old_r.subrange(0, p as int) + seq![i] + old_r.subrange(p as int, old_r.len() as int));
                assert forall|a: int, b: int| 0 <= a < b < r@.len() implies ranks_before(
                    rows@,
                    r@[a] as int,
                    r@[b] as int,
                ) by {
                    if b < p {
                        assert(r@[a] == old_r[a] && r@[b] == old_r[b]);
                    } else if b == p {
                        assert(r@[a] == old_r[a]);
                    } else if a < p {
                        assert(r@[a] == old_r[a] && r@[b] == old_r[b - 1]);
                        assert(ranks_before(rows@, old_r[a] as int, i as int));
                        assert(ranks_before(rows@, i as int, old_r[b - 1] as int));
                    } else if a == p {
                        assert(r@[b] == old_r[b - 1]);
                    } else {
                        assert(r@[a] == old_r[a - 1] && r@[b] == old_r[b - 1]);
                    }
                }
                assert forall|j: int| 0 <= j < i + 1 && (#[trigger] rows@[j]).index_type@ == want@ implies r@.contains(j as usize) by {
                    if j == i {
                        assert(r@[p as int] == i);
                    } else {
                        let k = choose|k: int| 0 <= k < old_r.len() && old_r[k] == j as usize;
                        if k < p {
                            assert(r@[k] == j as usize);
                        } else {
                            assert(r@[k + 1] == j as usize);
                        }
                    }
                }
            }
        }
        i = i + 1;
    }
    r
}

/// The rows of a segment, strongest change first.
pub fn filter_rows(rows: &[MarketRow], segment: usize) -> (r: Vec<MarketRow>)
    ensures
        exists|order: Seq<usize>|
            is_segment_ranking(rows@, segment_type_spec(segment), order) && r@.len() == order.len()
                && forall|k: int| 0 <= k < order.len() ==> r@[k] == #[trigger] rows@[order[k] as int],
{
    let order = segment_ranking(rows, segment);
    let mut out: Vec<MarketRow> = Vec::new();
    let mut k: usize = 0;
    while k < order.len()
        invariant
            k <= order@.len(),
            out@.len() == k,
            is_segment_ranking(rows@, segment_type_spec(segment), order@),
            forall|m: int| 0 <= m < k ==> out@[m] == #[trigger] rows@[order@[m] as int],
        decreases order@.len() - k,
    {
        out.push(copy_row(&rows[order[k]]));
        k = k + 1;
    }
    out
}

/// A copy of a row.
fn copy_row(row: &MarketRow) -> (r: MarketRow)
    ensures
        r == *row,
{
    MarketRow {
        symbol: row.symbol.clone(),
        name: row.name.clone(),
        index_type: row.index_type.clone(),
        change_pct: row.change_pct,
    }
}

/// The market panel's own state: which segment is shown.
pub struct MarketPanel {
    /// Selected segment: 0 industry, 1 concept, 2 official.
    pub segment: usize,
}

impl MarketPanel {
    /// A panel showing the industry segment.
    pub fn new() -> (r: Self)
        ensures
            r.segment == 0,
    {
        MarketPanel { segment: 0 }
    }

    /// The rows of the selected segment, strongest change first.
    pub fn visible_rows(&self, rows: &[MarketRow]) -> (r: Vec<MarketRow>)
        ensures
            exists|order: Seq<usize>|
                is_segment_ranking(rows@, segment_type_spec(self.segment), order) && r@.len()
                    == order.len() && forall|k: int|
                    0 <= k < order.len() ==> r@[k] == #[trigger] rows@[order[k] as int],
    {
        filter_rows(rows, self.segment)
    }
}

/// `i` is the first row with the given symbol.
pub open spec fn is_first_row(rows: Seq<MarketRow>, symbol: Seq<char>, i: int) -> bool {
    &&& 0 <= i < rows.len()
    &&& rows[i].symbol@ == symbol
    &&& forall|k: int| 0 <= k < i ==> rows[k].symbol@ != symbol
}

/// A pinned index in the overview card: the first snapshot row of its
/// symbol, if any, and the name shown (the row's, else the fallback).
pub open spec fn core_index_entry_spec(rows: Seq<MarketRow>, symbol: Seq<char>, fallback: Seq<char>) -> (
    Option<int>,
    Seq<char>,
) {
    if exists|i: int| is_first_row(rows, symbol, i) {
        let i = choose|i: int| is_first_row(rows, symbol, i);
        (Some(i), rows[i].name@)
    } else {
        (None, fallback)
    }
}

/// Find a pinned index's row and display name.
pub fn core_index_entry(rows: &[MarketRow], symbol: &str, fallback: &str) -> (r: (
    Option<usize>,
    String,
))
    ensures
        (match r.0 {
            Some(i) => Some(i as int),
            None => None,
        }, r.1@) == core_index_entry_spec(rows@, symbol@, fallback@),
{
    let mut i: usize = 0;
    while i < rows.len()
        invariant
            i <= rows@.len(),
            forall|k: int| 0 <= k < i ==> rows@[k].symbol@ != symbol@,
        decreases rows@.len() - i,
    {
        if same_text(rows[i].symbol.as_str(), symbol) {
            proof {
                assert(is_first_row(rows@, symbol@, i as int));
                let c = choose|c: int| is_first_row(rows@, symbol@, c);
                if c < i {
                    assert(rows@[c].symbol@ != symbol@);
                } else if c > i {
                    assert(rows@[i as int].symbol@ != symbol@);
                }
            }
            return (Some(i), rows[i].name.clone());
        }
        i = i + 1;
    }
    (None, crate::text::owned(fallback))
}

/// Two sequences of positions, each strictly increasing in
/// [`ranks_before`] order and holding the same positions, are equal.
proof fn lemma_ranked_same_members(rows: Seq<MarketRow>, t1: Seq<usize>, t2: Seq<usize>)
    requires
        forall|a: int, b: int| 0 <= a < b < t1.len() ==> ranks_before(rows, t1[a] as int, t1[b] as int),
        forall|a: int, b: int| 0 <= a < b < t2.len() ==> ranks_before(rows, t2[a] as int, t2[b] as int),
        forall|v: usize| t1.contains(v) <==> t2.contains(v),
    ensures
        t1 == t2,
    decreases t1.len() + t2.len(),
{
    if t1.len() == 0 {
        if t2.len() > 0 {
            assert(t2.contains(t2[0]));
        }
        assert(t1 =~= t2);
    } else if t2.len() == 0 {
        assert(t1.contains(t1[0]));
    } else {
        let (p, q) = (t1[0], t2[0]);
        assert(t1.contains(p));
        assert(t2.contains(q));
        if p != q {
            let kp = choose|k: int| 0 <= k < t2.len() && t2[k] == p;
            let kq = choose|k: int| 0 <= k < t1.len() && t1[k] == q;
            assert(ranks_before(rows, q as int, p as int));
            assert(ranks_before(rows, p as int, q as int));
        }
        let (u1, u2) = (t1.drop_first(), t2.drop_first());
        assert forall|v: usize| u1.contains(v) implies u2.contains(v) by {
            let k = choose|k: int| 0 <= k < u1.len() && u1[k] == v;
            assert(ranks_before(rows, t1[0] as int, t1[k + 1] as int));
            assert(t1.contains(v));
            let j = choose|j: int| 0 <= j < t2.len() && t2[j] == v;
            assert(j != 0);
            assert(u2[j - 1] == v);
        }
        assert forall|v: usize| u2.contains(v) implies u1.contains(v) by {
            let k = choose|k: int| 0 <= k < u2.len() && u2[k] == v;
            assert(ranks_before(rows, t2[0] as int, t2[k + 1] as int));
            assert(t2.contains(v));
            let j = choose|j: int| 0 <= j < t1.len() && t1[j] == v;
            assert(j != 0);
            assert(u1[j - 1] == v);
        }
        assert forall|a: int, b: int| 0 <= a < b < u1.len() implies ranks_before(
            rows,
            u1[a] as int,
            u1[b] as int,
        ) by {
            assert(ranks_before(rows, t1[a + 1] as int, t1[b + 1] as int));
        }
        assert forall|a: int, b: int| 0 <= a < b < u2.len() implies ranks_before(
            rows,
            u2[a] as int,
            u2[b] as int,
        ) by {
            assert(ranks_before(rows, t2[a + 1] as int, t2[b + 1] as int));
        }
        lemma_ranked_same_members(rows, u1, u2);
        assert(t1 =~= seq![p] + u1);
        assert(t2 =~= seq![p] + u2);
    }
}

/// A segment has one ranking: two rankings of the same rows and segment
/// are equal.
pub proof fn lemma_segment_ranking_unique(rows: Seq<MarketRow>, want: Seq<char>, r1: Seq<usize>, r2: Seq<usize>)
    requires
        is_segment_ranking(rows, want, r1),
        is_segment_ranking(rows, want, r2),
    ensures
        r1 == r2,
{
    assert forall|v: usize| r1.contains(v) implies r2.contains(v) by {
        let k = choose|k: int| 0 <= k < r1.len() && r1[k] == v;
        assert(rows[v as int].index_type@ == want);
    }
    assert forall|v: usize| r2.contains(v) implies r1.contains(v) by {
        let k = choose|k: int| 0 <= k < r2.len() && r2[k] == v;
        assert(rows[v as int].index_type@ == want);
    }
    lemma_ranked_same_members(rows, r1, r2);
}

} // verus!

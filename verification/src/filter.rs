//! The screener filter AST: metadata constraints, quote-series conditions and
//! their `And` / `Or` / `Not` combinations, plus the mathematical view that
//! the contracts speak of.
//!
//! Numeric parameters that the screener engine reads as floating-point
//! values are carried as [`Real`]: the exact IEEE-754 bit pattern of the
//! value. Nothing in this crate computes with them; they are copied and
//! compared by identity only.

use vstd::prelude::*;

verus! {

/// A floating-point parameter held as its IEEE-754 bit pattern.
#[derive(Debug, Clone, Copy, PartialEq, Eq, Structural)]
pub struct Real {
    /// The bit pattern of the value (`f64::to_bits`).
    pub bits: u64,
}

/// Comparison operator of a series comparison.
#[derive(Debug, Clone, Copy, PartialEq, Eq, Structural)]
pub enum CmpOp {
    Eq,
    Ne,
    Gt,
    Ge,
    Lt,
    Le,
}

/// A per-stock quote series factor.
#[derive(Debug, Clone, Copy, PartialEq, Eq, Structural)]
pub enum SeriesFactor {
    /// Latest adjusted close.
    Close,
    /// N-day simple moving average.
    Sma(u32),
    /// N-day change in percent.
    ChangePct(u32),
    /// Single-day change in percent.
    DayPct,
    /// N-day average volume.
    AvgVolume(u32),
    /// N-day high.
    NDayHigh(u32),
}

/// The right-hand side of a comparison: a constant or another factor.
#[derive(Debug, Clone, Copy, PartialEq, Eq, Structural)]
pub enum FactorRef {
    Const(Real),
    Factor(SeriesFactor),
}

/// A condition over a stock's quote series.
#[derive(Debug, Clone, Copy, PartialEq, Eq, Structural)]
pub enum SeriesCond {
    /// `factor op value`.
    Cmp { factor: SeriesFactor, op: CmpOp, value: FactorRef },
    /// `n` consecutive days each gaining more than `min_pct` percent.
    UpDays { n: u32, min_pct: Real },
    /// At least `at_least` of the last `window` days satisfy the comparison.
    Count { factor: SeriesFactor, op: CmpOp, value: FactorRef, window: u32, at_least: u32 },
    /// Recent `days`-day average volume at least `times` the baseline.
    VolumeSurge { days: u32, times: Real },
}

/// A constraint on a stock's metadata.
#[derive(Debug, Clone, PartialEq)]
pub enum MetaCond {
    /// Industry in the set (empty set = unconstrained).
    Industry(Vec<String>),
    /// Exchange in the set.
    Exchange(Vec<String>),
    /// Board in the set.
    Board(Vec<String>),
    /// Listed for at least N years.
    ListYears(u32),
    /// Whether delisted stocks are included.
    Delisted(bool),
    /// Market-cap range in 亿元; a missing side is unbounded.
    MarketCap { min: Option<Real>, max: Option<Real> },
}

/// The screener filter AST.
#[derive(Debug, PartialEq)]
pub enum Filter {
    Meta(MetaCond),
    Series(SeriesCond),
    And(Vec<Filter>),
    Or(Vec<Filter>),
    Not(Box<Filter>),
}

/// Mathematical view of a [`MetaCond`].
pub enum MetaView {
    Industry(Seq<Seq<char>>),
    Exchange(Seq<Seq<char>>),
    Board(Seq<Seq<char>>),
    ListYears(u32),
    Delisted(bool),
    MarketCap { min: Option<Real>, max: Option<Real> },
}

/// Mathematical view of a [`Filter`].
pub enum FilterView {
    Meta(MetaView),
    Series(SeriesCond),
    And(Seq<FilterView>),
    Or(Seq<FilterView>),
    Not(Box<FilterView>),
}

/// The characters of each string of a list.
pub open spec fn strings_view(v: Seq<String>) -> Seq<Seq<char>> {
    v.map_values(|s: String| s@)
}

/// The view of a metadata constraint.
pub open spec fn meta_view(m: MetaCond) -> MetaView {
    match m {
        MetaCond::Industry(v) => MetaView::Industry(strings_view(v@)),
        MetaCond::Exchange(v) => MetaView::Exchange(strings_view(v@)),
        MetaCond::Board(v) => MetaView::Board(strings_view(v@)),
        MetaCond::ListYears(n) => MetaView::ListYears(n),
        MetaCond::Delisted(b) => MetaView::Delisted(b),
        MetaCond::MarketCap { min, max } => MetaView::MarketCap { min, max },
    }
}

/// The view of a filter.
pub open spec fn filter_view(f: Filter) -> FilterView
    decreases f,
{
    match f {
        Filter::Meta(m) => FilterView::Meta(meta_view(m)),
        Filter::Series(s) => FilterView::Series(s),
        Filter::And(v) => FilterView::And(
            Seq::new(
                v@.len(),
                |i: int|
                    if 0 <= i < v@.len() {
                        filter_view(v@[i])
                    } else {
                        FilterView::And(Seq::empty())
                    },
            ),
        ),
        Filter::Or(v) => FilterView::Or(
            Seq::new(
                v@.len(),
                |i: int|
                    if 0 <= i < v@.len() {
                        filter_view(v@[i])
                    } else {
                        FilterView::And(Seq::empty())
                    },
            ),
        ),
        Filter::Not(b) => FilterView::Not(Box::new(filter_view(*b))),
    }
}

/// The views of a list of filters.
pub open spec fn filters_view(v: Seq<Filter>) -> Seq<FilterView> {
    Seq::new(v.len(), |i: int| filter_view(v[i]))
}

impl View for MetaCond {
    type V = MetaView;

    open spec fn view(&self) -> MetaView {
        meta_view(*self)
    }
}

impl View for Filter {
    type V = FilterView;

    open spec fn view(&self) -> FilterView {
        filter_view(*self)
    }
}

/// The views of the members of an `And` / `Or` node are the views of its vector.
pub proof fn lemma_filter_view_members(v: Vec<Filter>)
    ensures
        filter_view(Filter::And(v)) == FilterView::And(filters_view(v@)),
        filter_view(Filter::Or(v)) == FilterView::Or(filters_view(v@)),
{
    let fa = filter_view(Filter::And(v));
    let fo = filter_view(Filter::Or(v));
    assert(fa is And);
    assert(fa->And_0.len() == v@.len());
    assert(forall|i: int| 0 <= i < v@.len() ==> fa->And_0[i] == filter_view(v@[i]));
    assert(fa->And_0 =~= filters_view(v@));
    assert(fo is Or);
    assert(fo->Or_0.len() == v@.len());
    assert(forall|i: int| 0 <= i < v@.len() ==> fo->Or_0[i] == filter_view(v@[i]));
    assert(fo->Or_0 =~= filters_view(v@));
}

/// A copy of a list of strings.
pub fn copy_strings(v: &Vec<String>) -> (r: Vec<String>)
    ensures
        r@ == v@,
{
    let mut r: Vec<String> = Vec::new();
    let mut i: usize = 0;
    while i < v.len()
        invariant
            i <= v@.len(),
            r@ == v@.subrange(0, i as int),
        decreases v@.len() - i,
    {
        r.push(v[i].clone());
        assert(r@ =~= v@.subrange(0, i + 1));
        i = i + 1;
    }
    assert(r@ =~= v@);
    r
}

/// A copy of a metadata constraint.
pub fn copy_meta(m: &MetaCond) -> (r: MetaCond)
    ensures
        r@ == m@,
{
    match m {
        MetaCond::Industry(v) => MetaCond::Industry(copy_strings(v)),
        MetaCond::Exchange(v) => MetaCond::Exchange(copy_strings(v)),
        MetaCond::Board(v) => MetaCond::Board(copy_strings(v)),
        MetaCond::ListYears(n) => MetaCond::ListYears(*n),
        MetaCond::Delisted(b) => MetaCond::Delisted(*b),
        MetaCond::MarketCap { min, max } => MetaCond::MarketCap { min: *min, max: *max },
    }
}

/// A deep copy of a filter.
pub fn copy_filter(f: &Filter) -> (r: Filter)
    ensures
        r@ == f@,
    decreases f,
{
    match f {
        Filter::Meta(m) => Filter::Meta(copy_meta(m)),
        Filter::Series(s) => Filter::Series(*s),
        Filter::And(v) => {
            let c = copy_filters(v);
            proof {
                lemma_filter_view_members(*v);
                lemma_filter_view_members(c);
            }
            Filter::And(c)
        },
        Filter::Or(v) => {
            let c = copy_filters(v);
            proof {
                lemma_filter_view_members(*v);
                lemma_filter_view_members(c);
            }
            Filter::Or(c)
        },
        Filter::Not(inner) => Filter::Not(Box::new(copy_filter(inner))),
    }
}

/// A deep copy of a list of filters.
pub fn copy_filters(v: &Vec<Filter>) -> (r: Vec<Filter>)
    ensures
        filters_view(r@) == filters_view(v@),
    decreases v,
{
    let mut r: Vec<Filter> = Vec::new();
    let mut i: usize = 0;
    while i < v.len()
        invariant
            i <= v@.len(),
            r@.len() == i,
            forall|j: int| 0 <= j < i ==> (#[trigger] r@[j])@ == v@[j]@,
        decreases v@.len() - i,
    {
        r.push(copy_filter(&v[i]));
        i = i + 1;
    }
    assert(filters_view(r@) =~= filters_view(v@));
    r
}

impl Clone for Filter {
    fn clone(&self) -> (r: Self)
        ensures
            r@ == self@,
    {
        copy_filter(self)
    }
}

} // verus!

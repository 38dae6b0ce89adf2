//! The screener condition-card model and its two-way mapping to the filter
//! AST.
//!
//! Cards are a view over the [`Filter`] AST: [`filter_to_items`] turns an AST
//! into cards (restore / render), [`leaf_to_filter`] and [`group_to_filter`]
//! turn cards back into the AST. The round-trip laws at the end of this file
//! are the "no regression" guarantee: every card survives cards → AST →
//! cards, and every AST in card shape survives AST → cards → AST.

use vstd::prelude::*;

use crate::filter::{
    copy_filter, copy_strings, filters_view, lemma_filter_view_members, strings_view, CmpOp, FactorRef, Filter,
    FilterView, MetaCond, MetaView, Real, SeriesCond, SeriesFactor,
};

verus! {

broadcast use vstd::std_specs::vec::axiom_vec_index_decreases;

/// Boolean operator of a condition group.
#[derive(Debug, Clone, Copy, PartialEq, Eq, Structural, Default)]
pub enum BoolOp {
    /// All items must hold.
    #[default]
    And,
    /// At least one item must hold.
    Or,
}

/// The condition templates a card can represent.
#[derive(Debug, Clone, Copy, PartialEq, Eq, Structural, Default)]
pub enum LeafKind {
    /// Industry multi-select (OR semantics, empty = no constraint).
    Industry,
    /// Exchange multi-select.
    Exchange,
    /// Board multi-select.
    Board,
    /// Listed for at least N years.
    ListYears,
    /// Market cap range in 亿元.
    MarketCap,
    /// Delisted exclusion checkbox.
    Delisted,
    /// MA condition (above MA20 / above MA60 / bullish alignment).
    #[default]
    Ma,
    /// Close above the N-day high.
    Breakout,
    /// N-day return within [min, max].
    Momentum,
    /// Recent days-average volume at least times the baseline.
    VolumeSurge,
    /// N consecutive up days.
    UpDays,
    /// Unrecognized AST shape: a read-only summary card.
    Unknown,
}

/// MA condition selector.
#[derive(Debug, Clone, Copy, PartialEq, Eq, Structural, Default)]
pub enum MaKind {
    /// Close above the 20-day SMA.
    #[default]
    AboveMa20,
    /// Close above the 60-day SMA.
    AboveMa60,
    /// MA5 > MA20 > MA60.
    BullishAlign,
}

/// Card parameters interpreted by [`LeafKind`].
#[derive(Debug, Clone, PartialEq, Default)]
pub enum LeafParams {
    /// Multi-select values (Industry / Exchange / Board).
    MultiSelect(Vec<String>),
    /// ListYears: unlimited = `None`.
    ListYears(Option<u32>),
    /// MarketCap range in 亿元; `None` side = unbounded.
    MarketCap { min: Option<Real>, max: Option<Real> },
    /// Delisted exclusion.
    Delisted(bool),
    /// MA kind selection.
    Ma(MaKind),
    /// Breakout N-day high window.
    Breakout(u32),
    /// Momentum N-day return bounds.
    Momentum { days: u32, min_pct: Real, max_pct: Real },
    /// VolumeSurge window / multiplier.
    VolumeSurge { days: u32, times: Real },
    /// UpDays consecutive count / min daily gain.
    UpDays { n: u32, min_pct: Real },
    /// Unknown AST shape: the unrecognized node itself, shown read-only.
    Unknown(UnknownShape),
    /// Default: no parameters.
    #[default]
    Empty,
}

/// The node behind an Unknown card: a filter node outside the card
/// templates, or a series condition outside them.
#[derive(Debug, Clone, PartialEq)]
pub enum UnknownShape {
    /// An unrecognized filter node.
    Node(Filter),
    /// An unrecognized series condition.
    Series(SeriesCond),
}

/// A single condition card.
#[derive(Debug, Clone, PartialEq)]
pub struct CondLeaf {
    /// Which condition template this card represents.
    pub kind: LeafKind,
    /// Card parameters interpreted by `kind`.
    pub params: LeafParams,
    /// Negated (`Not` wrapping): the exclude toggle.
    pub negated: bool,
}

/// A nested group of condition items with a boolean operator.
#[derive(Debug, PartialEq)]
pub struct CondGroup {
    /// AND or OR semantics for this group's items.
    pub operator: BoolOp,
    /// The group's children (cards and/or nested groups).
    pub items: Vec<CondItem>,
}

/// One item in a condition group: a card or a nested group.
#[derive(Debug, PartialEq)]
pub enum CondItem {
    /// A single condition card.
    Leaf(CondLeaf),
    /// A nested AND/OR group.
    Group(CondGroup),
}

// ---------------------------------------------------------------------------
// Views
// ---------------------------------------------------------------------------

/// Mathematical view of [`LeafParams`].
pub enum ParamsView {
    MultiSelect(Seq<Seq<char>>),
    ListYears(Option<u32>),
    MarketCap { min: Option<Real>, max: Option<Real> },
    Delisted(bool),
    Ma(MaKind),
    Breakout(u32),
    Momentum { days: u32, min_pct: Real, max_pct: Real },
    VolumeSurge { days: u32, times: Real },
    UpDays { n: u32, min_pct: Real },
    Unknown(ShapeView),
    Empty,
}

/// Mathematical view of an [`UnknownShape`].
pub enum ShapeView {
    Node(FilterView),
    Series(SeriesCond),
}

/// The view of the node behind an Unknown card.
pub open spec fn shape_view(u: UnknownShape) -> ShapeView {
    match u {
        UnknownShape::Node(f) => ShapeView::Node(f@),
        UnknownShape::Series(s) => ShapeView::Series(s),
    }
}

/// Mathematical view of a [`CondLeaf`].
pub struct LeafView {
    pub kind: LeafKind,
    pub params: ParamsView,
    pub negated: bool,
}

/// Mathematical view of a [`CondItem`]; a group is its operator and items.
pub enum ItemView {
    Leaf(LeafView),
    Group(BoolOp, Seq<ItemView>),
}

/// The view of card parameters.
pub open spec fn params_view(p: LeafParams) -> ParamsView {
    match p {
        LeafParams::MultiSelect(v) => ParamsView::MultiSelect(strings_view(v@)),
        LeafParams::ListYears(n) => ParamsView::ListYears(n),
        LeafParams::MarketCap { min, max } => ParamsView::MarketCap { min, max },
        LeafParams::Delisted(b) => ParamsView::Delisted(b),
        LeafParams::Ma(k) => ParamsView::Ma(k),
        LeafParams::Breakout(n) => ParamsView::Breakout(n),
        LeafParams::Momentum { days, min_pct, max_pct } => ParamsView::Momentum {
            days,
            min_pct,
            max_pct,
        },
        LeafParams::VolumeSurge { days, times } => ParamsView::VolumeSurge { days, times },
        LeafParams::UpDays { n, min_pct } => ParamsView::UpDays { n, min_pct },
        LeafParams::Unknown(u) => ParamsView::Unknown(shape_view(u)),
        LeafParams::Empty => ParamsView::Empty,
    }
}

/// The view of a card.
pub open spec fn leaf_view(l: CondLeaf) -> LeafView {
    LeafView { kind: l.kind, params: params_view(l.params), negated: l.negated }
}

/// The view of a card item.
pub open spec fn item_view(it: CondItem) -> ItemView
    decreases it,
{
    match it {
        CondItem::Leaf(l) => ItemView::Leaf(leaf_view(l)),
        CondItem::Group(g) => ItemView::Group(
            g.operator,
            Seq::new(
                g.items@.len(),
                |i: int|
                    if 0 <= i < g.items@.len() {
                        item_view(g.items@[i])
                    } else {
                        ItemView::Group(BoolOp::And, Seq::empty())
                    },
            ),
        ),
    }
}

/// The views of a list of items.
pub open spec fn items_view(s: Seq<CondItem>) -> Seq<ItemView> {
    Seq::new(s.len(), |i: int| item_view(s[i]))
}

impl View for LeafParams {
    type V = ParamsView;

    open spec fn view(&self) -> ParamsView {
        params_view(*self)
    }
}

impl View for CondLeaf {
    type V = LeafView;

    open spec fn view(&self) -> LeafView {
        leaf_view(*self)
    }
}

impl View for CondItem {
    type V = ItemView;

    open spec fn view(&self) -> ItemView {
        item_view(*self)
    }
}

impl View for CondGroup {
    type V = ItemView;

    open spec fn view(&self) -> ItemView {
        ItemView::Group(self.operator, items_view(self.items@))
    }
}

/// The view of a group is its operator and the views of its items.
pub proof fn lemma_group_item_view(g: CondGroup)
    ensures
        item_view(CondItem::Group(g)) == ItemView::Group(g.operator, items_view(g.items@)),
{
    let v = item_view(CondItem::Group(g));
    assert(v is Group);
    assert(v->Group_1.len() == g.items@.len());
    assert(forall|i: int| 0 <= i < g.items@.len() ==> v->Group_1[i] == item_view(g.items@[i]));
    assert(v->Group_1 =~= items_view(g.items@));
}

// ---------------------------------------------------------------------------
// AST -> cards (specification)
// ---------------------------------------------------------------------------

/// A card of the given kind and parameters, not negated.
pub open spec fn plain_leaf(kind: LeafKind, params: ParamsView) -> LeafView {
    LeafView { kind, params, negated: false }
}

/// The card of a metadata constraint.
pub open spec fn meta_leaf(m: MetaView) -> LeafView {
    match m {
        MetaView::Industry(v) => plain_leaf(LeafKind::Industry, ParamsView::MultiSelect(v)),
        MetaView::Exchange(v) => plain_leaf(LeafKind::Exchange, ParamsView::MultiSelect(v)),
        MetaView::Board(v) => plain_leaf(LeafKind::Board, ParamsView::MultiSelect(v)),
        MetaView::ListYears(n) => plain_leaf(LeafKind::ListYears, ParamsView::ListYears(Some(n))),
        MetaView::Delisted(b) => plain_leaf(LeafKind::Delisted, ParamsView::Delisted(b)),
        MetaView::MarketCap { min, max } => plain_leaf(
            LeafKind::MarketCap,
            ParamsView::MarketCap { min, max },
        ),
    }
}

/// `Close > Sma(20)`.
pub open spec fn close_above_sma20() -> SeriesCond {
    SeriesCond::Cmp {
        factor: SeriesFactor::Close,
        op: CmpOp::Gt,
        value: FactorRef::Factor(SeriesFactor::Sma(20)),
    }
}

/// `Close > Sma(60)`.
pub open spec fn close_above_sma60() -> SeriesCond {
    SeriesCond::Cmp {
        factor: SeriesFactor::Close,
        op: CmpOp::Gt,
        value: FactorRef::Factor(SeriesFactor::Sma(60)),
    }
}

/// `Close > NDayHigh(n)`.
pub open spec fn close_above_high(n: u32) -> SeriesCond {
    SeriesCond::Cmp {
        factor: SeriesFactor::Close,
        op: CmpOp::Gt,
        value: FactorRef::Factor(SeriesFactor::NDayHigh(n)),
    }
}

/// `Sma(5) > Sma(20)`, the first half of the bullish alignment.
pub open spec fn sma5_above_sma20() -> SeriesCond {
    SeriesCond::Cmp {
        factor: SeriesFactor::Sma(5),
        op: CmpOp::Gt,
        value: FactorRef::Factor(SeriesFactor::Sma(20)),
    }
}

/// `Sma(20) > Sma(60)`, the second half of the bullish alignment.
pub open spec fn sma20_above_sma60() -> SeriesCond {
    SeriesCond::Cmp {
        factor: SeriesFactor::Sma(20),
        op: CmpOp::Gt,
        value: FactorRef::Factor(SeriesFactor::Sma(60)),
    }
}

/// `ChangePct(days) op Const(bound)`, one half of the momentum pair.
pub open spec fn change_bound(days: u32, op: CmpOp, bound: Real) -> SeriesCond {
    SeriesCond::Cmp {
        factor: SeriesFactor::ChangePct(days),
        op,
        value: FactorRef::Const(bound),
    }
}

/// The card of a series condition (`Unknown` outside the templates).
pub open spec fn series_leaf(s: SeriesCond) -> LeafView {
    if s == close_above_sma20() {
        plain_leaf(LeafKind::Ma, ParamsView::Ma(MaKind::AboveMa20))
    } else if s == close_above_sma60() {
        plain_leaf(LeafKind::Ma, ParamsView::Ma(MaKind::AboveMa60))
    } else {
        match s {
            SeriesCond::Cmp {
                factor: SeriesFactor::Close,
                op: CmpOp::Gt,
                value: FactorRef::Factor(SeriesFactor::NDayHigh(n)),
            } => plain_leaf(LeafKind::Breakout, ParamsView::Breakout(n)),
            SeriesCond::VolumeSurge { days, times } => plain_leaf(
                LeafKind::VolumeSurge,
                ParamsView::VolumeSurge { days, times },
            ),
            SeriesCond::UpDays { n, min_pct } => plain_leaf(
                LeafKind::UpDays,
                ParamsView::UpDays { n, min_pct },
            ),
            _ => plain_leaf(LeafKind::Unknown, ParamsView::Unknown(ShapeView::Series(s))),
        }
    }
}

/// Momentum pair: `[ChangePct(n) >= min, ChangePct(n) <= max]`, `Ge` first.
pub open spec fn momentum_pair(a: FilterView, b: FilterView) -> Option<LeafView> {
    match (a, b) {
        (
            FilterView::Series(
                SeriesCond::Cmp {
                    factor: SeriesFactor::ChangePct(n1),
                    op: CmpOp::Ge,
                    value: FactorRef::Const(min),
                },
            ),
            FilterView::Series(
                SeriesCond::Cmp {
                    factor: SeriesFactor::ChangePct(n2),
                    op: CmpOp::Le,
                    value: FactorRef::Const(max),
                },
            ),
        ) => if n1 == n2 {
            Some(
                plain_leaf(
                    LeafKind::Momentum,
                    ParamsView::Momentum { days: n1, min_pct: min, max_pct: max },
                ),
            )
        } else {
            None
        },
        _ => None,
    }
}

/// Bullish-alignment pair: `[Sma(5) > Sma(20), Sma(20) > Sma(60)]`.
pub open spec fn bullish_pair(a: FilterView, b: FilterView) -> Option<LeafView> {
    if a == FilterView::Series(sma5_above_sma20()) && b == FilterView::Series(
        sma20_above_sma60(),
    ) {
        Some(plain_leaf(LeafKind::Ma, ParamsView::Ma(MaKind::BullishAlign)))
    } else {
        None
    }
}

/// A two-member node that one card represents (momentum first, then bullish).
pub open spec fn pair_leaf(v: Seq<FilterView>) -> Option<LeafView> {
    if v.len() == 2 {
        match momentum_pair(v[0], v[1]) {
            Some(l) => Some(l),
            None => bullish_pair(v[0], v[1]),
        }
    } else {
        None
    }
}

/// The single card a node stands for, if any.
pub open spec fn recognize(f: FilterView) -> Option<LeafView>
    decreases f,
{
    match f {
        FilterView::Meta(m) => Some(meta_leaf(m)),
        FilterView::Series(s) => Some(series_leaf(s)),
        FilterView::And(v) => pair_leaf(v),
        FilterView::Or(_) => None,
        FilterView::Not(inner) => recognize(*inner),
    }
}

/// The summary card of an unrecognized node.
pub open spec fn unknown_leaf_of(f: FilterView) -> LeafView {
    plain_leaf(LeafKind::Unknown, ParamsView::Unknown(ShapeView::Node(f)))
}

/// The card with its negation toggle set.
pub open spec fn negated_leaf(l: LeafView) -> LeafView {
    LeafView { negated: true, ..l }
}

/// The cards that render a filter.
pub open spec fn items_of(f: FilterView) -> Seq<ItemView>
    decreases f, 2int,
{
    match f {
        FilterView::Meta(m) => seq![ItemView::Leaf(meta_leaf(m))],
        FilterView::Series(s) => seq![ItemView::Leaf(series_leaf(s))],
        FilterView::And(v) => and_or_items(BoolOp::And, v),
        FilterView::Or(v) => and_or_items(BoolOp::Or, v),
        FilterView::Not(inner) => match recognize(*inner) {
            Some(l) => seq![ItemView::Leaf(negated_leaf(l))],
            None => seq![ItemView::Leaf(unknown_leaf_of(*inner))],
        },
    }
}

/// The cards of an `And` / `Or` node: nothing when empty, one card for an
/// `And` that is a recognized pair (an `Or` pair stays a group, since the
/// card compiles to `And`), the member's own cards when it has one member,
/// else a group of the members' cards.
pub open spec fn and_or_items(op: BoolOp, v: Seq<FilterView>) -> Seq<ItemView>
    decreases v, 1int,
{
    if v.len() == 0 {
        Seq::empty()
    } else if op == BoolOp::And && pair_leaf(v) is Some {
        seq![ItemView::Leaf(pair_leaf(v)->Some_0)]
    } else if v.len() == 1 {
        items_of(v[0])
    } else {
        seq![ItemView::Group(op, flat_items(v))]
    }
}

/// The concatenated cards of all members.
pub open spec fn flat_items(v: Seq<FilterView>) -> Seq<ItemView>
    decreases v, 0int,
{
    if v.len() == 0 {
        Seq::empty()
    } else {
        flat_items(v.subrange(0, v.len() - 1)) + items_of(v[v.len() - 1])
    }
}

// ---------------------------------------------------------------------------
// Cards -> AST (specification)
// ---------------------------------------------------------------------------

/// The AST node of a card before negation, if the card can be rebuilt.
pub open spec fn leaf_base(l: LeafView) -> Option<FilterView> {
    match (l.kind, l.params) {
        (LeafKind::Industry, ParamsView::MultiSelect(v)) => Some(
            FilterView::Meta(MetaView::Industry(v)),
        ),
        (LeafKind::Exchange, ParamsView::MultiSelect(v)) => Some(
            FilterView::Meta(MetaView::Exchange(v)),
        ),
        (LeafKind::Board, ParamsView::MultiSelect(v)) => Some(
            FilterView::Meta(MetaView::Board(v)),
        ),
        (LeafKind::ListYears, ParamsView::ListYears(n)) => Some(
            FilterView::Meta(
                MetaView::ListYears(
                    match n {
                        Some(k) => k,
                        None => 0,
                    },
                ),
            ),
        ),
        (LeafKind::MarketCap, ParamsView::MarketCap { min, max }) => Some(
            FilterView::Meta(MetaView::MarketCap { min, max }),
        ),
        (LeafKind::Delisted, ParamsView::Delisted(b)) => Some(
            FilterView::Meta(MetaView::Delisted(b)),
        ),
        (LeafKind::Ma, ParamsView::Ma(MaKind::AboveMa20)) => Some(
            FilterView::Series(close_above_sma20()),
        ),
        (LeafKind::Ma, ParamsView::Ma(MaKind::AboveMa60)) => Some(
            FilterView::Series(close_above_sma60()),
        ),
        (LeafKind::Ma, ParamsView::Ma(MaKind::BullishAlign)) => Some(
            FilterView::And(
                seq![
                    FilterView::Series(sma5_above_sma20()),
                    FilterView::Series(sma20_above_sma60()),
                ],
            ),
        ),
        (LeafKind::Breakout, ParamsView::Breakout(n)) => Some(
            FilterView::Series(close_above_high(n)),
        ),
        (LeafKind::Momentum, ParamsView::Momentum { days, min_pct, max_pct }) => Some(
            FilterView::And(
                seq![
                    FilterView::Series(change_bound(days, CmpOp::Ge, min_pct)),
                    FilterView::Series(change_bound(days, CmpOp::Le, max_pct)),
                ],
            ),
        ),
        (LeafKind::VolumeSurge, ParamsView::VolumeSurge { days, times }) => Some(
            FilterView::Series(SeriesCond::VolumeSurge { days, times }),
        ),
        (LeafKind::UpDays, ParamsView::UpDays { n, min_pct }) => Some(
            FilterView::Series(SeriesCond::UpDays { n, min_pct }),
        ),
        _ => None,
    }
}

/// The AST node of a card: its base node, wrapped in `Not` when negated; a
/// card that cannot be rebuilt (Unknown, or kind/params mismatch) is the
/// empty `And`, whatever its negation toggle.
pub open spec fn leaf_filter(l: LeafView) -> FilterView {
    match leaf_base(l) {
        Some(b) => if l.negated {
            FilterView::Not(Box::new(b))
        } else {
            b
        },
        None => FilterView::And(Seq::empty()),
    }
}

/// `And` or `Or` of the given members.
pub open spec fn combine(op: BoolOp, members: Seq<FilterView>) -> FilterView {
    match op {
        BoolOp::And => FilterView::And(members),
        BoolOp::Or => FilterView::Or(members),
    }
}

/// The AST node of a group: empty `And` when empty, the bare member when it
/// has one item, else the operator over the members.
pub open spec fn group_filter(op: BoolOp, items: Seq<ItemView>) -> FilterView
    decreases items,
{
    if items.len() == 0 {
        FilterView::And(Seq::empty())
    } else if items.len() == 1 {
        item_filter(items[0])
    } else {
        combine(
            op,
            Seq::new(
                items.len(),
                |i: int|
                    if 0 <= i < items.len() {
                        item_filter(items[i])
                    } else {
                        FilterView::And(Seq::empty())
                    },
            ),
        )
    }
}

/// The AST node of one item.
pub open spec fn item_filter(it: ItemView) -> FilterView
    decreases it,
{
    match it {
        ItemView::Leaf(l) => leaf_filter(l),
        ItemView::Group(op, items) => group_filter(op, items),
    }
}

// ---------------------------------------------------------------------------
// AST -> cards (implementation)
// ---------------------------------------------------------------------------

/// A card of the given kind, not negated.
fn plain(kind: LeafKind, params: LeafParams) -> (r: CondLeaf)
    ensures
        r.kind == kind,
        r.params == params,
        !r.negated,
{
    CondLeaf { kind, params, negated: false }
}

/// A metadata constraint -> its card.
fn meta_to_leaf(m: &MetaCond) -> (r: CondLeaf)
    ensures
        r@ == meta_leaf(m@),
{
    match m {
        MetaCond::Industry(v) => plain(LeafKind::Industry, LeafParams::MultiSelect(copy_strings(v))),
        MetaCond::Exchange(v) => plain(LeafKind::Exchange, LeafParams::MultiSelect(copy_strings(v))),
        MetaCond::Board(v) => plain(LeafKind::Board, LeafParams::MultiSelect(copy_strings(v))),
        MetaCond::ListYears(n) => plain(LeafKind::ListYears, LeafParams::ListYears(Some(*n))),
        MetaCond::Delisted(b) => plain(LeafKind::Delisted, LeafParams::Delisted(*b)),
        MetaCond::MarketCap { min, max } => plain(
            LeafKind::MarketCap,
            LeafParams::MarketCap { min: *min, max: *max },
        ),
    }
}

/// A series condition -> its card (`Unknown` for shapes outside the templates).
fn series_to_leaf(s: &SeriesCond) -> (r: CondLeaf)
    ensures
        r@ == series_leaf(*s),
{
    match s {
        SeriesCond::Cmp {
            factor: SeriesFactor::Close,
            op: CmpOp::Gt,
            value: FactorRef::Factor(SeriesFactor::Sma(20)),
        } => plain(LeafKind::Ma, LeafParams::Ma(MaKind::AboveMa20)),
        SeriesCond::Cmp {
            factor: SeriesFactor::Close,
            op: CmpOp::Gt,
            value: FactorRef::Factor(SeriesFactor::Sma(60)),
        } => plain(LeafKind::Ma, LeafParams::Ma(MaKind::AboveMa60)),
        SeriesCond::Cmp {
            factor: SeriesFactor::Close,
            op: CmpOp::Gt,
            value: FactorRef::Factor(SeriesFactor::NDayHigh(n)),
        } => plain(LeafKind::Breakout, LeafParams::Breakout(*n)),
        SeriesCond::VolumeSurge { days, times } => plain(
            LeafKind::VolumeSurge,
            LeafParams::VolumeSurge { days: *days, times: *times },
        ),
        SeriesCond::UpDays { n, min_pct } => plain(
            LeafKind::UpDays,
            LeafParams::UpDays { n: *n, min_pct: *min_pct },
        ),
        _ => unknown_leaf_from(s),
    }
}

/// The Unknown summary card of an unrecognized series condition.
fn unknown_leaf_from(s: &SeriesCond) -> (r: CondLeaf)
    ensures
        r@ == plain_leaf(LeafKind::Unknown, ParamsView::Unknown(ShapeView::Series(*s))),
{
    plain(LeafKind::Unknown, LeafParams::Unknown(UnknownShape::Series(*s)))
}

/// The Unknown summary card of an unrecognized filter node.
fn unknown_leaf(f: &Filter) -> (r: CondLeaf)
    ensures
        r@ == unknown_leaf_of(f@),
{
    plain(LeafKind::Unknown, LeafParams::Unknown(UnknownShape::Node(copy_filter(f))))
}

/// The card of a momentum pair, if `members` is one.
fn try_momentum_pair(members: &Vec<Filter>) -> (r: Option<CondLeaf>)
    requires
        members@.len() == 2,
    ensures
        option_leaf_view(r) == momentum_pair(members@[0]@, members@[1]@),
{
    match (&members[0], &members[1]) {
        (
            Filter::Series(
                SeriesCond::Cmp {
                    factor: SeriesFactor::ChangePct(n1),
                    op: CmpOp::Ge,
                    value: FactorRef::Const(min),
                },
            ),
            Filter::Series(
                SeriesCond::Cmp {
                    factor: SeriesFactor::ChangePct(n2),
                    op: CmpOp::Le,
                    value: FactorRef::Const(max),
                },
            ),
        ) => {
            if *n1 == *n2 {
                Some(
                    plain(
                        LeafKind::Momentum,
                        LeafParams::Momentum { days: *n1, min_pct: *min, max_pct: *max },
                    ),
                )
            } else {
                None
            }
        },
        _ => None,
    }
}

/// The card of a bullish-alignment pair, if `members` is one.
fn try_bullish_pair(members: &Vec<Filter>) -> (r: Option<CondLeaf>)
    requires
        members@.len() == 2,
    ensures
        option_leaf_view(r) == bullish_pair(members@[0]@, members@[1]@),
{
    match (&members[0], &members[1]) {
        (
            Filter::Series(
                SeriesCond::Cmp {
                    factor: SeriesFactor::Sma(5),
                    op: CmpOp::Gt,
                    value: FactorRef::Factor(SeriesFactor::Sma(20)),
                },
            ),
            Filter::Series(
                SeriesCond::Cmp {
                    factor: SeriesFactor::Sma(20),
                    op: CmpOp::Gt,
                    value: FactorRef::Factor(SeriesFactor::Sma(60)),
                },
            ),
        ) => Some(plain(LeafKind::Ma, LeafParams::Ma(MaKind::BullishAlign))),
        _ => None,
    }
}

/// The view of an optional card.
pub open spec fn option_leaf_view(o: Option<CondLeaf>) -> Option<LeafView> {
    match o {
        Some(l) => Some(l@),
        None => None,
    }
}

/// The card of a recognized pair node, if `members` is one.
fn try_pair(members: &Vec<Filter>) -> (r: Option<CondLeaf>)
    ensures
        option_leaf_view(r) == pair_leaf(filters_view(members@)),
{
    if members.len() != 2 {
        return None;
    }
    let ghost v = filters_view(members@);
    assert(v[0] == members@[0]@ && v[1] == members@[1]@);
    match try_momentum_pair(members) {
        Some(l) => Some(l),
        None => try_bullish_pair(members),
    }
}

/// Recognize the single card a node stands for (`None` = unrecognized).
fn recognize_leaf(f: &Filter) -> (r: Option<CondLeaf>)
    ensures
        option_leaf_view(r) == recognize(f@),
    decreases f,
{
    match f {
        Filter::Meta(m) => Some(meta_to_leaf(m)),
        Filter::Series(s) => Some(series_to_leaf(s)),
        Filter::And(v) => {
            proof {
                lemma_filter_view_members(*v);
            }
            try_pair(v)
        },
        Filter::Or(_) => None,
        Filter::Not(inner) => recognize_leaf(inner),
    }
}

/// The views of concatenated item lists are the concatenated views.
pub proof fn lemma_items_view_add(a: Seq<CondItem>, b: Seq<CondItem>)
    ensures
        items_view(a + b) == items_view(a) + items_view(b),
{
    assert(items_view(a + b) =~= items_view(a) + items_view(b));
}

/// `flat_items` over one more member appends that member's cards.
proof fn lemma_flat_items_step(s: Seq<FilterView>, i: int)
    requires
        0 <= i < s.len(),
    ensures
        flat_items(s.subrange(0, i + 1)) == flat_items(s.subrange(0, i)) + items_of(s[i]),
{
    let t = s.subrange(0, i + 1);
    assert(t.subrange(0, t.len() - 1) =~= s.subrange(0, i));
    assert(t[t.len() - 1] == s[i]);
}

/// A one-element item list.
fn single_item(it: CondItem) -> (r: Vec<CondItem>)
    ensures
        r@ == seq![it],
        items_view(r@) == seq![item_view(it)],
{
    let mut r: Vec<CondItem> = Vec::new();
    r.push(it);
    assert(r@ =~= seq![it]);
    assert(items_view(r@) =~= seq![item_view(it)]);
    r
}

/// Reverse mapping: filter AST -> card items.
///
/// Recognizes the template shapes, folds single-member `And` / `Or` to the
/// member itself, wraps `Not` into the negation toggle and falls back to an
/// Unknown summary card for unrecognized shapes.
pub fn filter_to_items(f: &Filter) -> (r: Vec<CondItem>)
    ensures
        items_view(r@) == items_of(f@),
    decreases f,
{
    match f {
        Filter::Meta(m) => single_item(CondItem::Leaf(meta_to_leaf(m))),
        Filter::Series(s) => single_item(CondItem::Leaf(series_to_leaf(s))),
        Filter::And(v) => {
            proof {
                lemma_filter_view_members(*v);
            }
            and_or_to_items(BoolOp::And, v)
        },
        Filter::Or(v) => {
            proof {
                lemma_filter_view_members(*v);
            }
            and_or_to_items(BoolOp::Or, v)
        },
        Filter::Not(inner) => match recognize_leaf(inner) {
            Some(leaf) => {
                let mut leaf = leaf;
                leaf.negated = true;
                single_item(CondItem::Leaf(leaf))
            },
            None => single_item(CondItem::Leaf(unknown_leaf(inner))),
        },
    }
}

/// One `And` / `Or` node -> items: nothing when empty, one card for an
/// `And` that is a recognized pair, the member's own items for a single member, otherwise a
/// group of the members' items.
fn and_or_to_items(operator: BoolOp, members: &Vec<Filter>) -> (r: Vec<CondItem>)
    ensures
        items_view(r@) == and_or_items(operator, filters_view(members@)),
    decreases members,
{
    let ghost fv = filters_view(members@);
    if members.len() == 0 {
        let r: Vec<CondItem> = Vec::new();
        assert(items_view(r@) =~= Seq::<ItemView>::empty());
        return r;
    }
    let is_and = match operator {
        BoolOp::And => true,
        BoolOp::Or => false,
    };
    if is_and {
        match try_pair(members) {
            Some(leaf) => {
                return single_item(CondItem::Leaf(leaf));
            },
            None => {},
        }
    }
    if members.len() == 1 {
        assert(fv[0] == members@[0]@);
        return filter_to_items(&members[0]);
    }
    let mut items: Vec<CondItem> = Vec::new();
    let mut i: usize = 0;
    assert(fv.subrange(0, 0) =~= Seq::<FilterView>::empty());
    assert(items_view(items@) =~= Seq::<ItemView>::empty());
    while i < members.len()
        invariant
            fv == filters_view(members@),
            i <= members@.len(),
            items_view(items@) == flat_items(fv.subrange(0, i as int)),
        decreases members@.len() - i,
    {
        let mut sub = filter_to_items(&members[i]);
        proof {
            lemma_flat_items_step(fv, i as int);
            lemma_items_view_add(items@, sub@);
            assert(fv[i as int] == members@[i as int]@);
        }
        items.append(&mut sub);
        i = i + 1;
    }
    assert(fv.subrange(0, members@.len() as int) =~= fv);
    let g = CondGroup { operator, items };
    proof {
        lemma_group_item_view(g);
    }
    single_item(CondItem::Group(g))
}

// ---------------------------------------------------------------------------
// Cards -> AST (implementation)
// ---------------------------------------------------------------------------

/// The empty `And` node.
fn empty_and() -> (r: Filter)
    ensures
        r@ == FilterView::And(Seq::empty()),
{
    let v: Vec<Filter> = Vec::new();
    proof {
        lemma_filter_view_members(v);
        assert(filters_view(v@) =~= Seq::<FilterView>::empty());
    }
    Filter::And(v)
}

/// The `And` node of two members.
fn and_pair(a: Filter, b: Filter) -> (r: Filter)
    ensures
        r@ == FilterView::And(seq![a@, b@]),
{
    let ghost (va, vb) = (a@, b@);
    let mut v: Vec<Filter> = Vec::new();
    v.push(a);
    v.push(b);
    proof {
        lemma_filter_view_members(v);
        assert(filters_view(v@) =~= seq![va, vb]);
    }
    Filter::And(v)
}

/// A series node.
fn series_node(s: SeriesCond) -> (r: Filter)
    ensures
        r@ == FilterView::Series(s),
{
    Filter::Series(s)
}

/// The view of an optional node.
pub open spec fn option_filter_view(o: Option<Filter>) -> Option<FilterView> {
    match o {
        Some(f) => Some(f@),
        None => None,
    }
}

/// The node of a card before negation (`None` when it cannot be rebuilt).
fn leaf_base_node(l: &CondLeaf) -> (r: Option<Filter>)
    ensures
        option_filter_view(r) == leaf_base(l@),
{
    match (&l.kind, &l.params) {
        (LeafKind::Industry, LeafParams::MultiSelect(v)) => Some(
            Filter::Meta(MetaCond::Industry(copy_strings(v))),
        ),
        (LeafKind::Exchange, LeafParams::MultiSelect(v)) => Some(
            Filter::Meta(MetaCond::Exchange(copy_strings(v))),
        ),
        (LeafKind::Board, LeafParams::MultiSelect(v)) => Some(
            Filter::Meta(MetaCond::Board(copy_strings(v))),
        ),
        (LeafKind::ListYears, LeafParams::ListYears(Some(n))) => Some(
            Filter::Meta(MetaCond::ListYears(*n)),
        ),
        // Unlimited = "listed >= 0 years": a no-op constraint that keeps the
        // node expressible.
        (LeafKind::ListYears, LeafParams::ListYears(None)) => Some(
            Filter::Meta(MetaCond::ListYears(0)),
        ),
        (LeafKind::MarketCap, LeafParams::MarketCap { min, max }) => Some(
            Filter::Meta(MetaCond::MarketCap { min: *min, max: *max }),
        ),
        (LeafKind::Delisted, LeafParams::Delisted(b)) => Some(
            Filter::Meta(MetaCond::Delisted(*b)),
        ),
        (LeafKind::Ma, LeafParams::Ma(MaKind::AboveMa20)) => Some(
            series_node(
                SeriesCond::Cmp {
                    factor: SeriesFactor::Close,
                    op: CmpOp::Gt,
                    value: FactorRef::Factor(SeriesFactor::Sma(20)),
                },
            ),
        ),
        (LeafKind::Ma, LeafParams::Ma(MaKind::AboveMa60)) => Some(
            series_node(
                SeriesCond::Cmp {
                    factor: SeriesFactor::Close,
                    op: CmpOp::Gt,
                    value: FactorRef::Factor(SeriesFactor::Sma(60)),
                },
            ),
        ),
        (LeafKind::Ma, LeafParams::Ma(MaKind::BullishAlign)) => Some(
            and_pair(
                series_node(
                    SeriesCond::Cmp {
                        factor: SeriesFactor::Sma(5),
                        op: CmpOp::Gt,
                        value: FactorRef::Factor(SeriesFactor::Sma(20)),
                    },
                ),
                series_node(
                    SeriesCond::Cmp {
                        factor: SeriesFactor::Sma(20),
                        op: CmpOp::Gt,
                        value: FactorRef::Factor(SeriesFactor::Sma(60)),
                    },
                ),
            ),
        ),
        (LeafKind::Breakout, LeafParams::Breakout(n)) => Some(
            series_node(
                SeriesCond::Cmp {
                    factor: SeriesFactor::Close,
                    op: CmpOp::Gt,
                    value: FactorRef::Factor(SeriesFactor::NDayHigh(*n)),
                },
            ),
        ),
        (LeafKind::Momentum, LeafParams::Momentum { days, min_pct, max_pct }) => Some(
            and_pair(
                series_node(
                    SeriesCond::Cmp {
                        factor: SeriesFactor::ChangePct(*days),
                        op: CmpOp::Ge,
                        value: FactorRef::Const(*min_pct),
                    },
                ),
                series_node(
                    SeriesCond::Cmp {
                        factor: SeriesFactor::ChangePct(*days),
                        op: CmpOp::Le,
                        value: FactorRef::Const(*max_pct),
                    },
                ),
            ),
        ),
        (LeafKind::VolumeSurge, LeafParams::VolumeSurge { days, times }) => Some(
            series_node(SeriesCond::VolumeSurge { days: *days, times: *times }),
        ),
        (LeafKind::UpDays, LeafParams::UpDays { n, min_pct }) => Some(
            series_node(SeriesCond::UpDays { n: *n, min_pct: *min_pct }),
        ),
        _ => None,
    }
}

/// Forward mapping: one card -> its filter AST node.
///
/// A negated card is wrapped in `Not`. Unknown cards (and any kind/params
/// mismatch) cannot be rebuilt: they map to the empty `And`, a semantic
/// no-op, whatever their negation toggle.
pub fn leaf_to_filter(l: &CondLeaf) -> (r: Filter)
    ensures
        r@ == leaf_filter(l@),
{
    match leaf_base_node(l) {
        Some(b) => {
            if l.negated {
                Filter::Not(Box::new(b))
            } else {
                b
            }
        },
        None => empty_and(),
    }
}

/// Forward mapping: a group -> its filter AST node.
///
/// An empty group is the empty `And`; a single-item group is that item's
/// node; otherwise the group's operator over its items' nodes.
pub fn group_to_filter(g: &CondGroup) -> (r: Filter)
    ensures
        r@ == group_filter(g.operator, items_view(g.items@)),
{
    items_to_filter(g.operator, &g.items)
}

/// The filter AST node of a group given by its operator and items.
pub fn items_to_filter(operator: BoolOp, items: &Vec<CondItem>) -> (r: Filter)
    ensures
        r@ == group_filter(operator, items_view(items@)),
    decreases items,
{
    let ghost iv = items_view(items@);
    if items.len() == 0 {
        return empty_and();
    }
    if items.len() == 1 {
        assert(iv[0] == item_view(items@[0]));
        return item_to_filter(&items[0]);
    }
    let mut children: Vec<Filter> = Vec::new();
    let mut i: usize = 0;
    while i < items.len()
        invariant
            iv == items_view(items@),
            i <= items@.len(),
            children@.len() == i,
            forall|j: int| 0 <= j < i ==> (#[trigger] children@[j])@ == item_filter(iv[j]),
        decreases items@.len() - i,
    {
        let c = item_to_filter(&items[i]);
        children.push(c);
        i = i + 1;
    }
    let ghost gf = group_filter(operator, iv);
    let ghost members = filters_view(children@);
    proof {
        lemma_filter_view_members(children);
        match operator {
            BoolOp::And => {
                assert(gf is And);
                assert(gf->And_0.len() == iv.len());
                assert(forall|j: int| 0 <= j < iv.len() ==> gf->And_0[j] == item_filter(iv[j]));
                assert(members =~= gf->And_0);
            },
            BoolOp::Or => {
                assert(gf is Or);
                assert(gf->Or_0.len() == iv.len());
                assert(forall|j: int| 0 <= j < iv.len() ==> gf->Or_0[j] == item_filter(iv[j]));
                assert(members =~= gf->Or_0);
            },
        }
    }
    match operator {
        BoolOp::And => Filter::And(children),
        BoolOp::Or => Filter::Or(children),
    }
}

/// One card item -> its filter AST node.
pub fn item_to_filter(item: &CondItem) -> (r: Filter)
    ensures
        r@ == item_filter(item@),
    decreases item,
{
    match item {
        CondItem::Leaf(l) => leaf_to_filter(l),
        CondItem::Group(g) => {
            proof {
                lemma_group_item_view(*g);
            }
            items_to_filter(g.operator, &g.items)
        },
    }
}

// ---------------------------------------------------------------------------
// Copies
// ---------------------------------------------------------------------------

/// A copy of the node behind an Unknown card.
pub fn copy_shape(u: &UnknownShape) -> (r: UnknownShape)
    ensures
        shape_view(r) == shape_view(*u),
{
    match u {
        UnknownShape::Node(f) => UnknownShape::Node(copy_filter(f)),
        UnknownShape::Series(s) => UnknownShape::Series(*s),
    }
}

/// A copy of card parameters.
pub fn copy_params(p: &LeafParams) -> (r: LeafParams)
    ensures
        r@ == p@,
{
    match p {
        LeafParams::MultiSelect(v) => LeafParams::MultiSelect(copy_strings(v)),
        LeafParams::ListYears(n) => LeafParams::ListYears(*n),
        LeafParams::MarketCap { min, max } => LeafParams::MarketCap { min: *min, max: *max },
        LeafParams::Delisted(b) => LeafParams::Delisted(*b),
        LeafParams::Ma(k) => LeafParams::Ma(*k),
        LeafParams::Breakout(n) => LeafParams::Breakout(*n),
        LeafParams::Momentum { days, min_pct, max_pct } => LeafParams::Momentum {
            days: *days,
            min_pct: *min_pct,
            max_pct: *max_pct,
        },
        LeafParams::VolumeSurge { days, times } => LeafParams::VolumeSurge {
            days: *days,
            times: *times,
        },
        LeafParams::UpDays { n, min_pct } => LeafParams::UpDays { n: *n, min_pct: *min_pct },
        LeafParams::Unknown(u) => LeafParams::Unknown(copy_shape(u)),
        LeafParams::Empty => LeafParams::Empty,
    }
}

/// A copy of a card.
pub fn copy_leaf(l: &CondLeaf) -> (r: CondLeaf)
    ensures
        r@ == l@,
{
    CondLeaf { kind: l.kind, params: copy_params(&l.params), negated: l.negated }
}

/// A deep copy of a card item.
pub fn copy_item(it: &CondItem) -> (r: CondItem)
    ensures
        r@ == it@,
    decreases it,
{
    match it {
        CondItem::Leaf(l) => CondItem::Leaf(copy_leaf(l)),
        CondItem::Group(g) => {
            let items = copy_items(&g.items);
            let c = CondGroup { operator: g.operator, items };
            proof {
                lemma_group_item_view(*g);
                lemma_group_item_view(c);
            }
            CondItem::Group(c)
        },
    }
}

/// A deep copy of a list of card items.
pub fn copy_items(v: &Vec<CondItem>) -> (r: Vec<CondItem>)
    ensures
        items_view(r@) == items_view(v@),
    decreases v,
{
    let mut r: Vec<CondItem> = Vec::new();
    let mut i: usize = 0;
    while i < v.len()
        invariant
            i <= v@.len(),
            r@.len() == i,
            forall|j: int| 0 <= j < i ==> item_view(#[trigger] r@[j]) == item_view(v@[j]),
        decreases v@.len() - i,
    {
        r.push(copy_item(&v[i]));
        i = i + 1;
    }
    assert(items_view(r@) =~= items_view(v@));
    r
}

impl Clone for CondItem {
    fn clone(&self) -> (r: Self)
        ensures
            r@ == self@,
    {
        copy_item(self)
    }
}

impl Clone for CondGroup {
    fn clone(&self) -> (r: Self)
        ensures
            r@ == self@,
    {
        CondGroup { operator: self.operator, items: copy_items(&self.items) }
    }
}

impl Default for CondGroup {
    fn default() -> (r: Self)
        ensures
            r@ == ItemView::Group(BoolOp::And, Seq::empty()),
    {
        let g = CondGroup { operator: BoolOp::And, items: Vec::new() };
        assert(items_view(g.items@) =~= Seq::<ItemView>::empty());
        g
    }
}

// ---------------------------------------------------------------------------
// Round-trip laws
// ---------------------------------------------------------------------------

/// A card that the forward mapping rebuilds faithfully: its parameters fit
/// its kind (so it is not Unknown), and a ListYears card carries a bound
/// (the unlimited card becomes `ListYears(0)`, which reads back as 0 years).
pub open spec fn canonical_leaf(l: LeafView) -> bool {
    &&& leaf_base(l) is Some
    &&& !(l.params matches ParamsView::ListYears(None))
}

/// A series condition that one of the series card templates stands for.
pub open spec fn series_in_template(s: SeriesCond) -> bool {
    series_leaf(s).kind != LeafKind::Unknown
}

/// A node that a single non-negated card stands for.
pub open spec fn leaf_shaped(f: FilterView) -> bool {
    match f {
        FilterView::Meta(_) => true,
        FilterView::Series(s) => series_in_template(s),
        FilterView::And(v) => pair_leaf(v) is Some,
        _ => false,
    }
}

/// A filter in card shape: every node is a card template (optionally
/// negated) or an `And` / `Or` of at least two card-shaped members.
pub open spec fn card_shaped(f: FilterView) -> bool
    decreases f,
{
    match f {
        FilterView::Meta(_) => true,
        FilterView::Series(s) => series_in_template(s),
        FilterView::Not(inner) => leaf_shaped(*inner),
        FilterView::And(v) => pair_leaf(v) is Some || (v.len() >= 2 && forall|i: int|
            0 <= i < v.len() ==> card_shaped(#[trigger] v[i])),
        FilterView::Or(v) => v.len() >= 2 && forall|i: int|
            0 <= i < v.len() ==> card_shaped(#[trigger] v[i]),
    }
}

/// The non-negated card of a leaf-shaped node rebuilds that node.
proof fn lemma_leaf_shaped_rebuilds(f: FilterView)
    requires
        leaf_shaped(f),
    ensures
        recognize(f) is Some,
        !recognize(f)->Some_0.negated,
        leaf_base(recognize(f)->Some_0) == Some(f),
{
    match f {
        FilterView::Meta(m) => {},
        FilterView::Series(s) => {},
        FilterView::And(v) => {
            if momentum_pair(v[0], v[1]) is Some {
                assert(v =~= seq![v[0], v[1]]);
            } else {
                assert(v =~= seq![v[0], v[1]]);
            }
        },
        _ => {},
    }
}

/// A card-shaped node renders as exactly one item, and that item rebuilds it.
proof fn lemma_card_shaped_single_item(f: FilterView)
    requires
        card_shaped(f),
    ensures
        items_of(f).len() == 1,
        item_filter(items_of(f)[0]) == f,
    decreases f, 1int,
{
    match f {
        FilterView::Meta(m) => {
            lemma_leaf_shaped_rebuilds(f);
        },
        FilterView::Series(s) => {
            lemma_leaf_shaped_rebuilds(f);
        },
        FilterView::Not(inner) => {
            lemma_leaf_shaped_rebuilds(*inner);
        },
        FilterView::And(v) => {
            if pair_leaf(v) is Some {
                lemma_leaf_shaped_rebuilds(f);
            } else {
                lemma_flat_items_rebuild(v);
                let fl = flat_items(v);
                let gf = group_filter(BoolOp::And, fl);
                assert(gf is And);
                assert(gf->And_0.len() == v.len());
                assert(forall|j: int| 0 <= j < v.len() ==> gf->And_0[j] == item_filter(fl[j]));
                assert(gf->And_0 =~= v);
            }
        },
        FilterView::Or(v) => {
            lemma_flat_items_rebuild(v);
            let fl = flat_items(v);
            let gf = group_filter(BoolOp::Or, fl);
            assert(gf is Or);
            assert(gf->Or_0.len() == v.len());
            assert(forall|j: int| 0 <= j < v.len() ==> gf->Or_0[j] == item_filter(fl[j]));
            assert(gf->Or_0 =~= v);
        },
    }
}

/// The concatenated items of card-shaped members hold one item per member,
/// each rebuilding its member.
proof fn lemma_flat_items_rebuild(v: Seq<FilterView>)
    requires
        forall|i: int| 0 <= i < v.len() ==> card_shaped(#[trigger] v[i]),
    ensures
        flat_items(v).len() == v.len(),
        forall|j: int| 0 <= j < v.len() ==> item_filter(#[trigger] flat_items(v)[j]) == v[j],
    decreases v, 0int,
{
    if v.len() > 0 {
        let init = v.subrange(0, v.len() - 1);
        assert forall|i: int| 0 <= i < init.len() implies card_shaped(#[trigger] init[i]) by {
            assert(init[i] == v[i]);
        }
        lemma_flat_items_rebuild(init);
        lemma_card_shaped_single_item(v[v.len() - 1]);
        let fl = flat_items(v);
        assert(fl == flat_items(init) + items_of(v[v.len() - 1]));
        assert forall|j: int| 0 <= j < v.len() implies item_filter(#[trigger] fl[j]) == v[j] by {
            if j < v.len() - 1 {
                assert(fl[j] == flat_items(init)[j]);
                assert(init[j] == v[j]);
            }
        }
    }
}

/// Law (AST -> cards -> AST): a card-shaped filter rendered as the cards of
/// an AND root group compiles back to the same filter.
pub proof fn lemma_filter_round_trip(f: FilterView)
    requires
        card_shaped(f),
    ensures
        group_filter(BoolOp::And, items_of(f)) == f,
{
    lemma_card_shaped_single_item(f);
}

/// Law (cards -> AST -> cards): a canonical card compiles to a node that
/// renders back as exactly that card.
pub proof fn lemma_leaf_round_trip(l: LeafView)
    requires
        canonical_leaf(l),
    ensures
        items_of(leaf_filter(l)) == seq![ItemView::Leaf(l)],
{
    let b = leaf_base(l)->Some_0;
    assert(leaf_shaped(b)) by {
        match b {
            FilterView::And(v) => {
                assert(v.len() == 2);
            },
            _ => {},
        }
    }
    lemma_leaf_shaped_rebuilds(b);
    let r = recognize(b)->Some_0;
    assert(r == LeafView { negated: false, ..l });
    if l.negated {
        assert(negated_leaf(r) == l);
    } else {
        assert(card_shaped(b));
        lemma_card_shaped_single_item(b);
    }
}

/// Law (folding): a single-member `And` or `Or` renders exactly as its member.
pub proof fn lemma_single_member_folds(x: FilterView)
    ensures
        items_of(FilterView::And(seq![x])) == items_of(x),
        items_of(FilterView::Or(seq![x])) == items_of(x),
{
    assert(seq![x][0] == x);
}

/// Law: the empty filter renders as no cards, and no cards compile to the
/// empty filter.
pub proof fn lemma_empty_filter()
    ensures
        items_of(FilterView::And(Seq::empty())) == Seq::<ItemView>::empty(),
        group_filter(BoolOp::And, Seq::empty()) == FilterView::And(Seq::empty()),
        group_filter(BoolOp::Or, Seq::empty()) == FilterView::And(Seq::empty()),
{
}

/// A metadata constraint becomes one plain (not negated) card of its own
/// kind that carries the constraint's own values: the selected industries,
/// exchanges or boards, the listing-years bound, the delisted flag, the
/// market-cap range.
pub proof fn lemma_meta_constraint_card(m: MetaView)
    ensures
        items_of(FilterView::Meta(m)) == seq![
            ItemView::Leaf(
                match m {
                    MetaView::Industry(v) => (LeafView {
                        kind: LeafKind::Industry,
                        params: ParamsView::MultiSelect(v),
                        negated: false,
                    }),
                    MetaView::Exchange(v) => (LeafView {
                        kind: LeafKind::Exchange,
                        params: ParamsView::MultiSelect(v),
                        negated: false,
                    }),
                    MetaView::Board(v) => (LeafView {
                        kind: LeafKind::Board,
                        params: ParamsView::MultiSelect(v),
                        negated: false,
                    }),
                    MetaView::ListYears(n) => (LeafView {
                        kind: LeafKind::ListYears,
                        params: ParamsView::ListYears(Some(n)),
                        negated: false,
                    }),
                    MetaView::Delisted(b) => (LeafView {
                        kind: LeafKind::Delisted,
                        params: ParamsView::Delisted(b),
                        negated: false,
                    }),
                    MetaView::MarketCap { min, max } => (LeafView {
                        kind: LeafKind::MarketCap,
                        params: ParamsView::MarketCap { min, max },
                        negated: false,
                    }),
                },
            ),
        ],
{
}

/// A metadata card compiles to the constraint with the card's own values
/// (an unlimited listing-years card to a bound of 0), wrapped in `Not` when
/// the card is negated.
pub proof fn lemma_meta_card_compiles(
    v: Seq<Seq<char>>,
    n: u32,
    b: bool,
    min: Option<Real>,
    max: Option<Real>,
    negated: bool,
)
    ensures
        ({
            let wrap = |x: FilterView|
                if negated {
                    FilterView::Not(Box::new(x))
                } else {
                    x
                };
            &&& leaf_filter((LeafView { kind: LeafKind::Industry, params: ParamsView::MultiSelect(v), negated }))
                == wrap(FilterView::Meta(MetaView::Industry(v)))
            &&& leaf_filter((LeafView { kind: LeafKind::Exchange, params: ParamsView::MultiSelect(v), negated }))
                == wrap(FilterView::Meta(MetaView::Exchange(v)))
            &&& leaf_filter((LeafView { kind: LeafKind::Board, params: ParamsView::MultiSelect(v), negated }))
                == wrap(FilterView::Meta(MetaView::Board(v)))
            &&& leaf_filter((LeafView { kind: LeafKind::ListYears, params: ParamsView::ListYears(Some(n)), negated }))
                == wrap(FilterView::Meta(MetaView::ListYears(n)))
            &&& leaf_filter((LeafView { kind: LeafKind::ListYears, params: ParamsView::ListYears(None), negated }))
                == wrap(FilterView::Meta(MetaView::ListYears(0)))
            &&& leaf_filter((LeafView { kind: LeafKind::Delisted, params: ParamsView::Delisted(b), negated }))
                == wrap(FilterView::Meta(MetaView::Delisted(b)))
            &&& leaf_filter((LeafView { kind: LeafKind::MarketCap, params: ParamsView::MarketCap { min, max }, negated }))
                == wrap(FilterView::Meta(MetaView::MarketCap { min, max }))
        }),
{
}

/// A plain card of the given kind and parameters, as one item.
pub open spec fn one_card(kind: LeafKind, params: ParamsView, negated: bool) -> Seq<ItemView> {
    seq![ItemView::Leaf((LeafView { kind, params, negated }))]
}

/// Each series template becomes the card of its kind carrying the template's
/// own values: `Close > SMA20` and `Close > SMA60` the MA card, `Close >
/// NDayHigh(n)` the breakout card of `n` days, a volume surge and a run of
/// up days their cards with the same window and bound, the pair
/// `[ChangePct(d) >= lo, ChangePct(d) <= hi]` the momentum card `(d, lo,
/// hi)`, the pair `[SMA5 > SMA20, SMA20 > SMA60]` the bullish-alignment
/// card.
pub proof fn lemma_series_template_cards(n: u32, days: u32, times: Real, lo: Real, hi: Real)
    ensures
        items_of(
            FilterView::Series(
                SeriesCond::Cmp {
                    factor: SeriesFactor::Close,
                    op: CmpOp::Gt,
                    value: FactorRef::Factor(SeriesFactor::Sma(20)),
                },
            ),
        ) == one_card(LeafKind::Ma, ParamsView::Ma(MaKind::AboveMa20), false),
        items_of(
            FilterView::Series(
                SeriesCond::Cmp {
                    factor: SeriesFactor::Close,
                    op: CmpOp::Gt,
                    value: FactorRef::Factor(SeriesFactor::Sma(60)),
                },
            ),
        ) == one_card(LeafKind::Ma, ParamsView::Ma(MaKind::AboveMa60), false),
        items_of(
            FilterView::Series(
                SeriesCond::Cmp {
                    factor: SeriesFactor::Close,
                    op: CmpOp::Gt,
                    value: FactorRef::Factor(SeriesFactor::NDayHigh(n)),
                },
            ),
        ) == one_card(LeafKind::Breakout, ParamsView::Breakout(n), false),
        items_of(FilterView::Series(SeriesCond::VolumeSurge { days, times })) == one_card(
            LeafKind::VolumeSurge,
            ParamsView::VolumeSurge { days, times },
            false,
        ),
        items_of(FilterView::Series(SeriesCond::UpDays { n, min_pct: lo })) == one_card(
            LeafKind::UpDays,
            ParamsView::UpDays { n, min_pct: lo },
            false,
        ),
        items_of(
            FilterView::And(
                seq![
                    FilterView::Series(
                        SeriesCond::Cmp {
                            factor: SeriesFactor::ChangePct(days),
                            op: CmpOp::Ge,
                            value: FactorRef::Const(lo),
                        },
                    ),
                    FilterView::Series(
                        SeriesCond::Cmp {
                            factor: SeriesFactor::ChangePct(days),
                            op: CmpOp::Le,
                            value: FactorRef::Const(hi),
                        },
                    ),
                ],
            ),
        ) == one_card(LeafKind::Momentum, ParamsView::Momentum { days, min_pct: lo, max_pct: hi }, false),
        items_of(
            FilterView::And(
                seq![
                    FilterView::Series(
                        SeriesCond::Cmp {
                            factor: SeriesFactor::Sma(5),
                            op: CmpOp::Gt,
                            value: FactorRef::Factor(SeriesFactor::Sma(20)),
                        },
                    ),
                    FilterView::Series(
                        SeriesCond::Cmp {
                            factor: SeriesFactor::Sma(20),
                            op: CmpOp::Gt,
                            value: FactorRef::Factor(SeriesFactor::Sma(60)),
                        },
                    ),
                ],
            ),
        ) == one_card(LeafKind::Ma, ParamsView::Ma(MaKind::BullishAlign), false),
{
    assert(close_above_sma20() != close_above_sma60());
}

/// Each series card compiles to its template with the card's own values,
/// wrapped in `Not` when the card is negated.
pub proof fn lemma_series_card_compiles(
    n: u32,
    days: u32,
    times: Real,
    lo: Real,
    hi: Real,
    negated: bool,
)
    ensures
        ({
            let wrap = |x: FilterView|
                if negated {
                    FilterView::Not(Box::new(x))
                } else {
                    x
                };
            &&& leaf_filter((LeafView { kind: LeafKind::Ma, params: ParamsView::Ma(MaKind::AboveMa20), negated }))
                == wrap(
                FilterView::Series(
                    SeriesCond::Cmp {
                        factor: SeriesFactor::Close,
                        op: CmpOp::Gt,
                        value: FactorRef::Factor(SeriesFactor::Sma(20)),
                    },
                ),
            )
            &&& leaf_filter((LeafView { kind: LeafKind::Ma, params: ParamsView::Ma(MaKind::AboveMa60), negated }))
                == wrap(
                FilterView::Series(
                    SeriesCond::Cmp {
                        factor: SeriesFactor::Close,
                        op: CmpOp::Gt,
                        value: FactorRef::Factor(SeriesFactor::Sma(60)),
                    },
                ),
            )
            &&& leaf_filter((LeafView { kind: LeafKind::Breakout, params: ParamsView::Breakout(n), negated }))
                == wrap(
                FilterView::Series(
                    SeriesCond::Cmp {
                        factor: SeriesFactor::Close,
                        op: CmpOp::Gt,
                        value: FactorRef::Factor(SeriesFactor::NDayHigh(n)),
                    },
                ),
            )
            &&& leaf_filter((LeafView { kind: LeafKind::VolumeSurge, params: ParamsView::VolumeSurge { days, times }, negated }))
                == wrap(FilterView::Series(SeriesCond::VolumeSurge { days, times }))
            &&& leaf_filter((LeafView { kind: LeafKind::UpDays, params: ParamsView::UpDays { n, min_pct: lo }, negated }))
                == wrap(FilterView::Series(SeriesCond::UpDays { n, min_pct: lo }))
            &&& leaf_filter((LeafView { kind: LeafKind::Momentum, params: ParamsView::Momentum { days, min_pct: lo, max_pct: hi }, negated }))
                == wrap(
                FilterView::And(
                    seq![
                        FilterView::Series(
                            SeriesCond::Cmp {
                                factor: SeriesFactor::ChangePct(days),
                                op: CmpOp::Ge,
                                value: FactorRef::Const(lo),
                            },
                        ),
                        FilterView::Series(
                            SeriesCond::Cmp {
                                factor: SeriesFactor::ChangePct(days),
                                op: CmpOp::Le,
                                value: FactorRef::Const(hi),
                            },
                        ),
                    ],
                ),
            )
            &&& leaf_filter((LeafView { kind: LeafKind::Ma, params: ParamsView::Ma(MaKind::BullishAlign), negated }))
                == wrap(
                FilterView::And(
                    seq![
                        FilterView::Series(
                            SeriesCond::Cmp {
                                factor: SeriesFactor::Sma(5),
                                op: CmpOp::Gt,
                                value: FactorRef::Factor(SeriesFactor::Sma(20)),
                            },
                        ),
                        FilterView::Series(
                            SeriesCond::Cmp {
                                factor: SeriesFactor::Sma(20),
                                op: CmpOp::Gt,
                                value: FactorRef::Factor(SeriesFactor::Sma(60)),
                            },
                        ),
                    ],
                ),
            )
        }),
{
}

/// Negating a metadata or series constraint gives the same single card with
/// its exclude toggle set.
pub proof fn lemma_negation_sets_toggle(f: FilterView)
    requires
        f is Meta || f is Series,
    ensures
        items_of(f).len() == 1,
        items_of(f)[0] is Leaf,
        !items_of(f)[0]->Leaf_0.negated,
        items_of(FilterView::Not(Box::new(f))) == seq![
            ItemView::Leaf((LeafView { negated: true, ..items_of(f)[0]->Leaf_0 })),
        ],
{
}

/// A node outside the card templates becomes one read-only Unknown card
/// holding that node: a series condition outside the templates (a counted
/// comparison) as itself, and a negated `Or`, which no card expresses, as
/// the `Or` node.
pub proof fn lemma_unknown_cards(
    factor: SeriesFactor,
    op: CmpOp,
    value: FactorRef,
    window: u32,
    at_least: u32,
    members: Seq<FilterView>,
)
    ensures
        items_of(
            FilterView::Series(SeriesCond::Count { factor, op, value, window, at_least }),
        ) == one_card(
            LeafKind::Unknown,
            ParamsView::Unknown(
                ShapeView::Series(SeriesCond::Count { factor, op, value, window, at_least }),
            ),
            false,
        ),
        items_of(FilterView::Not(Box::new(FilterView::Or(members)))) == one_card(
            LeafKind::Unknown,
            ParamsView::Unknown(ShapeView::Node(FilterView::Or(members))),
            false,
        ),
{
}

/// Groups: an `Or` of two nodes, or an `And` of three, becomes one group of
/// that operator holding the members' cards in order.
pub proof fn lemma_group_of_members(a: FilterView, b: FilterView, c: FilterView)
    ensures
        items_of(FilterView::Or(seq![a, b])) == seq![
            ItemView::Group(BoolOp::Or, items_of(a) + items_of(b)),
        ],
        items_of(FilterView::And(seq![a, b, c])) == seq![
            ItemView::Group(BoolOp::And, items_of(a) + items_of(b) + items_of(c)),
        ],
{
    let v2 = seq![a, b];
    let v3 = seq![a, b, c];
    assert(v2.subrange(0, 1) =~= seq![a]);
    assert(v3.subrange(0, 2) =~= v2);
    assert(seq![a].subrange(0, 0) =~= Seq::<FilterView>::empty());
    assert(flat_items(Seq::<FilterView>::empty()) =~= Seq::<ItemView>::empty());
    assert(seq![a][0] == a);
    assert(flat_items(seq![a]) =~= items_of(a));
    assert(v2[1] == b);
    assert(v3[2] == c);
    assert(flat_items(v2) =~= items_of(a) + items_of(b));
    assert(flat_items(v3) =~= items_of(a) + items_of(b) + items_of(c));
}

} // verus!

use compass::filter::{CmpOp, FactorRef, Filter, MetaCond, Real, SeriesCond, SeriesFactor};
use compass::screener_builder::{
    filter_to_items, group_to_filter, leaf_to_filter, BoolOp, CondGroup, CondItem, CondLeaf,
    LeafKind, LeafParams, MaKind, UnknownShape,
};

fn r(x: f64) -> Real {
    Real { bits: x.to_bits() }
}

fn sole_leaf(items: &[CondItem]) -> &CondLeaf {
    assert_eq!(items.len(), 1, "expected exactly one card, got: {items:?}");
    match &items[0] {
        CondItem::Leaf(leaf) => leaf,
        CondItem::Group(g) => panic!("expected a leaf card, got a group: {g:?}"),
    }
}

fn cmp(factor: SeriesFactor, op: CmpOp, value: FactorRef) -> Filter {
    Filter::Series(SeriesCond::Cmp { factor, op, value })
}

fn bullish_pair() -> Filter {
    Filter::And(vec![
        cmp(SeriesFactor::Sma(5), CmpOp::Gt, FactorRef::Factor(SeriesFactor::Sma(20))),
        cmp(SeriesFactor::Sma(20), CmpOp::Gt, FactorRef::Factor(SeriesFactor::Sma(60))),
    ])
}

fn momentum_pair(days: u32, min_pct: f64, max_pct: f64) -> Filter {
    Filter::And(vec![
        cmp(SeriesFactor::ChangePct(days), CmpOp::Ge, FactorRef::Const(r(min_pct))),
        cmp(SeriesFactor::ChangePct(days), CmpOp::Le, FactorRef::Const(r(max_pct))),
    ])
}

// --- recognition of every template shape ---------------------------------

#[test]
fn from_industries_recognized_as_industry_card() {
    let f = Filter::Meta(MetaCond::Industry(vec!["白酒".to_string(), "银行".to_string()]));
    let items = filter_to_items(&f);
    let leaf = sole_leaf(&items);
    assert_eq!(leaf.kind, LeafKind::Industry);
    assert_eq!(
        leaf.params,
        LeafParams::MultiSelect(vec!["白酒".to_string(), "银行".to_string()])
    );
    assert!(!leaf.negated, "From shapes are never negated");
}

#[test]
fn from_exchanges_recognized_as_exchange_card() {
    let f = Filter::Meta(MetaCond::Exchange(vec!["SH".to_string(), "SZ".to_string()]));
    let items = filter_to_items(&f);
    let leaf = sole_leaf(&items);
    assert_eq!(leaf.kind, LeafKind::Exchange);
    assert_eq!(
        leaf.params,
        LeafParams::MultiSelect(vec!["SH".to_string(), "SZ".to_string()])
    );
    assert!(!leaf.negated);
}

#[test]
fn from_boards_recognized_as_board_card() {
    let f = Filter::Meta(MetaCond::Board(vec!["主板".to_string()]));
    let items = filter_to_items(&f);
    let leaf = sole_leaf(&items);
    assert_eq!(leaf.kind, LeafKind::Board);
    assert_eq!(leaf.params, LeafParams::MultiSelect(vec!["主板".to_string()]));
    assert!(!leaf.negated);
}

#[test]
fn from_list_years_recognized_as_list_years_card() {
    let items = filter_to_items(&Filter::Meta(MetaCond::ListYears(3)));
    let leaf = sole_leaf(&items);
    assert_eq!(leaf.kind, LeafKind::ListYears);
    assert_eq!(leaf.params, LeafParams::ListYears(Some(3)));
    assert!(!leaf.negated);
}

#[test]
fn from_market_cap_recognized_as_market_cap_card() {
    let f = Filter::Meta(MetaCond::MarketCap { min: Some(r(100.0)), max: None });
    let items = filter_to_items(&f);
    let leaf = sole_leaf(&items);
    assert_eq!(leaf.kind, LeafKind::MarketCap);
    assert_eq!(
        leaf.params,
        LeafParams::MarketCap {
            min: Some(r(100.0)),
            max: None,
        }
    );
    assert!(!leaf.negated);
}

#[test]
fn from_exclude_delisted_recognized_as_delisted_card() {
    let items = filter_to_items(&Filter::Meta(MetaCond::Delisted(false)));
    let leaf = sole_leaf(&items);
    assert_eq!(leaf.kind, LeafKind::Delisted);
    assert!(!leaf.negated);
}

#[test]
fn from_ma_above_ma20_recognized_as_ma_card() {
    let f = cmp(SeriesFactor::Close, CmpOp::Gt, FactorRef::Factor(SeriesFactor::Sma(20)));
    let items = filter_to_items(&f);
    let leaf = sole_leaf(&items);
    assert_eq!(leaf.kind, LeafKind::Ma);
    assert_eq!(leaf.params, LeafParams::Ma(MaKind::AboveMa20));
    assert!(!leaf.negated);
}

#[test]
fn from_ma_above_ma60_recognized_as_ma_card() {
    let f = cmp(SeriesFactor::Close, CmpOp::Gt, FactorRef::Factor(SeriesFactor::Sma(60)));
    let items = filter_to_items(&f);
    let leaf = sole_leaf(&items);
    assert_eq!(leaf.kind, LeafKind::Ma);
    assert_eq!(leaf.params, LeafParams::Ma(MaKind::AboveMa60));
    assert!(!leaf.negated);
}

#[test]
fn from_ma_bullish_recognized_as_ma_card() {
    let items = filter_to_items(&bullish_pair());
    let leaf = sole_leaf(&items);
    assert_eq!(leaf.kind, LeafKind::Ma);
    assert_eq!(leaf.params, LeafParams::Ma(MaKind::BullishAlign));
    assert!(!leaf.negated);
}

#[test]
fn from_breakout_recognized_as_breakout_card() {
    let f = cmp(SeriesFactor::Close, CmpOp::Gt, FactorRef::Factor(SeriesFactor::NDayHigh(60)));
    let items = filter_to_items(&f);
    let leaf = sole_leaf(&items);
    assert_eq!(leaf.kind, LeafKind::Breakout);
    assert_eq!(leaf.params, LeafParams::Breakout(60));
    assert!(!leaf.negated);
}

#[test]
fn from_momentum_recognized_as_momentum_card() {
    let items = filter_to_items(&momentum_pair(30, -5.0, 50.0));
    let leaf = sole_leaf(&items);
    assert_eq!(leaf.kind, LeafKind::Momentum);
    assert_eq!(
        leaf.params,
        LeafParams::Momentum {
            days: 30,
            min_pct: r(-5.0),
            max_pct: r(50.0),
        }
    );
    assert!(!leaf.negated);
}

#[test]
fn from_volume_recognized_as_volume_surge_card() {
    let f = Filter::Series(SeriesCond::VolumeSurge { days: 10, times: r(1.5) });
    let items = filter_to_items(&f);
    let leaf = sole_leaf(&items);
    assert_eq!(leaf.kind, LeafKind::VolumeSurge);
    assert_eq!(leaf.params, LeafParams::VolumeSurge { days: 10, times: r(1.5) });
    assert!(!leaf.negated);
}

// --- forward mapping ---------------------------------------------------------

fn leaf(kind: LeafKind, params: LeafParams) -> CondLeaf {
    CondLeaf { kind, params, negated: false }
}

#[test]
fn leaf_industry_builds_meta_industry() {
    let l = leaf(LeafKind::Industry, LeafParams::MultiSelect(vec!["白酒".to_string()]));
    assert_eq!(
        leaf_to_filter(&l),
        Filter::Meta(MetaCond::Industry(vec!["白酒".to_string()]))
    );
}

#[test]
fn leaf_exchange_builds_meta_exchange() {
    let l = leaf(
        LeafKind::Exchange,
        LeafParams::MultiSelect(vec!["SH".to_string(), "SZ".to_string()]),
    );
    assert_eq!(
        leaf_to_filter(&l),
        Filter::Meta(MetaCond::Exchange(vec!["SH".to_string(), "SZ".to_string()]))
    );
}

#[test]
fn leaf_board_builds_meta_board() {
    let l = leaf(LeafKind::Board, LeafParams::MultiSelect(vec!["主板".to_string()]));
    assert_eq!(
        leaf_to_filter(&l),
        Filter::Meta(MetaCond::Board(vec!["主板".to_string()]))
    );
}

#[test]
fn leaf_list_years_builds_meta_list_years() {
    let l = leaf(LeafKind::ListYears, LeafParams::ListYears(Some(3)));
    assert_eq!(leaf_to_filter(&l), Filter::Meta(MetaCond::ListYears(3)));
}

#[test]
fn leaf_market_cap_builds_meta_market_cap() {
    let l = leaf(
        LeafKind::MarketCap,
        LeafParams::MarketCap { min: Some(r(100.0)), max: None },
    );
    assert_eq!(
        leaf_to_filter(&l),
        Filter::Meta(MetaCond::MarketCap { min: Some(r(100.0)), max: None })
    );
}

#[test]
fn leaf_ma_above_ma20_builds_close_gt_sma20() {
    let l = leaf(LeafKind::Ma, LeafParams::Ma(MaKind::AboveMa20));
    assert_eq!(
        leaf_to_filter(&l),
        cmp(SeriesFactor::Close, CmpOp::Gt, FactorRef::Factor(SeriesFactor::Sma(20)))
    );
}

#[test]
fn leaf_ma_above_ma60_builds_close_gt_sma60() {
    let l = leaf(LeafKind::Ma, LeafParams::Ma(MaKind::AboveMa60));
    assert_eq!(
        leaf_to_filter(&l),
        cmp(SeriesFactor::Close, CmpOp::Gt, FactorRef::Factor(SeriesFactor::Sma(60)))
    );
}

#[test]
fn leaf_ma_bullish_builds_alignment_pair() {
    let l = leaf(LeafKind::Ma, LeafParams::Ma(MaKind::BullishAlign));
    assert_eq!(leaf_to_filter(&l), bullish_pair());
}

#[test]
fn leaf_breakout_builds_close_gt_n_day_high() {
    let l = leaf(LeafKind::Breakout, LeafParams::Breakout(60));
    assert_eq!(
        leaf_to_filter(&l),
        cmp(SeriesFactor::Close, CmpOp::Gt, FactorRef::Factor(SeriesFactor::NDayHigh(60)))
    );
}

#[test]
fn leaf_momentum_builds_bounds_pair() {
    let l = leaf(
        LeafKind::Momentum,
        LeafParams::Momentum { days: 30, min_pct: r(-5.0), max_pct: r(50.0) },
    );
    assert_eq!(leaf_to_filter(&l), momentum_pair(30, -5.0, 50.0));
}

#[test]
fn leaf_volume_surge_builds_series() {
    let l = leaf(LeafKind::VolumeSurge, LeafParams::VolumeSurge { days: 10, times: r(1.5) });
    assert_eq!(
        leaf_to_filter(&l),
        Filter::Series(SeriesCond::VolumeSurge { days: 10, times: r(1.5) })
    );
}

#[test]
fn leaf_up_days_builds_series() {
    let l = leaf(LeafKind::UpDays, LeafParams::UpDays { n: 3, min_pct: r(1.0) });
    assert_eq!(
        leaf_to_filter(&l),
        Filter::Series(SeriesCond::UpDays { n: 3, min_pct: r(1.0) })
    );
}

// --- round trips -------------------------------------------------------------

fn root_of(f: &Filter) -> CondGroup {
    CondGroup { operator: BoolOp::And, items: filter_to_items(f) }
}

#[test]
fn multi_member_query_round_trips_structurally() {
    let f = Filter::And(vec![
        Filter::Meta(MetaCond::Industry(vec!["白酒".to_string()])),
        bullish_pair(),
        momentum_pair(20, 0.0, 100.0),
        Filter::Meta(MetaCond::Delisted(false)),
    ]);
    assert_eq!(
        group_to_filter(&root_of(&f)),
        f,
        "multi-member filter must round-trip structurally (cards → AST == input)"
    );
}

#[test]
fn bare_delisted_leaf_round_trips() {
    let f = Filter::Meta(MetaCond::Delisted(false));
    let items = filter_to_items(&f);
    let leaf = sole_leaf(&items);
    assert_eq!(leaf.kind, LeafKind::Delisted);
    assert!(!leaf.negated);
    assert_eq!(leaf_to_filter(leaf), f);
}

#[test]
fn bare_volume_surge_leaf_round_trips() {
    let f = Filter::Series(SeriesCond::VolumeSurge { days: 10, times: r(1.5) });
    let items = filter_to_items(&f);
    let leaf = sole_leaf(&items);
    assert_eq!(leaf.kind, LeafKind::VolumeSurge);
    assert_eq!(leaf_to_filter(leaf), f);
}

#[test]
fn and_group_round_trips() {
    let f = Filter::And(vec![
        Filter::Meta(MetaCond::Industry(vec!["白酒".to_string()])),
        Filter::Series(SeriesCond::VolumeSurge { days: 10, times: r(1.5) }),
    ]);
    assert_eq!(group_to_filter(&root_of(&f)), f);
}

#[test]
fn or_group_round_trips() {
    let f = Filter::Or(vec![
        Filter::Meta(MetaCond::Industry(vec!["白酒".to_string()])),
        Filter::Meta(MetaCond::Exchange(vec!["SH".to_string()])),
    ]);
    assert_eq!(group_to_filter(&root_of(&f)), f);
}

#[test]
fn nested_two_level_round_trips() {
    let f = Filter::And(vec![
        Filter::Or(vec![
            Filter::Meta(MetaCond::Industry(vec!["a".to_string()])),
            Filter::Series(SeriesCond::VolumeSurge { days: 5, times: r(3.0) }),
        ]),
        Filter::Not(Box::new(Filter::Meta(MetaCond::Industry(vec!["b".to_string()])))),
    ]);
    assert_eq!(group_to_filter(&root_of(&f)), f);
}

#[test]
fn nested_three_level_round_trips() {
    let f = Filter::And(vec![
        Filter::Or(vec![
            Filter::And(vec![
                Filter::Meta(MetaCond::Industry(vec!["a".to_string()])),
                Filter::Meta(MetaCond::Board(vec!["主板".to_string()])),
            ]),
            Filter::Series(SeriesCond::VolumeSurge { days: 5, times: r(3.0) }),
        ]),
        Filter::Meta(MetaCond::Industry(vec!["b".to_string()])),
    ]);
    assert_eq!(group_to_filter(&root_of(&f)), f);
}

#[test]
fn not_wrapped_leaf_is_negated_and_round_trips() {
    let f = Filter::Not(Box::new(Filter::Meta(MetaCond::Industry(vec![]))));
    let items = filter_to_items(&f);
    let leaf = sole_leaf(&items);
    assert_eq!(leaf.kind, LeafKind::Industry);
    assert!(leaf.negated, "Not-wrapped shape must set the negated toggle");
    assert_eq!(leaf_to_filter(leaf), f);
}

#[test]
fn unknown_shape_produces_summary_card_without_panic() {
    let f = Filter::Series(SeriesCond::Count {
        factor: SeriesFactor::DayPct,
        op: CmpOp::Gt,
        value: FactorRef::Const(r(0.0)),
        window: 10,
        at_least: 5,
    });
    let items = filter_to_items(&f);
    let leaf = sole_leaf(&items);
    assert_eq!(leaf.kind, LeafKind::Unknown);
    assert!(
        matches!(leaf.params, LeafParams::Unknown(_)),
        "Unknown card carries a summary"
    );
}

#[test]
fn empty_filter_produces_no_items_without_panic() {
    let items = filter_to_items(&Filter::And(Vec::new()));
    assert!(items.is_empty(), "empty filter must yield no cards, got: {items:?}");
}

#[test]
fn single_member_and_folds_to_bare_card_shape() {
    let bare = Filter::Meta(MetaCond::Industry(vec!["白酒".to_string()]));
    let wrapped = Filter::And(vec![bare.clone()]);
    let items_bare = filter_to_items(&bare);
    let items_wrapped = filter_to_items(&wrapped);
    assert_eq!(items_wrapped, items_bare);
    assert_eq!(items_wrapped.len(), 1, "fold must yield one card, got: {items_wrapped:?}");
}

fn is_sole_momentum(items: &[CondItem]) -> bool {
    items.len() == 1
        && matches!(
            &items[0],
            CondItem::Leaf(CondLeaf { kind: LeafKind::Momentum, .. })
        )
}

#[test]
fn momentum_pair_with_different_days_is_not_combined() {
    let f = Filter::And(vec![
        cmp(SeriesFactor::ChangePct(20), CmpOp::Ge, FactorRef::Const(r(0.0))),
        cmp(SeriesFactor::ChangePct(30), CmpOp::Le, FactorRef::Const(r(100.0))),
    ]);
    let items = filter_to_items(&f);
    assert!(!items.is_empty(), "an And of two conditions must yield cards, got: {items:?}");
    assert!(
        !is_sole_momentum(&items),
        "different-n Cmps must not combine into one momentum card"
    );
}

#[test]
fn momentum_pair_with_reversed_ops_is_not_combined() {
    let f = Filter::And(vec![
        cmp(SeriesFactor::ChangePct(30), CmpOp::Le, FactorRef::Const(r(50.0))),
        cmp(SeriesFactor::ChangePct(30), CmpOp::Ge, FactorRef::Const(r(-5.0))),
    ]);
    let items = filter_to_items(&f);
    assert!(!items.is_empty(), "an And of two conditions must yield cards, got: {items:?}");
    assert!(
        !is_sole_momentum(&items),
        "reversed Le/Ge order must not combine into one momentum card"
    );
}

#[test]
fn or_shaped_momentum_pair_stays_a_group_and_round_trips() {
    let f = Filter::Or(vec![
        cmp(SeriesFactor::ChangePct(30), CmpOp::Ge, FactorRef::Const(r(-5.0))),
        cmp(SeriesFactor::ChangePct(30), CmpOp::Le, FactorRef::Const(r(50.0))),
    ]);
    let items = filter_to_items(&f);
    assert_eq!(items.len(), 1);
    assert!(
        matches!(&items[0], CondItem::Group(CondGroup { operator: BoolOp::Or, items }) if items.len() == 2),
        "an Or pair must stay an Or group, got: {items:?}"
    );
    assert!(!is_sole_momentum(&items), "an Or pair is not a momentum card");
    let bullish_or = Filter::Or(match bullish_pair() {
        Filter::And(v) => v,
        _ => unreachable!(),
    });
    let items = filter_to_items(&bullish_or);
    assert!(
        matches!(&items[0], CondItem::Group(CondGroup { operator: BoolOp::Or, .. })),
        "an Or of the bullish pair stays an Or group, got: {items:?}"
    );
    // the And forms still fold into one card each
    assert!(is_sole_momentum(&filter_to_items(&momentum_pair(30, -5.0, 50.0))));
}

#[test]
fn unknown_card_carries_the_unrecognized_series_condition() {
    let cond = SeriesCond::Count {
        factor: SeriesFactor::DayPct,
        op: CmpOp::Gt,
        value: FactorRef::Const(r(0.0)),
        window: 10,
        at_least: 5,
    };
    let items = filter_to_items(&Filter::Series(cond));
    let leaf = sole_leaf(&items);
    assert_eq!(leaf.params, LeafParams::Unknown(UnknownShape::Series(cond)));
    assert!(!leaf.negated);
}

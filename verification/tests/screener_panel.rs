use compass::filter::{CmpOp, FactorRef, Filter, MetaCond, Real, SeriesCond, SeriesFactor};
use compass::screener::{
    default_root_cards, leaf_kind_label, llm_can_submit, llm_merge_into_root, selectable_kinds,
    LlmRequestState, ScreenerPanel,
};
use compass::screener_builder::{BoolOp, CondGroup, CondItem, CondLeaf, LeafKind, LeafParams, MaKind};

fn panel_with_form() -> ScreenerPanel {
    ScreenerPanel::new(None, false)
}

fn bullish_pair() -> Filter {
    Filter::And(vec![
        Filter::Series(SeriesCond::Cmp {
            factor: SeriesFactor::Sma(5),
            op: CmpOp::Gt,
            value: FactorRef::Factor(SeriesFactor::Sma(20)),
        }),
        Filter::Series(SeriesCond::Cmp {
            factor: SeriesFactor::Sma(20),
            op: CmpOp::Gt,
            value: FactorRef::Factor(SeriesFactor::Sma(60)),
        }),
    ])
}

#[test]
fn new_builder_seeds_default_six_cards_matching_query_contract() {
    let panel = panel_with_form();
    assert_eq!(panel.builder_root.len(), 6, "default root group seeds 6 base cards");
    match panel.build_filter() {
        Filter::And(nodes) => assert!(
            nodes.contains(&Filter::Meta(MetaCond::Delisted(false))),
            "exclude-delisted defaults checked → Meta(Delisted(false)) present"
        ),
        other => panic!("default 6 cards must compile to an And root, got {other:?}"),
    }
}

#[test]
fn build_filter_reflects_builder_state() {
    let mut panel = panel_with_form();
    match &mut panel.builder_root[0] {
        CondItem::Leaf(leaf) => {
            leaf.params = LeafParams::MultiSelect(vec!["白酒".to_string()]);
        }
        _ => panic!("card 0 must be a leaf"),
    }
    panel.builder_root.push(CondItem::Leaf(CondLeaf {
        kind: LeafKind::Ma,
        params: LeafParams::Ma(MaKind::BullishAlign),
        negated: false,
    }));
    panel.builder_root.push(CondItem::Leaf(CondLeaf {
        kind: LeafKind::Breakout,
        params: LeafParams::Breakout(120),
        negated: false,
    }));
    match panel.build_filter() {
        Filter::And(nodes) => {
            assert!(nodes.contains(&Filter::Meta(MetaCond::Industry(vec!["白酒".to_string()]))));
            assert!(nodes.contains(&Filter::Series(SeriesCond::Cmp {
                factor: SeriesFactor::Close,
                op: CmpOp::Gt,
                value: FactorRef::Factor(SeriesFactor::NDayHigh(120)),
            })));
            assert!(nodes.contains(&bullish_pair()));
        }
        other => panic!("expected And root, got {other:?}"),
    }
}

#[test]
fn restore_seeds_builder_cards_from_query() {
    let restored = Filter::And(vec![
        Filter::Meta(MetaCond::Industry(vec!["银行".to_string()])),
        bullish_pair(),
        Filter::Meta(MetaCond::Delisted(false)),
    ]);
    let panel = ScreenerPanel::new(Some(&restored), false);
    assert_eq!(panel.builder_root.len(), 1, "multi-member restore seeds a root group");
    match &panel.builder_root[0] {
        CondItem::Group(group) => {
            assert_eq!(group.items.len(), 3);
            let industry = group
                .items
                .iter()
                .find_map(|item| match item {
                    CondItem::Leaf(leaf) if leaf.kind == LeafKind::Industry => Some(leaf),
                    _ => None,
                })
                .expect("industry card");
            assert_eq!(industry.params, LeafParams::MultiSelect(vec!["银行".to_string()]));
            let ma = group
                .items
                .iter()
                .find_map(|item| match item {
                    CondItem::Leaf(leaf) if leaf.kind == LeafKind::Ma => Some(leaf),
                    _ => None,
                })
                .expect("ma card");
            assert_eq!(ma.params, LeafParams::Ma(MaKind::BullishAlign));
        }
        _ => panic!("expected a nested root group, got {:?}", panel.builder_root[0]),
    }
    // the restored cards compile back to the restored filter
    assert_eq!(panel.build_filter(), restored);
}

#[test]
fn builder_multi_select_cards_are_independent() {
    let mut panel = panel_with_form();
    match &mut panel.builder_root[0] {
        CondItem::Leaf(leaf) => {
            leaf.params = LeafParams::MultiSelect(vec!["银行".to_string()]);
        }
        _ => panic!("card 0 must be a leaf"),
    }
    match &mut panel.builder_root[1] {
        CondItem::Leaf(leaf) => {
            leaf.params = LeafParams::MultiSelect(vec!["SH".to_string()]);
        }
        _ => panic!("card 1 must be a leaf"),
    }
    match panel.build_filter() {
        Filter::And(nodes) => {
            assert!(nodes.contains(&Filter::Meta(MetaCond::Industry(vec!["银行".to_string()]))));
            assert!(nodes.contains(&Filter::Meta(MetaCond::Exchange(vec!["SH".to_string()]))));
            assert!(
                nodes.contains(&Filter::Meta(MetaCond::Board(vec![]))),
                "board card stays untouched"
            );
        }
        other => panic!("expected And root, got {other:?}"),
    }
}

#[test]
fn restore_of_default_shapes_seeds_default_cards() {
    for f in [Filter::Meta(MetaCond::Delisted(false)), Filter::And(vec![])] {
        let panel = ScreenerPanel::new(Some(&f), true);
        assert_eq!(panel.builder_root, default_root_cards());
        assert_eq!(panel.builder_root_operator, BoolOp::And);
        assert!(panel.llm_enabled);
    }
    let single = Filter::Meta(MetaCond::ListYears(5));
    let panel = ScreenerPanel::new(Some(&single), false);
    assert_eq!(panel.builder_root.len(), 1, "single-member restore folds to a flat card");
    assert_eq!(panel.build_filter(), single);
}

#[test]
fn selectable_kinds_and_labels() {
    let kinds = selectable_kinds();
    assert_eq!(kinds.len(), 11);
    assert!(!kinds.contains(&LeafKind::Unknown));
    assert_eq!(leaf_kind_label(LeafKind::Industry), "screener.industry");
    assert_eq!(leaf_kind_label(LeafKind::UpDays), "screener.builder.cond_up_days");
    assert_eq!(leaf_kind_label(LeafKind::Unknown), "screener.builder.unknown_shape");
}

#[test]
fn llm_merge_splices_and_members_into_and_root() {
    let mut root = default_root_cards();
    let generated = Filter::And(vec![
        Filter::Meta(MetaCond::Industry(vec!["白酒".to_string()])),
        Filter::Series(SeriesCond::UpDays { n: 5, min_pct: Real { bits: 3.0f64.to_bits() } }),
    ]);
    llm_merge_into_root(&mut root, BoolOp::And, generated);
    assert_eq!(root.len(), 8, "the two members become peer cards");
    assert_eq!(&root[..6], &default_root_cards()[..], "existing cards stay");
}

#[test]
fn llm_merge_keeps_group_under_or_root() {
    let mut root = Vec::new();
    let generated = Filter::And(vec![
        Filter::Meta(MetaCond::Industry(vec!["白酒".to_string()])),
        Filter::Meta(MetaCond::ListYears(3)),
    ]);
    llm_merge_into_root(&mut root, BoolOp::Or, generated);
    assert_eq!(root.len(), 1);
    assert!(matches!(&root[0], CondItem::Group(CondGroup { operator: BoolOp::And, .. })));
}

#[test]
fn consume_llm_result_waits_for_loading_to_end() {
    let mut panel = ScreenerPanel::new(None, true);
    let pending = Some(Filter::Meta(MetaCond::ListYears(3)));
    let rest = panel.consume_llm_result(true, pending);
    assert_eq!(rest, Some(Filter::Meta(MetaCond::ListYears(3))));
    assert_eq!(panel.builder_root.len(), 6);
    let rest = panel.consume_llm_result(false, rest);
    assert_eq!(rest, None);
    assert_eq!(panel.builder_root.len(), 7);
    let rest = panel.consume_llm_result(false, None);
    assert_eq!(rest, None);
    assert_eq!(panel.builder_root.len(), 7);
}

#[test]
fn llm_submit_needs_text_and_idle() {
    assert!(llm_can_submit("最近5天每天涨超3%", false));
    assert!(!llm_can_submit("最近5天每天涨超3%", true));
    assert!(!llm_can_submit("  \n ", false));
    assert!(!llm_can_submit("", false));
}

#[test]
fn llm_path_stale_response_is_dropped_after_cancel() {
    let mut st = LlmRequestState::new();
    let seq = st.submit();
    assert_eq!(seq, 1);
    assert!(st.loading);
    st.cancel();
    assert!(!st.loading);
    assert_eq!(st.seq, 2);
    let r = st.receive(seq, Some(Filter::Meta(MetaCond::ListYears(1))), None);
    assert!(r.is_none(), "cancelled response must be dropped by the seq guard");
    assert!(!st.loading);
    // the latest request's response is delivered
    let seq = st.submit();
    let r = st.receive(seq, None, Some("boom".to_string()));
    assert!(r.is_none());
    assert_eq!(st.error.as_deref(), Some("boom"));
    assert!(!st.loading);
}

use compass::messages::{RunLlmRequest, RunLlmResponse};

#[test]
fn llm_generate_click_sends_request_with_typed_prompt() {
    let mut st = LlmRequestState::new();
    assert_eq!(st.request("   "), None, "a blank prompt sends nothing");
    let req = st.request("最近5天每天涨超3%").expect("generate click must send RunLlmRequest");
    assert_eq!(
        req,
        RunLlmRequest { prompt: "最近5天每天涨超3%".to_string(), seq: 1 }
    );
    assert!(st.loading);
    assert_eq!(st.request("again"), None, "nothing is sent while loading");
    let f = st.receive_response(RunLlmResponse {
        filter: Some(Filter::Meta(MetaCond::ListYears(2))),
        error: None,
        seq: 1,
    });
    assert_eq!(f, Some(Filter::Meta(MetaCond::ListYears(2))));
    assert!(!st.loading);
    assert_eq!(st.error, None);
}

//! The screener panel's condition-builder state: seeding the root group
//! from a restored filter, compiling it for a run, merging an LLM-generated
//! filter into it, and the request/response bookkeeping of the LLM entry.

use vstd::prelude::*;

use crate::filter::{lemma_filter_view_members, Filter, FilterView, MetaCond, MetaView};
use crate::screener_builder::{
    card_shaped, lemma_filter_round_trip,
    filter_to_items, group_filter, item_view, items_of, items_to_filter, items_view, lemma_group_item_view,
    item_filter, lemma_items_view_add, plain_leaf, BoolOp, CondGroup, CondItem, CondLeaf, ItemView,
    LeafKind, LeafParams, LeafView, ParamsView,
};
use crate::messages::{RunLlmRequest, RunLlmResponse};
use crate::text::trimmed;
use vstd::string::StrSliceExecFns;

verus! {

/// The card kinds offered by the type dropdown and the add menu, in menu
/// order (Unknown is read-only and never offered).
pub open spec fn selectable_kinds_spec() -> Seq<LeafKind> {
    seq![
        LeafKind::Industry,
        LeafKind::Exchange,
        LeafKind::Board,
        LeafKind::ListYears,
        LeafKind::MarketCap,
        LeafKind::Delisted,
        LeafKind::Ma,
        LeafKind::Breakout,
        LeafKind::Momentum,
        LeafKind::VolumeSurge,
        LeafKind::UpDays,
    ]
}

/// The card kinds offered by the type dropdown and the add menu.
pub fn selectable_kinds() -> (r: Vec<LeafKind>)
    ensures
        r@ == selectable_kinds_spec(),
{
    let mut r: Vec<LeafKind> = Vec::new();
    r.push(LeafKind::Industry);
    r.push(LeafKind::Exchange);
    r.push(LeafKind::Board);
    r.push(LeafKind::ListYears);
    r.push(LeafKind::MarketCap);
    r.push(LeafKind::Delisted);
    r.push(LeafKind::Ma);
    r.push(LeafKind::Breakout);
    r.push(LeafKind::Momentum);
    r.push(LeafKind::VolumeSurge);
    r.push(LeafKind::UpDays);
    assert(r@ =~= selectable_kinds_spec());
    r
}

/// The i18n key of a card kind's label.
pub open spec fn leaf_kind_label_key(kind: LeafKind) -> Seq<char> {
    match kind {
        LeafKind::Industry => "screener.industry"@,
        LeafKind::Exchange => "screener.exchange"@,
        LeafKind::Board => "screener.board"@,
        LeafKind::ListYears => "screener.list_years"@,
        LeafKind::MarketCap => "screener.market_cap"@,
        LeafKind::Delisted => "screener.exclude_delisted"@,
        LeafKind::Ma => "screener.ma"@,
        LeafKind::Breakout => "screener.breakout"@,
        LeafKind::Momentum => "screener.momentum"@,
        LeafKind::VolumeSurge => "screener.volume"@,
        LeafKind::UpDays => "screener.builder.cond_up_days"@,
        LeafKind::Unknown => "screener.builder.unknown_shape"@,
    }
}

/// I18n key for a card kind's display label.
pub fn leaf_kind_label(kind: LeafKind) -> (r: &'static str)
    ensures
        r@ == leaf_kind_label_key(kind),
{
    match kind {
        LeafKind::Industry => "screener.industry",
        LeafKind::Exchange => "screener.exchange",
        LeafKind::Board => "screener.board",
        LeafKind::ListYears => "screener.list_years",
        LeafKind::MarketCap => "screener.market_cap",
        LeafKind::Delisted => "screener.exclude_delisted",
        LeafKind::Ma => "screener.ma",
        LeafKind::Breakout => "screener.breakout",
        LeafKind::Momentum => "screener.momentum",
        LeafKind::VolumeSurge => "screener.volume",
        LeafKind::UpDays => "screener.builder.cond_up_days",
        LeafKind::Unknown => "screener.builder.unknown_shape",
    }
}

/// The six base cards of a fresh builder: industry / exchange / board
/// (nothing selected), listing years (unlimited), market cap (unbounded) and
/// the delisted card (unchecked).
pub open spec fn default_root_spec() -> Seq<ItemView> {
    seq![
        ItemView::Leaf(plain_leaf(LeafKind::Industry, ParamsView::MultiSelect(Seq::empty()))),
        ItemView::Leaf(plain_leaf(LeafKind::Exchange, ParamsView::MultiSelect(Seq::empty()))),
        ItemView::Leaf(plain_leaf(LeafKind::Board, ParamsView::MultiSelect(Seq::empty()))),
        ItemView::Leaf(plain_leaf(LeafKind::ListYears, ParamsView::ListYears(None))),
        ItemView::Leaf(
            plain_leaf(LeafKind::MarketCap, ParamsView::MarketCap { min: None, max: None }),
        ),
        ItemView::Leaf(plain_leaf(LeafKind::Delisted, ParamsView::Delisted(false))),
    ]
}

/// A card item of the given kind and parameters, not negated.
fn card(kind: LeafKind, params: LeafParams) -> (r: CondItem)
    ensures
        r == CondItem::Leaf(CondLeaf { kind, params, negated: false }),
{
    CondItem::Leaf(CondLeaf { kind, params, negated: false })
}

/// The six base cards of a fresh builder.
pub fn default_root_cards() -> (r: Vec<CondItem>)
    ensures
        items_view(r@) == default_root_spec(),
{
    let mut r: Vec<CondItem> = Vec::new();
    let e1: Vec<String> = Vec::new();
    let e2: Vec<String> = Vec::new();
    let e3: Vec<String> = Vec::new();
    proof {
        assert(e1@.map_values(|s: String| s@) =~= Seq::<Seq<char>>::empty());
        assert(e2@.map_values(|s: String| s@) =~= Seq::<Seq<char>>::empty());
        assert(e3@.map_values(|s: String| s@) =~= Seq::<Seq<char>>::empty());
    }
    r.push(card(LeafKind::Industry, LeafParams::MultiSelect(e1)));
    r.push(card(LeafKind::Exchange, LeafParams::MultiSelect(e2)));
    r.push(card(LeafKind::Board, LeafParams::MultiSelect(e3)));
    r.push(card(LeafKind::ListYears, LeafParams::ListYears(None)));
    r.push(card(LeafKind::MarketCap, LeafParams::MarketCap { min: None, max: None }));
    r.push(card(LeafKind::Delisted, LeafParams::Delisted(false)));
    assert(items_view(r@) =~= default_root_spec());
    r
}

/// The root cards seeded from a restored filter: the default six cards when
/// nothing is restored or the restored filter is the default empty shape
/// (`Delisted(false)` alone, or the empty `And`), otherwise the filter's
/// own cards.
pub open spec fn restore_items(restore: Option<FilterView>) -> Seq<ItemView> {
    match restore {
        None => default_root_spec(),
        Some(f) => if f == FilterView::Meta(MetaView::Delisted(false)) || f == FilterView::And(
            Seq::empty(),
        ) {
            default_root_spec()
        } else {
            items_of(f)
        },
    }
}

/// The cards that merging a generated filter appends to the root: the
/// members of its AND group when both it and the root are AND (so
/// "A and B and C" stay peer cards), otherwise its own cards.
pub open spec fn merged_items(root_op: BoolOp, generated: FilterView) -> Seq<ItemView> {
    let its = items_of(generated);
    if root_op == BoolOp::And && its.len() == 1 && its[0] is Group && its[0]->Group_0
        == BoolOp::And {
        its[0]->Group_1
    } else {
        its
    }
}

/// Merge a generated filter into the root card list (never removing or
/// replacing existing cards).
pub fn llm_merge_into_root(root_items: &mut Vec<CondItem>, root_op: BoolOp, generated: Filter)
    ensures
        items_view(final(root_items)@) == items_view(old(root_items)@) + merged_items(
            root_op,
            generated@,
        ),
{
    let mut items = filter_to_items(&generated);
    let ghost its = items_of(generated@);
    if root_op == BoolOp::And && items.len() == 1 {
        let ghost before = items@;
        let first = items.pop().unwrap();
        assert(item_view(first) == its[0]) by {
            assert(before =~= seq![first]);
            assert(items_view(before)[0] == item_view(first));
        }
        match first {
            CondItem::Group(g) => {
                proof {
                    lemma_group_item_view(g);
                }
                if g.operator == BoolOp::And {
                    let mut inner = g.items;
                    proof {
                        lemma_items_view_add(root_items@, inner@);
                    }
                    root_items.append(&mut inner);
                } else {
                    let it = CondItem::Group(g);
                    proof {
                        lemma_items_view_add(root_items@, seq![it]);
                        assert(items_view(seq![it]) =~= its);
                    }
                    root_items.push(it);
                    assert(root_items@ =~= old(root_items)@ + seq![it]);
                }
            },
            CondItem::Leaf(l) => {
                let it = CondItem::Leaf(l);
                proof {
                    lemma_items_view_add(root_items@, seq![it]);
                    assert(items_view(seq![it]) =~= its);
                }
                root_items.push(it);
                assert(root_items@ =~= old(root_items)@ + seq![it]);
            },
        }
    } else {
        proof {
            lemma_items_view_add(root_items@, items@);
        }
        root_items.append(&mut items);
    }
}

/// The condition-builder state of the screener panel.
pub struct ScreenerPanel {
    /// Root group items.
    pub builder_root: Vec<CondItem>,
    /// Root group boolean operator.
    pub builder_root_operator: BoolOp,
    /// Whether the natural-language entry is offered (an API key is configured).
    pub llm_enabled: bool,
}

/// The view of an optional filter reference.
pub open spec fn restore_view(restore: Option<&Filter>) -> Option<FilterView> {
    match restore {
        Some(f) => Some(f@),
        None => None,
    }
}

/// The view of an optional filter.
pub open spec fn pending_view(p: Option<Filter>) -> Option<FilterView> {
    match p {
        Some(f) => Some(f@),
        None => None,
    }
}

impl ScreenerPanel {
    /// A builder seeded from the restored filter, with an AND root.
    pub fn new(restore: Option<&Filter>, llm_enabled: bool) -> (r: Self)
        ensures
            items_view(r.builder_root@) == restore_items(restore_view(restore)),
            r.builder_root_operator == BoolOp::And,
            r.llm_enabled == llm_enabled,
    {
        let builder_root = match restore {
            None => default_root_cards(),
            Some(f) => match f {
                Filter::Meta(MetaCond::Delisted(false)) => default_root_cards(),
                Filter::And(v) => {
                    proof {
                        lemma_filter_view_members(*v);
                    }
                    if v.len() == 0 {
                        assert(f@ == FilterView::And(Seq::empty())) by {
                            assert(crate::filter::filters_view(v@) =~= Seq::<FilterView>::empty());
                        }
                        default_root_cards()
                    } else {
                        filter_to_items(f)
                    }
                },
                _ => filter_to_items(f),
            },
        };
        ScreenerPanel { builder_root, builder_root_operator: BoolOp::And, llm_enabled }
    }

    /// Compile the builder cards into the filter AST (the run contract).
    pub fn build_filter(&self) -> (r: Filter)
        ensures
            r@ == group_filter(self.builder_root_operator, items_view(self.builder_root@)),
    {
        items_to_filter(self.builder_root_operator, &self.builder_root)
    }

    /// Merge a pending generated filter into the root once generation has
    /// finished. Returns what stays pending: everything while still loading,
    /// nothing afterwards.
    pub fn consume_llm_result(&mut self, loading: bool, pending: Option<Filter>) -> (rest:
        Option<Filter>)
        ensures
            loading ==> pending_view(rest) == pending_view(pending) && items_view(
                final(self).builder_root@,
            ) == items_view(old(self).builder_root@),
            !loading ==> rest is None && items_view(final(self).builder_root@) == match pending {
                Some(g) => items_view(old(self).builder_root@) + merged_items(
                    old(self).builder_root_operator,
                    g@,
                ),
                None => items_view(old(self).builder_root@),
            },
            final(self).builder_root_operator == old(self).builder_root_operator,
            final(self).llm_enabled == old(self).llm_enabled,
    {
        if loading {
            return pending;
        }
        match pending {
            Some(generated) => {
                llm_merge_into_root(&mut self.builder_root, self.builder_root_operator, generated);
                None
            },
            None => None,
        }
    }
}

/// Whether the natural-language entry may submit: a non-blank prompt and no
/// generation in flight.
pub fn llm_can_submit(input: &str, loading: bool) -> (r: bool)
    ensures
        r == (crate::text::trim(input@).len() > 0 && !loading),
{
    let t = trimmed(input);
    t.unicode_len() > 0 && !loading
}

/// The LLM entry's request bookkeeping: the latest request sequence number,
/// whether a generation is in flight, and the last error.
pub struct LlmRequestState {
    /// Latest request sequence: bumped on every send and on cancel, so that
    /// stale responses are dropped.
    pub seq: u64,
    /// A generation is in flight.
    pub loading: bool,
    /// Last generation error, if any.
    pub error: Option<String>,
}

impl LlmRequestState {
    /// No request sent yet.
    pub fn new() -> (r: Self)
        ensures
            r.seq == 0,
            !r.loading,
            r.error is None,
    {
        LlmRequestState { seq: 0, loading: false, error: None }
    }

    /// Start a request: bump the sequence, set loading, clear the error.
    /// Returns the sequence number the request carries.
    pub fn submit(&mut self) -> (seq: u64)
        requires
            old(self).seq < u64::MAX,
        ensures
            seq == old(self).seq + 1,
            final(self).seq == seq,
            final(self).loading,
            final(self).error is None,
    {
        self.seq = self.seq + 1;
        self.loading = true;
        self.error = None;
        self.seq
    }

    /// Send the typed request when it may be sent (non-blank, nothing in
    /// flight): a new request carrying the next sequence number. Otherwise
    /// nothing changes.
    pub fn request(&mut self, prompt: &str) -> (r: Option<RunLlmRequest>)
        requires
            old(self).seq < u64::MAX,
        ensures
            (crate::text::trim(prompt@).len() > 0 && !old(self).loading) <==> r is Some,
            r is None ==> *final(self) == *old(self),
            r matches Some(req) ==> req.prompt@ == prompt@ && req.seq == old(self).seq + 1
                && final(self).seq == req.seq && final(self).loading && final(self).error is None,
    {
        if llm_can_submit(prompt, self.loading) {
            let seq = self.submit();
            Some(RunLlmRequest { prompt: crate::text::owned(prompt), seq })
        } else {
            None
        }
    }

    /// A response arrives: handled as [`LlmRequestState::receive`].
    pub fn receive_response(&mut self, resp: RunLlmResponse) -> (r: Option<Filter>)
        ensures
            receive_step(
                *old(self),
                resp.seq,
                pending_view(resp.filter),
                resp.error,
                *final(self),
                pending_view(r),
            ),
    {
        self.receive(resp.seq, resp.filter, resp.error)
    }

    /// Cancel the request in flight (Esc): bump the sequence so its response
    /// is dropped, stop loading, clear the error. Nothing happens when no
    /// request is in flight.
    pub fn cancel(&mut self)
        requires
            old(self).seq < u64::MAX,
        ensures
            cancel_step(*old(self), *final(self)),
    {
        if self.loading {
            self.seq = self.seq + 1;
            self.loading = false;
            self.error = None;
        }
    }

    /// A response arrives for request `seq`. A stale response (any sequence
    /// but the latest) changes nothing and yields nothing; the latest one
    /// stops loading, records its error and yields its filter to merge.
    pub fn receive(&mut self, seq: u64, filter: Option<Filter>, error: Option<String>) -> (r:
        Option<Filter>)
        ensures
            receive_step(*old(self), seq, pending_view(filter), error, *final(self), pending_view(r)),
    {
        if seq != self.seq {
            return None;
        }
        self.loading = false;
        self.error = error;
        filter
    }
}

/// What a cancel does: with a request in flight, the sequence moves on,
/// loading stops and the error clears; otherwise nothing changes.
pub open spec fn cancel_step(before: LlmRequestState, after: LlmRequestState) -> bool {
    if before.loading {
        after.seq == before.seq + 1 && !after.loading && after.error is None
    } else {
        after == before
    }
}

/// What receiving a response for request `seq` does: a stale one yields
/// nothing and changes nothing; the latest one yields its filter, stops
/// loading and records its error.
pub open spec fn receive_step(
    before: LlmRequestState,
    seq: u64,
    filter: Option<FilterView>,
    error: Option<String>,
    after: LlmRequestState,
    yielded: Option<FilterView>,
) -> bool {
    if seq != before.seq {
        yielded is None && after == before
    } else {
        yielded == filter && !after.loading && after.error == error && after.seq == before.seq
    }
}

/// Once a request is cancelled, its response is dropped whatever it
/// carries: it yields no filter and leaves the state as the cancel left it.
pub proof fn lemma_cancelled_response_dropped(
    before: LlmRequestState,
    cancelled: LlmRequestState,
    filter: Option<FilterView>,
    error: Option<String>,
    after: LlmRequestState,
    yielded: Option<FilterView>,
)
    requires
        before.loading,
        cancel_step(before, cancelled),
        receive_step(cancelled, before.seq, filter, error, after, yielded),
    ensures
        yielded is None,
        after == cancelled,
{
}

/// Restoring a saved filter and saving it again gives the same filter:
/// the builder seeded from a card-shaped filter compiles back to it. (The
/// two default shapes, `Delisted(false)` alone and the empty `And`, seed
/// the six default cards instead.)
pub proof fn lemma_restore_then_save(f: FilterView)
    requires
        card_shaped(f),
        f != FilterView::Meta(MetaView::Delisted(false)),
        f != FilterView::And(Seq::empty()),
    ensures
        group_filter(BoolOp::And, restore_items(Some(f))) == f,
{
    lemma_filter_round_trip(f);
}

/// The fresh builder's last card is the delisted card with its box ticked
/// ("exclude delisted"): its flag says delisted stocks are not included,
/// and it compiles to the constraint that leaves them out.
pub proof fn lemma_default_cards_exclude_delisted()
    ensures
        default_root_spec().len() == 6,
        default_root_spec()[5] == ItemView::Leaf(
            (LeafView { kind: LeafKind::Delisted, params: ParamsView::Delisted(false), negated: false }),
        ),
        item_filter(default_root_spec()[5]) == FilterView::Meta(MetaView::Delisted(false)),
{
}

} // verus!

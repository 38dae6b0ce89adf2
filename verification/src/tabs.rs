//! Dockable tabs: each tab carries a [`TabKind`], which fixes its title key,
//! its icon glyph and the id of the panel it activates.

use vstd::prelude::*;

use crate::text::owned;

verus! {

/// Id of the chart panel.
pub const CHART_ID: &'static str = "chart";

/// Id of the logger panel.
pub const LOGGER_ID: &'static str = "logger";

/// Id of the screener panel.
pub const SCREENER_ID: &'static str = "screener";

/// Id of the SEPA ranking panel.
pub const SEPA_ID: &'static str = "sepa";

/// Id of the market overview panel.
pub const MARKET_ID: &'static str = "market";

/// The id under which a panel is registered and activated.
#[derive(Debug, Clone, PartialEq, Eq, Hash)]
pub struct CitizenId {
    id: String,
}

impl View for CitizenId {
    type V = Seq<char>;

    closed spec fn view(&self) -> Seq<char> {
        self.id@
    }
}

impl CitizenId {
    /// An id with the given text.
    pub fn new(id: &str) -> (r: Self)
        ensures
            r@ == id@,
    {
        CitizenId { id: owned(id) }
    }

    /// The id's text.
    pub fn as_str(&self) -> (r: &str)
        ensures
            r@ == self@,
    {
        self.id.as_str()
    }
}

/// Which kind of panel a tab shows.
#[derive(Debug, Clone, Copy, PartialEq, Eq, Structural)]
pub enum TabKind {
    Chart,
    Logger,
    Screener,
    Sepa,
    Market,
}

/// The i18n key of a tab kind's title.
pub open spec fn title_key(kind: TabKind) -> Seq<char> {
    match kind {
        TabKind::Chart => "tab.chart"@,
        TabKind::Logger => "tab.logger"@,
        TabKind::Screener => "tab.screener"@,
        TabKind::Sepa => "tab.sepa"@,
        TabKind::Market => "tab.market"@,
    }
}

/// The panel id a tab kind activates.
pub open spec fn citizen_key(kind: TabKind) -> Seq<char> {
    match kind {
        TabKind::Chart => CHART_ID@,
        TabKind::Logger => LOGGER_ID@,
        TabKind::Screener => SCREENER_ID@,
        TabKind::Sepa => SEPA_ID@,
        TabKind::Market => MARKET_ID@,
    }
}

/// The icon glyph (a Phosphor "regular" code point) of a tab kind.
pub open spec fn icon_glyph(kind: TabKind) -> Seq<char> {
    match kind {
        TabKind::Chart => seq!['\u{E154}'],
        TabKind::Logger => seq!['\u{E47E}'],
        TabKind::Screener => seq!['\u{E268}'],
        TabKind::Sepa => seq!['\u{E628}'],
        TabKind::Market => seq!['\u{E4AE}'],
    }
}

/// `egui_phosphor::regular::CHART_LINE`, which the crate defines as the
/// one-character string U+E154.
#[verifier::external_body]
fn chart_line_glyph() -> (r: &'static str)
    ensures
        r@ == seq!['\u{E154}'],
{
    egui_phosphor::regular::CHART_LINE
}

/// `egui_phosphor::regular::TERMINAL`, which the crate defines as the
/// one-character string U+E47E.
#[verifier::external_body]
fn terminal_glyph() -> (r: &'static str)
    ensures
        r@ == seq!['\u{E47E}'],
{
    egui_phosphor::regular::TERMINAL
}

/// `egui_phosphor::regular::FUNNEL_SIMPLE`, which the crate defines as the
/// one-character string U+E268.
#[verifier::external_body]
fn funnel_simple_glyph() -> (r: &'static str)
    ensures
        r@ == seq!['\u{E268}'],
{
    egui_phosphor::regular::FUNNEL_SIMPLE
}

/// `egui_phosphor::regular::GAUGE`, which the crate defines as the
/// one-character string U+E628.
#[verifier::external_body]
fn gauge_glyph() -> (r: &'static str)
    ensures
        r@ == seq!['\u{E628}'],
{
    egui_phosphor::regular::GAUGE
}

/// `egui_phosphor::regular::TREND_UP`, which the crate defines as the
/// one-character string U+E4AE.
#[verifier::external_body]
fn trend_up_glyph() -> (r: &'static str)
    ensures
        r@ == seq!['\u{E4AE}'],
{
    egui_phosphor::regular::TREND_UP
}

impl TabKind {
    /// The i18n key of the tab's title (resolved by the renderer, so a live
    /// locale switch updates the tabs).
    pub fn title(&self) -> (r: &'static str)
        ensures
            r@ == title_key(*self),
    {
        match self {
            TabKind::Chart => "tab.chart",
            TabKind::Logger => "tab.logger",
            TabKind::Screener => "tab.screener",
            TabKind::Sepa => "tab.sepa",
            TabKind::Market => "tab.market",
        }
    }

    /// The icon glyph shown next to the tab title.
    pub fn icon(&self) -> (r: &'static str)
        ensures
            r@ == icon_glyph(*self),
    {
        match self {
            TabKind::Chart => chart_line_glyph(),
            TabKind::Logger => terminal_glyph(),
            TabKind::Screener => funnel_simple_glyph(),
            TabKind::Sepa => gauge_glyph(),
            TabKind::Market => trend_up_glyph(),
        }
    }

    /// The id of the panel this kind activates.
    pub fn citizen_id(&self) -> (r: CitizenId)
        ensures
            r@ == citizen_key(*self),
    {
        match self {
            TabKind::Chart => CitizenId::new(CHART_ID),
            TabKind::Logger => CitizenId::new(LOGGER_ID),
            TabKind::Screener => CitizenId::new(SCREENER_ID),
            TabKind::Sepa => CitizenId::new(SEPA_ID),
            TabKind::Market => CitizenId::new(MARKET_ID),
        }
    }
}

/// A dockable tab carrying its kind.
#[derive(Debug, Clone, Copy, PartialEq, Eq, Structural)]
pub struct Tab {
    kind: TabKind,
}

impl Tab {
    /// A tab of the given kind.
    pub fn new(kind: TabKind) -> (r: Self)
        ensures
            r.kind() == kind,
    {
        Tab { kind }
    }

    /// The kind of panel this tab shows.
    pub closed spec fn kind(&self) -> TabKind {
        self.kind
    }

    /// The kind of panel this tab shows.
    pub fn tab_kind(&self) -> (r: TabKind)
        ensures
            r == self.kind(),
    {
        self.kind
    }

    /// The i18n key of the tab's title: that of its kind.
    pub fn title(&self) -> (r: &'static str)
        ensures
            r@ == title_key(self.kind()),
    {
        self.kind.title()
    }

    /// The id of the panel this tab activates: that of its kind.
    pub fn citizen_id(&self) -> (r: CitizenId)
        ensures
            r@ == citizen_key(self.kind()),
    {
        self.kind.citizen_id()
    }
}

/// Two tabs are equal exactly when their kinds are, so each kind is one
/// tab and distinct kinds are distinct tabs.
pub proof fn lemma_tab_identity(a: Tab, b: Tab)
    ensures
        a == b <==> a.kind() == b.kind(),
{
}

} // verus!

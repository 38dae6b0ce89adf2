use compass::tabs::{
    CitizenId, Tab, TabKind, CHART_ID, LOGGER_ID, MARKET_ID, SCREENER_ID, SEPA_ID,
};

#[test]
fn tab_kind_titles_are_key_constants() {
    assert_eq!(TabKind::Chart.title(), "tab.chart");
    assert_eq!(TabKind::Logger.title(), "tab.logger");
    assert_eq!(TabKind::Screener.title(), "tab.screener");
    assert_eq!(TabKind::Sepa.title(), "tab.sepa");
}

#[test]
fn tab_title_delegates_to_key_constant() {
    let tab = Tab::new(TabKind::Chart);
    assert_eq!(tab.title(), "tab.chart");
}

#[test]
fn tab_kind_icons_are_phosphor_glyphs() {
    assert_eq!(TabKind::Chart.icon(), egui_phosphor::regular::CHART_LINE);
    assert_eq!(TabKind::Logger.icon(), egui_phosphor::regular::TERMINAL);
    assert_eq!(
        TabKind::Screener.icon(),
        egui_phosphor::regular::FUNNEL_SIMPLE
    );
    assert_eq!(TabKind::Sepa.icon(), egui_phosphor::regular::GAUGE);
    assert_eq!(TabKind::Market.icon(), egui_phosphor::regular::TREND_UP);
}

#[test]
fn tab_kind_chart_citizen_id() {
    assert_eq!(TabKind::Chart.citizen_id(), CitizenId::new(CHART_ID));
}

#[test]
fn tab_kind_logger_citizen_id() {
    assert_eq!(TabKind::Logger.citizen_id(), CitizenId::new(LOGGER_ID));
}

#[test]
fn tab_kind_screener_citizen_id() {
    assert_eq!(TabKind::Screener.citizen_id(), CitizenId::new(SCREENER_ID));
}

#[test]
fn tab_kind_sepa_citizen_id() {
    assert_eq!(TabKind::Sepa.citizen_id(), CitizenId::new(SEPA_ID));
}

#[test]
fn tab_market_title_and_id() {
    let tab = Tab::new(TabKind::Market);
    assert_eq!(tab.title(), "tab.market");
    assert_eq!(tab.citizen_id().as_str(), MARKET_ID);
    assert_eq!(tab.tab_kind(), TabKind::Market);
}

#[test]
fn tab_same_kind_are_equal() {
    assert_eq!(Tab::new(TabKind::Chart), Tab::new(TabKind::Chart));
    assert_eq!(Tab::new(TabKind::Logger), Tab::new(TabKind::Logger));
    assert_eq!(Tab::new(TabKind::Screener), Tab::new(TabKind::Screener));
    assert_eq!(Tab::new(TabKind::Sepa), Tab::new(TabKind::Sepa));
    assert_ne!(Tab::new(TabKind::Chart), Tab::new(TabKind::Logger));
    assert_ne!(Tab::new(TabKind::Chart), Tab::new(TabKind::Screener));
    assert_ne!(Tab::new(TabKind::Chart), Tab::new(TabKind::Sepa));
}

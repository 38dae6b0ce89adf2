use compass::feedback::{FetchFeedback, FetchNotice};
use compass::index_snapshot::{latest_date, resolve_name, symbol_runs, IndexBasic, SymbolRun};
use compass::log_export::{export_text, export_text_now, LogRecord};
use compass::watchlist::{sort_texts, watchlist_add, watchlist_remove};

fn strings(v: &[&str]) -> Vec<String> {
    v.iter().map(|s| s.to_string()).collect()
}

#[test]
fn add_to_watchlist_deduplicates_and_sorts() {
    let list = strings(&["SH600519"]);
    assert_eq!(watchlist_add(&list, "SH600519"), None, "duplicate add must be rejected");
    assert_eq!(
        watchlist_add(&list, "SZ000001"),
        Some(strings(&["SH600519", "SZ000001"])),
        "watchlist must stay sorted after insert"
    );
    assert_eq!(
        watchlist_add(&list, "BJ830000"),
        Some(strings(&["BJ830000", "SH600519"]))
    );
}

#[test]
fn watchlist_add_sorts_an_unsorted_list() {
    let list = strings(&["SZ000002", "SH600000", "BK0475"]);
    assert_eq!(
        watchlist_add(&list, "SH000001"),
        Some(strings(&["BK0475", "SH000001", "SH600000", "SZ000002"]))
    );
    assert_eq!(
        sort_texts(&strings(&["b", "a", "b", "", "ab"])),
        strings(&["", "a", "ab", "b", "b"])
    );
}

#[test]
fn watchlist_remove_keeps_order() {
    let list = strings(&["SH600519", "SZ000001", "SZ000002"]);
    assert_eq!(watchlist_remove(&list, "SH000001"), None, "absent symbol changes nothing");
    assert_eq!(
        watchlist_remove(&list, "SZ000001"),
        Some(strings(&["SH600519", "SZ000002"]))
    );
    let added = watchlist_add(&list, "BK0475").unwrap();
    assert_eq!(watchlist_remove(&added, "BK0475"), Some(list));
}

fn record(ts: &str, info: &str, warning: &str, message: &str) -> LogRecord {
    LogRecord {
        timestamp: ts.to_string(),
        info: info.to_string(),
        debug: String::new(),
        warning: warning.to_string(),
        error: String::new(),
        message: message.to_string(),
    }
}

#[test]
fn export_logs_writes_entries_to_text() {
    let entries = vec![
        record("10:00:00", "INFO", "", "hello world"),
        record("", "", "WARNING", "watch out"),
        record("", "", "", "plain"),
    ];
    let text = export_text("2026-01-02 03:04:05", &entries);
    assert_eq!(
        text,
        "--- Logger Export ---\nExported: 2026-01-02 03:04:05\n\n\
         [10:00:00] [INFO] hello world\n[WARNING] watch out\nplain\n"
    );
}

#[test]
fn export_logs_empty_state_writes_header_only() {
    let text = export_text_now(&vec![]);
    assert!(text.starts_with("--- Logger Export ---\nExported: "));
    assert!(text.ends_with("\n\n"));
}

#[test]
fn fetch_feedback_toasts_on_transitions_only() {
    let mut fb = FetchFeedback::new();
    assert!(fb.observe(None, true).is_empty(), "loading starts: nothing yet");
    assert_eq!(fb.observe(None, false), vec![FetchNotice::Success]);
    assert!(fb.observe(None, false).is_empty());
    assert!(fb.observe(None, true).is_empty());
    assert_eq!(
        fb.observe(Some("no data".to_string()), false),
        vec![FetchNotice::Error("no data".to_string())],
        "an error ends loading without a success toast"
    );
    assert!(
        fb.observe(Some("no data".to_string()), false).is_empty(),
        "the same error is not toasted twice"
    );
    assert_eq!(
        fb.observe(Some("other".to_string()), false),
        vec![FetchNotice::Error("other".to_string())]
    );
}

#[test]
fn symbol_runs_group_consecutive_rows() {
    let symbols = strings(&["A", "A", "B", "C", "C", "C"]);
    assert_eq!(
        symbol_runs(&symbols),
        vec![
            SymbolRun { start: 0, end: 2, prev: 0 },
            SymbolRun { start: 2, end: 3, prev: 2 },
            SymbolRun { start: 3, end: 6, prev: 4 },
        ]
    );
    assert!(symbol_runs(&vec![]).is_empty());
}

#[test]
fn latest_date_is_the_text_maximum() {
    let dates = strings(&["2026-08-12", "2026-08-13", "2026-08-11"]);
    assert_eq!(latest_date(&dates), "2026-08-13");
    assert_eq!(latest_date(&vec![]), "");
}

#[test]
fn resolve_name_prefers_the_index_table() {
    let basics = vec![
        IndexBasic { symbol: "BK0475".into(), name: "半导体".into(), index_type: "industry".into() },
        IndexBasic { symbol: "SH000001".into(), name: "上证指数".into(), index_type: "official".into() },
        IndexBasic { symbol: "BK0475".into(), name: "半导体2".into(), index_type: "concept".into() },
    ];
    assert_eq!(
        resolve_name(&basics, "BK0475", "industry"),
        ("半导体2".to_string(), "concept".to_string()),
        "a later entry overrides an earlier one"
    );
    assert_eq!(
        resolve_name(&basics, "SZ399001", "official"),
        ("SZ399001".to_string(), "official".to_string())
    );
}

use compass::chart::{IndicatorCache, SeriesKey};
use compass::filter::Real;
use compass::market::{core_index_entry, MarketRow};
use compass::shortcuts::{shortcut_actions, ShortcutAction, ShortcutKeys};

fn key(symbol: &str, count: usize, last_close: f64) -> SeriesKey {
    SeriesKey {
        symbol: symbol.to_string(),
        count,
        first_time: 1_700_000_000,
        last_time: 1_700_086_400,
        last_close_bits: last_close.to_bits(),
    }
}

#[test]
fn show_recomputes_indicator_values_on_symbol_change_same_fingerprint() {
    let mut cache = IndicatorCache::new();
    assert!(cache.needs_recompute(key("600001", 10, 108.0)), "first series computes");
    assert!(!cache.needs_recompute(key("600001", 10, 108.0)), "same series is cached");
    assert!(
        cache.needs_recompute(key("600002", 10, 108.0)),
        "another symbol with the same bar shape recomputes"
    );
    assert!(
        cache.needs_recompute(key("600002", 10, 107.5)),
        "a revised last close recomputes"
    );
    assert!(cache.needs_recompute(key("600002", 11, 107.5)));
}

fn keys(slash: bool, ctrl_enter: bool, ctrl_k: bool, digits: [bool; 3]) -> ShortcutKeys {
    ShortcutKeys {
        slash,
        ctrl_enter,
        ctrl_k,
        num1: digits[0],
        num2: digits[1],
        num3: digits[2],
    }
}

#[test]
fn digit_keys_switch_timeframe() {
    assert_eq!(
        shortcut_actions(keys(false, false, false, [false, true, false]), false, true),
        vec![ShortcutAction::SetTimeframe(1)]
    );
    assert_eq!(
        shortcut_actions(keys(true, true, true, [true, false, true]), false, true),
        vec![
            ShortcutAction::FocusSymbol,
            ShortcutAction::Fetch,
            ShortcutAction::FocusSearch,
            ShortcutAction::SetTimeframe(0),
            ShortcutAction::SetTimeframe(2),
        ]
    );
}

#[test]
fn digit_keys_do_not_switch_timeframe_while_typing_in_input() {
    assert_eq!(
        shortcut_actions(keys(true, false, false, [true, true, true]), true, true),
        vec![]
    );
    assert_eq!(
        shortcut_actions(keys(true, true, true, [true, true, true]), true, true),
        vec![ShortcutAction::Fetch, ShortcutAction::FocusSearch],
        "Ctrl combinations stay active while typing"
    );
    assert_eq!(
        shortcut_actions(keys(true, false, false, [false, false, false]), false, false),
        vec![],
        "no symbol input yet: slash does nothing"
    );
}

#[test]
fn core_index_entry_prefers_snapshot_name() {
    let rows = vec![
        MarketRow {
            symbol: "SH000001".into(),
            name: "上证综指".into(),
            index_type: "official".into(),
            change_pct: Real { bits: 0.82f64.to_bits() },
        },
        MarketRow {
            symbol: "SH000001".into(),
            name: "dup".into(),
            index_type: "official".into(),
            change_pct: Real { bits: 0.0f64.to_bits() },
        },
    ];
    assert_eq!(
        core_index_entry(&rows, "SH000001", "上证指数"),
        (Some(0), "上证综指".to_string())
    );
    assert_eq!(
        core_index_entry(&rows, "SZ399001", "深证成指"),
        (None, "深证成指".to_string())
    );
}

use compass::session::{DeleteConfirmation, StartupGuide};

#[test]
fn startup_modal_opens_once_when_stock_list_empty() {
    let mut guide = StartupGuide::new();
    assert!(guide.due(true), "empty stock list opens the guide");
    assert!(!guide.due(true), "only once per session");
    let mut other = StartupGuide::new();
    assert!(!other.due(false), "a present stock list skips the guide");
    assert!(!other.due(true));
}

#[test]
fn sidebar_delete_removes_only_after_confirm() {
    let mut d = DeleteConfirmation::new();
    assert!(d.request("SH600519", false), "the dialog opens");
    assert!(!d.request("SH600519", true), "an open dialog for the same symbol is kept");
    assert_eq!(d.settle(true), None, "nothing before confirmation");
    d.confirm();
    assert_eq!(d.settle(false), Some("SH600519".to_string()));
    assert_eq!(d.settle(false), None);
    // cancel: the dialog closes unconfirmed and the pending symbol is dropped
    assert!(d.request("SZ000001", false));
    assert_eq!(d.settle(false), None);
    assert!(d.pending.is_none());
}

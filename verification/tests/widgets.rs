use std::cell::Cell;
use std::rc::Rc;
use std::time::{Duration, Instant};

use compass::modal::Modal;
use compass::searchable_dropdown::{format_display, PickerStock, StockPicker};
use compass::toast::{Toast, ToastLevel, ToastManager};

// --- modal ---------------------------------------------------------------

#[test]
fn modal_starts_closed() {
    let modal = Modal::new();
    assert!(!modal.is_open());
}

#[test]
fn open_sets_modal_to_open() {
    let mut modal = Modal::new();
    modal.open();
    assert!(modal.is_open());
}

#[test]
fn close_sets_modal_to_closed() {
    let mut modal = Modal::new();
    modal.open(); // open first
    modal.close();
    assert!(!modal.is_open());
}

#[test]
fn toggle_flips_state() {
    let mut modal = Modal::new();

    // closed → open
    modal.toggle();
    assert!(modal.is_open());

    // open → closed
    modal.toggle();
    assert!(!modal.is_open());

    // closed → open again
    modal.toggle();
    assert!(modal.is_open());
}

#[test]
fn modal_title_and_body_are_set() {
    let mut modal = Modal::default();
    assert_eq!(modal.title(), "");
    assert_eq!(modal.body(), "");
    modal.set_title("Remove");
    modal.set_body(String::from("Remove SH600519?"));
    assert_eq!(modal.title(), "Remove");
    assert_eq!(modal.body(), "Remove SH600519?");
}

#[test]
fn modal_ok_runs_callback_once_and_closes() {
    let fired = Rc::new(Cell::new(0u32));
    let mut modal = Modal::new();
    let f = fired.clone();
    modal.set_on_confirm(move || f.set(f.get() + 1));
    modal.open();
    modal.apply_buttons(true, false);
    assert!(!modal.is_open());
    assert_eq!(fired.get(), 1);
    // the callback is consumed: a second confirmation only closes
    modal.open();
    modal.apply_buttons(true, false);
    assert!(!modal.is_open());
    assert_eq!(fired.get(), 1);
}

#[test]
fn modal_cancel_closes_without_callback() {
    let fired = Rc::new(Cell::new(false));
    let mut modal = Modal::new();
    let f = fired.clone();
    modal.set_on_confirm(move || f.set(true));
    modal.open();
    modal.apply_buttons(false, true);
    assert!(!modal.is_open());
    assert!(!fired.get());
    // a later OK still runs the kept callback
    modal.open();
    modal.apply_buttons(true, false);
    assert!(fired.get());
}

#[test]
fn modal_closed_ignores_buttons() {
    let fired = Rc::new(Cell::new(false));
    let mut modal = Modal::new();
    let f = fired.clone();
    modal.set_on_confirm(move || f.set(true));
    modal.apply_buttons(true, true);
    assert!(!modal.is_open());
    assert!(!fired.get());
    modal.open();
    modal.apply_buttons(false, false);
    assert!(modal.is_open(), "no click keeps the dialog open");
}

// --- toast ---------------------------------------------------------------

#[test]
fn new_manager_is_empty() {
    let manager = ToastManager::new();
    assert_eq!(manager.len(), 0);
    assert!(manager.is_empty());
}

#[test]
fn push_increases_count() {
    let mut manager = ToastManager::new();
    manager.push(ToastLevel::Info, "hello");
    assert_eq!(manager.len(), 1);
    assert!(!manager.is_empty());
}

#[test]
fn pop_returns_fifo_order() {
    let mut manager = ToastManager::new();
    manager.push(ToastLevel::Info, "first");
    manager.push(ToastLevel::Error, "second");

    let first = manager.pop().expect("should have first toast");
    assert_eq!(first.message, "first");
    assert_eq!(first.level, ToastLevel::Info);
    assert_eq!(manager.len(), 1);

    let second = manager.pop().expect("should have second toast");
    assert_eq!(second.message, "second");
    assert_eq!(second.level, ToastLevel::Error);
    assert_eq!(manager.len(), 0);
}

#[test]
fn pop_empty_returns_none() {
    let mut manager = ToastManager::new();
    assert!(manager.pop().is_none());
}

#[test]
fn toast_level_ordering_correct() {
    assert!(ToastLevel::Error > ToastLevel::Warning);
    assert!(ToastLevel::Warning > ToastLevel::Success);
    assert!(ToastLevel::Success > ToastLevel::Info);
}

#[test]
fn test_push_cap_at_10_evicts_oldest() {
    let mut manager = ToastManager::new();
    for i in 0..12 {
        manager.push(ToastLevel::Info, format!("toast-{i}"));
    }
    assert_eq!(manager.len(), 10);

    // First 2 should be evicted (oldest); pop returns toast-2 first
    let first = manager.pop().expect("should have toast-2");
    assert_eq!(first.message, "toast-2");
}

#[test]
fn test_push_error_has_longer_duration() {
    let mut manager = ToastManager::new();
    manager.push(ToastLevel::Error, "err");
    manager.push(ToastLevel::Info, "info");

    let err_toast = manager.pop().expect("error toast");
    let info_toast = manager.pop().expect("info toast");

    assert_eq!(err_toast.duration, Duration::from_secs(8));
    assert_eq!(info_toast.duration, Duration::from_secs(3));
}

#[test]
fn test_is_expired_fresh_toast_not_expired() {
    let toast = Toast::new(ToastLevel::Info, "fresh".into());
    assert!(!toast.is_expired());
}

#[test]
fn test_is_expired_expired_toast() {
    let expired = Toast {
        level: ToastLevel::Info,
        message: "expired".into(),
        created_at: Instant::now() - Duration::from_secs(10),
        duration: Duration::from_secs(3),
    };
    assert!(expired.is_expired());
}

#[test]
fn test_is_expired_exactly_at_boundary() {
    let exact = Toast {
        level: ToastLevel::Success,
        message: "boundary".into(),
        created_at: Instant::now() - Duration::from_secs(3),
        duration: Duration::from_secs(3),
    };
    // >= duration, so this should be expired
    assert!(exact.is_expired());
}

#[test]
fn toast_durations_by_level() {
    for (level, secs) in [
        (ToastLevel::Info, 3),
        (ToastLevel::Success, 3),
        (ToastLevel::Warning, 3),
        (ToastLevel::Error, 8),
    ] {
        let t = Toast::new(level, "m".to_string());
        assert_eq!(t.duration, Duration::from_secs(secs));
        assert_eq!(t.level, level);
    }
}

#[test]
fn expired_after_compares_elapsed_with_duration() {
    let t = Toast::new(ToastLevel::Warning, "w".to_string());
    assert!(!t.expired_after(&Duration::from_millis(2999)));
    assert!(t.expired_after(&Duration::from_secs(3)));
    assert!(t.expired_after(&Duration::from_secs(4)));
}

#[test]
fn remove_expired_keeps_fresh_in_order() {
    let mut manager = ToastManager::new();
    manager.push(ToastLevel::Info, "a");
    manager.push(ToastLevel::Info, "b");
    manager.push(ToastLevel::Info, "c");
    manager.remove_expired(&vec![true, false, true]);
    assert_eq!(manager.len(), 1);
    assert_eq!(manager.pop().unwrap().message, "b");
}

#[test]
fn prune_expired_drops_only_expired() {
    let mut manager = ToastManager::new();
    manager.push(ToastLevel::Success, "fresh-toast");
    manager.prune_expired();
    assert_eq!(manager.len(), 1, "a fresh toast survives pruning");
    let cloned = manager.clone();
    assert_eq!(cloned.toasts()[0].message, "fresh-toast");
}

// --- searchable dropdown -------------------------------------------------

fn make_stock(symbol: &str, name: &str, exchange: &str) -> PickerStock {
    PickerStock {
        symbol: symbol.into(),
        name: name.into(),
        exchange: Some(exchange.into()),
    }
}

#[test]
fn format_display_full() {
    assert_eq!(
        format_display("SZ", "000001", "平安银行"),
        "SZ | 000001 | 平安银行"
    );
}

#[test]
fn format_display_no_name() {
    assert_eq!(format_display("SZ", "000001", ""), "SZ | 000001");
}

#[test]
fn format_display_no_exchange() {
    assert_eq!(
        format_display("", "000001", "平安银行"),
        "000001 | 平安银行"
    );
}

#[test]
fn format_display_symbol_only() {
    assert_eq!(format_display("", "000001", ""), "000001");
}

#[test]
fn stock_picker_starts_with_empty_cache() {
    let stocks = vec![
        make_stock("000001", "平安银行", "SZ"),
        make_stock("600519", "贵州茅台", "SH"),
    ];
    let picker = StockPicker::new("000001", &stocks);
    assert!(picker.cached_indices.is_empty());
}

#[test]
fn stock_picker_detects_filter_change() {
    let stocks = vec![make_stock("000001", "平安银行", "SZ")];
    let mut picker = StockPicker::new("000001", &stocks);
    picker.filter_text = "平安".into();
    picker.popup_open = true;
    assert_ne!(picker.filter_text, picker.last_filter_text);
}

#[test]
fn stock_picker_new_takes_name_and_exchange_of_default() {
    let stocks = vec![
        make_stock("000001", "平安银行", "SZ"),
        make_stock("600519", "贵州茅台", "SH"),
    ];
    let picker = StockPicker::new("600519", &stocks);
    assert_eq!(picker.selected_symbol, "600519");
    assert_eq!(picker.selected_name, "贵州茅台");
    assert_eq!(picker.selected_exchange, "SH");
    assert!(!picker.popup_open);
    assert_eq!(picker.display_text(), "SH | 600519 | 贵州茅台");

    let unknown = StockPicker::new("999999", &stocks);
    assert_eq!(unknown.selected_name, "");
    assert_eq!(unknown.selected_exchange, "");
    assert_eq!(unknown.display_text(), "999999");
}

#[test]
fn stock_picker_refilter_matches_symbol_prefix_or_name() {
    let stocks = vec![
        make_stock("600519", "贵州茅台", "SH"),
        make_stock("000002", "万科A", "SZ"),
        make_stock("000001", "平安银行", "SZ"),
        make_stock("300750", "宁德时代", "SZ"),
    ];
    let mut picker = StockPicker::new("000001", &stocks);
    picker.open_popup();
    assert!(picker.popup_open);
    assert_eq!(picker.filter_text, "SZ | 000001 | 平安银行");

    picker.filter_text = " 000 ".into();
    picker.refilter(&stocks);
    assert_eq!(picker.cached_indices, vec![2, 1], "symbol order, prefix match");
    assert_eq!(picker.last_filter_text, " 000 ");

    picker.filter_text = "万科a".into();
    picker.refilter(&stocks);
    assert_eq!(picker.cached_indices, vec![1], "case-insensitive name match");

    picker.filter_text = "".into();
    picker.refilter(&stocks);
    assert_eq!(picker.cached_indices, vec![2, 1, 3, 0], "empty query lists all by symbol");

    // unchanged text keeps the cache
    picker.refilter(&[]);
    assert_eq!(picker.cached_indices, vec![2, 1, 3, 0]);

    picker.escape();
    assert!(!picker.popup_open);
}

#[test]
fn stock_picker_select_takes_stock_and_closes() {
    let stocks = vec![make_stock("000001", "平安银行", "SZ")];
    let mut picker = StockPicker::new("000001", &stocks);
    picker.open_popup();
    let other = PickerStock {
        symbol: "BK0475".into(),
        name: "半导体".into(),
        exchange: None,
    };
    picker.select(&other);
    assert_eq!(picker.selected_symbol, "BK0475");
    assert_eq!(picker.selected_name, "半导体");
    assert_eq!(picker.selected_exchange, "");
    assert!(!picker.popup_open);
    assert_eq!(picker.filter_text, "");
}

fn make_stocks() -> Vec<PickerStock> {
    vec![
        make_stock("000001", "平安银行", "SZ"),
        make_stock("000002", "万科A", "SZ"),
        make_stock("600519", "贵州茅台", "SH"),
        make_stock("300750", "宁德时代", "SZ"),
    ]
}

#[test]
fn test_show_click_opens_popup() {
    let stocks = make_stocks();
    let mut picker = StockPicker::new("000001", &stocks);
    assert!(!picker.popup_open);
    assert_eq!(picker.display_text(), "SZ | 000001 | 平安银行");
    picker.open_popup();
    assert!(picker.popup_open, "popup should open on text edit click");
}

#[test]
fn test_escape_closes_popup() {
    let stocks = make_stocks();
    let mut picker = StockPicker::new("000001", &stocks);
    picker.open_popup();
    assert!(picker.popup_open);
    picker.escape();
    assert!(!picker.popup_open, "popup should close on Escape");
}

#[test]
fn test_row_click_selects_stock() {
    let stocks = make_stocks();
    let mut picker = StockPicker::new("000001", &stocks);
    picker.popup_open = true;
    picker.filter_text = "6".into();
    picker.refilter(&stocks);
    assert!(picker.popup_open);
    assert_eq!(picker.cached_indices, vec![2]);
    let row = &stocks[picker.cached_indices[0]];
    assert_eq!(
        format_display(row.exchange.as_deref().unwrap_or(""), &row.symbol, &row.name),
        "SH | 600519 | 贵州茅台"
    );
    picker.select(row);
    assert_eq!(picker.selected_symbol, "600519");
    assert_eq!(picker.selected_name, "贵州茅台");
    assert_eq!(picker.selected_exchange, "SH");
    assert!(!picker.popup_open, "popup should close after selection");
}

#[test]
fn test_popup_repopulates_cached_indices() {
    let stocks = make_stocks();
    let mut picker = StockPicker::new("000001", &stocks);
    picker.popup_open = true;
    picker.filter_text = "0".into();
    picker.refilter(&stocks);
    assert!(
        !picker.cached_indices.is_empty(),
        "cached_indices should be populated when popup opens with filter"
    );
}

#[test]
fn test_refilter_caching_last_filter_text_updated() {
    let stocks = make_stocks();
    let mut picker = StockPicker::new("000001", &stocks);
    assert!(picker.last_filter_text.is_empty());
    picker.open_popup();
    picker.refilter(&stocks);
    assert!(
        !picker.last_filter_text.is_empty(),
        "last_filter_text should be updated after popup open triggers refilter"
    );
}

#[test]
fn test_render_removes_expired_toasts() {
    let mut manager = ToastManager::new();
    manager.push_toast(Toast {
        level: ToastLevel::Info,
        message: "expired-toast".into(),
        created_at: Instant::now() - Duration::from_secs(10),
        duration: Duration::from_secs(3),
    });
    manager.push(ToastLevel::Success, "fresh-toast");
    manager.prune_expired();
    assert_eq!(manager.len(), 1, "expired toast should be removed by pruning");
    assert_eq!(manager.pop().unwrap().message, "fresh-toast");
}

#[test]
fn modal_keeps_action_across_open_toggle_and_title() {
    let fired = Rc::new(Cell::new(0u32));
    let mut modal = Modal::new();
    let f = fired.clone();
    modal.set_on_confirm(move || f.set(f.get() + 1));
    modal.open();
    modal.open();
    modal.toggle();
    modal.toggle();
    modal.set_title("t");
    modal.set_body("b");
    assert!(modal.is_open());
    modal.apply_buttons(true, false);
    assert_eq!(fired.get(), 1, "the action set before runs on OK");
}

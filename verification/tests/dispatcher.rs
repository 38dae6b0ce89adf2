use compass::fetch::{dispatch_symbol_fetch, handle, FetchState};
use compass::messages::AppMessage;
use compass::searchable_dropdown::{PickerStock, StockPicker};

#[test]
fn handle_fetch_bars_sends_request_and_sets_loading() {
    let mut state = FetchState { loading: false, error: Some("previous".to_string()) };
    assert!(!state.loading, "loading should start false");

    let log = handle(AppMessage::FetchBars, &mut state, None);

    assert!(state.loading, "loading should be true after fetch dispatch");
    assert_eq!(state.error, None, "error should be cleared on new fetch");
    assert_eq!(log, None);
}

#[test]
fn handle_fetch_bars_resets_loading_on_send_failure() {
    let mut state = FetchState { loading: true, error: None };

    let log = handle(AppMessage::FetchBars, &mut state, Some("sending on a closed channel"));

    assert!(!state.loading, "loading should be reset to false when send fails");
    assert_eq!(
        log.as_deref(),
        Some("work_signal.send failed: sending on a closed channel"),
        "log should contain the send-failure error message"
    );
}

#[test]
fn dispatch_symbol_fetch_sets_symbol_and_triggers_fetch() {
    let mut symbol = "000001".to_string();
    let mut state = FetchState { loading: false, error: None };

    dispatch_symbol_fetch(&mut symbol, &mut state, "600519", None);

    assert_eq!(symbol, "600519");
    assert!(state.loading, "symbol fetch must dispatch a FetchBars request");
}

fn default_picker(stocks: &[PickerStock]) -> (StockPicker, String) {
    (StockPicker::new("SZ000001", stocks), "SZ000001".to_string())
}

#[test]
fn sync_picker_from_symbol_syncs_prefixed_symbol_and_exchange() {
    let (mut picker, mut last) = default_picker(&[]);

    picker.sync_from_symbol(&mut last, "SH600519", "SH", "600519", &[]);

    assert_eq!(picker.selected_symbol, "SH600519");
    assert_eq!(picker.selected_exchange, "SH", "exchange derives from the symbol prefix");
    assert_eq!(last, "SH600519");
}

#[test]
fn sync_picker_from_symbol_ignores_non_symbol_values() {
    let (mut picker, mut last) = default_picker(&[]);

    picker.sync_from_symbol(&mut last, "not-a-symbol", "", "not-a-symbol", &[]);

    assert_eq!(
        picker.selected_symbol, "SZ000001",
        "malformed symbol must not clobber picker selection"
    );
    assert_eq!(last, "not-a-symbol", "marker still advances");
}

#[test]
fn sync_picker_from_symbol_noop_when_symbol_unchanged() {
    let (mut picker, mut last) = default_picker(&[]);
    picker.sync_from_symbol(&mut last, "SZ000001", "SZ", "000001", &[]);
    assert_eq!(picker.selected_symbol, "SZ000001");
    assert_eq!(last, "SZ000001");
}

#[test]
fn sync_picker_from_symbol_bk_board_code_syncs() {
    let stocks = vec![PickerStock {
        symbol: "BK0475".to_string(),
        name: "半导体".to_string(),
        exchange: None,
    }];
    let (mut picker, mut last) = default_picker(&stocks);

    picker.sync_from_symbol(&mut last, "BK0475", "BK", "0475", &stocks);

    assert_eq!(picker.selected_symbol, "BK0475");
    assert_eq!(picker.selected_name, "半导体");
    assert_eq!(picker.selected_exchange, "BK");
    assert_eq!(last, "BK0475");
}

#[test]
fn sync_picker_from_symbol_rejects_malformed_bk_codes() {
    for (bad, code) in [("BK047", "047"), ("BK04755", "04755")] {
        let (mut picker, mut last) = default_picker(&[]);

        picker.sync_from_symbol(&mut last, bad, "BK", code, &[]);

        assert_eq!(
            picker.selected_symbol, "SZ000001",
            "malformed BK code {bad:?} must not clobber picker selection"
        );
    }
}

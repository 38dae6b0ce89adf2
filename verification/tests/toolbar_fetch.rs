use compass::card_params::{
    delisted_checkbox, exchange_options, list_years_index, list_years_value, ma_kind_index,
    ma_kind_value,
};
use compass::fetch::{fetch_response, FetchError};
use compass::screener_builder::MaKind;
use compass::searchable_dropdown::{filter_stocks, prefixed_symbol, PickerStock, StockPicker};
use compass::toolbar::{
    fetch_label_key, fetch_requested, language_index, language_switch, theme_index,
    theme_switches,
};

fn stock(symbol: &str, name: &str, exchange: Option<&str>) -> PickerStock {
    PickerStock {
        symbol: symbol.to_string(),
        name: name.to_string(),
        exchange: exchange.map(|e| e.to_string()),
    }
}

#[test]
fn fetch_response_keeps_found_bars() {
    let (bars, err) = fetch_response("SH600519", Ok(vec![1u32, 2, 3]));
    assert_eq!(bars, vec![1, 2, 3]);
    assert_eq!(err, None);
}

#[test]
fn fetch_response_empty_is_no_data_for_the_symbol() {
    let (bars, err) = fetch_response::<u32>("SH600519", Ok(vec![]));
    assert!(bars.is_empty());
    assert_eq!(err, Some(FetchError::NoData { symbol: "SH600519".to_string() }));
}

#[test]
fn fetch_response_failure_keeps_the_store_error() {
    let (bars, err) = fetch_response::<u32>("SH600519", Err("disk gone".to_string()));
    assert!(bars.is_empty());
    assert_eq!(err, Some(FetchError::Failed("disk gone".to_string())));
}

#[test]
fn fetch_click_ignored_while_loading() {
    assert!(fetch_requested(true, false));
    assert!(!fetch_requested(true, true));
    assert!(!fetch_requested(false, false));
    assert_eq!(fetch_label_key(true), "toolbar.loading");
    assert_eq!(fetch_label_key(false), "toolbar.fetch");
}

#[test]
fn language_dropdown_positions_and_switches() {
    assert_eq!(language_index("en"), 1);
    assert_eq!(language_index("zh"), 0);
    assert_eq!(language_index("fr"), 0);
    assert_eq!(language_switch("zh", 1), Some("en"));
    assert_eq!(language_switch("en", 0), Some("zh"));
    assert_eq!(language_switch("en", 1), None);
    assert_eq!(language_switch("zh", 0), None);
}

#[test]
fn theme_dropdown_positions_and_switches() {
    let names = vec!["Light".to_string(), "Dark".to_string(), "Dark".to_string()];
    assert_eq!(theme_index(&names, "Dark"), 1);
    assert_eq!(theme_index(&names, "Sepia"), 0);
    assert!(theme_switches(&names, "Light", 1));
    assert!(!theme_switches(&names, "Dark", 2));
}

#[test]
fn list_years_dropdown_maps_both_ways() {
    assert_eq!(list_years_index(None), 0);
    assert_eq!(list_years_index(Some(1)), 1);
    assert_eq!(list_years_index(Some(3)), 2);
    assert_eq!(list_years_index(Some(5)), 3);
    assert_eq!(list_years_index(Some(2)), 0);
    assert_eq!(list_years_value(0), None);
    assert_eq!(list_years_value(1), Some(1));
    assert_eq!(list_years_value(2), Some(3));
    assert_eq!(list_years_value(3), Some(5));
}

#[test]
fn ma_dropdown_maps_both_ways() {
    assert_eq!(ma_kind_index(MaKind::AboveMa20), 0);
    assert_eq!(ma_kind_index(MaKind::AboveMa60), 1);
    assert_eq!(ma_kind_index(MaKind::BullishAlign), 2);
    assert_eq!(ma_kind_value(1), MaKind::AboveMa60);
    assert_eq!(ma_kind_value(2), MaKind::BullishAlign);
    assert_eq!(ma_kind_value(0), MaKind::AboveMa20);
    assert_eq!(ma_kind_value(7), MaKind::AboveMa20);
}

#[test]
fn unticking_delisted_removes_the_card() {
    let mut included = false;
    assert!(!delisted_checkbox(&mut included, true));
    assert!(!included);
    assert!(delisted_checkbox(&mut included, false));
    let mut included = true;
    assert!(!delisted_checkbox(&mut included, true));
    assert!(!included);
}

#[test]
fn exchange_card_offers_three_exchanges() {
    assert_eq!(exchange_options(), vec!["SH", "SZ", "BJ"]);
}

#[test]
fn prefixed_symbols_are_stocks_or_boards() {
    assert!(prefixed_symbol("SH", "600519"));
    assert!(prefixed_symbol("BK", "0475"));
    assert!(!prefixed_symbol("SH", "0475"));
    assert!(!prefixed_symbol("", "600519"));
    assert!(!prefixed_symbol("SZ", "00000A"));
}

#[test]
fn picker_follows_prefixed_symbol_changes() {
    let list = vec![stock("SH600519", "贵州茅台", Some("SH")), stock("SZ000001", "平安银行", Some("SZ"))];
    let mut picker = StockPicker::new("SH600519", &list);
    let mut last = "SH600519".to_string();
    picker.sync_from_symbol(&mut last, "SZ000001", "SZ", "000001", &list);
    assert_eq!(picker.selected_symbol, "SZ000001");
    assert_eq!(picker.selected_name, "平安银行");
    assert_eq!(picker.selected_exchange, "SZ");
    assert_eq!(last, "SZ000001");

    picker.sync_from_symbol(&mut last, "BK0475", "BK", "0475", &list);
    assert_eq!(picker.selected_symbol, "BK0475");
    assert_eq!(picker.selected_name, "");
    assert_eq!(picker.selected_exchange, "BK");

    picker.sync_from_symbol(&mut last, "garbage", "", "garbage", &list);
    assert_eq!(picker.selected_symbol, "BK0475");
    assert_eq!(last, "garbage");
}

#[test]
fn filter_stocks_keeps_exchange_and_query_sorted() {
    let list = vec![
        stock("SZ000002", "万科A", Some("SZ")),
        stock("SH600519", "贵州茅台", Some("SH")),
        stock("SZ000001", "平安银行", Some("SZ")),
    ];
    let sz = vec![true, false, true];
    assert_eq!(filter_stocks(&list, "  ", &sz), vec![2, 0]);
    assert_eq!(filter_stocks(&list, " sz0000 ", &sz), vec![2, 0]);
    assert_eq!(filter_stocks(&list, "平安", &sz), vec![2]);
    assert_eq!(filter_stocks(&list, "600", &sz), Vec::<usize>::new());
    let all = vec![true, true, true];
    assert_eq!(filter_stocks(&list, "", &all), vec![1, 2, 0]);
}

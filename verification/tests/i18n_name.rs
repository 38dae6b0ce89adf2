use compass::i18n_name::display_name;

#[test]
fn en_locale_with_en_uses_en() {
    assert_eq!(
        display_name("en", "上证指数", Some("SSE Composite")),
        "SSE Composite"
    );
}

#[test]
fn en_locale_without_en_falls_back_zh() {
    assert_eq!(display_name("en", "上证指数", None), "上证指数");
}

#[test]
fn en_locale_with_empty_en_falls_back_zh() {
    assert_eq!(display_name("en", "上证指数", Some("")), "上证指数");
}

#[test]
fn zh_locale_never_uses_en() {
    assert_eq!(
        display_name("zh", "上证指数", Some("SSE Composite")),
        "上证指数"
    );
    assert_eq!(display_name("zh", "上证指数", None), "上证指数");
}

#[test]
fn unknown_locale_falls_back_zh() {
    assert_eq!(
        display_name("fr", "上证指数", Some("SSE Composite")),
        "上证指数"
    );
}

#[test]
fn display_name_locale_match_is_exact() {
    assert_eq!(display_name("EN", "银行", Some("Banks")), "银行");
    assert_eq!(display_name("en-US", "银行", Some("Banks")), "银行");
    assert_eq!(display_name("en", "", Some("Banks")), "Banks");
    assert_eq!(display_name("en", "", None), "");
}

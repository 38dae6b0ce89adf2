use compass::config::{
    is_supported_language, normalize_language, timeframe_index_from_value, timeframe_label, timeframe_value, LlmSection,
    WINDOW_TITLE,
};

#[test]
fn llm_section_defaults_to_openai_endpoint() {
    let s = LlmSection::default();
    assert_eq!(s.base_url, "https://api.openai.com/v1");
    assert_eq!(s.model, "gpt-4o-mini");
    assert!(!s.is_configured(), "no api_key by default");
}

#[test]
fn llm_section_without_api_key_is_unconfigured() {
    let s = LlmSection::default();
    assert!(!s.is_configured());
    assert!(s.to_client_config().is_none());
}

#[test]
fn llm_section_with_api_key_produces_client_config() {
    let s = LlmSection {
        base_url: String::new(),
        api_key: "sk-test".to_string(),
        model: String::new(),
    };
    assert!(s.is_configured());
    let cfg = s
        .to_client_config()
        .expect("configured key yields a config");
    assert_eq!(cfg.api_key, "sk-test");
    assert_eq!(
        cfg.base_url, "https://api.openai.com/v1",
        "empty base_url falls back to the default"
    );
    assert_eq!(
        cfg.model, "gpt-4o-mini",
        "empty model falls back to the default"
    );
}

#[test]
fn llm_section_keeps_explicit_url_and_model() {
    let s = LlmSection {
        base_url: "http://127.0.0.1:8080/v1".to_string(),
        api_key: "sk-test".to_string(),
        model: "custom-model".to_string(),
    };
    let cfg = s
        .to_client_config()
        .expect("configured key yields a config");
    assert_eq!(cfg.base_url, "http://127.0.0.1:8080/v1");
    assert_eq!(cfg.model, "custom-model");
}

#[test]
fn timeframe_label_returns_correct_values() {
    assert_eq!(timeframe_label(0), "1d");
    assert_eq!(timeframe_label(1), "1w");
    assert_eq!(timeframe_label(2), "1M");
    assert_eq!(timeframe_label(99), "1d");
}

#[test]
fn timeframe_value_returns_correct_strings() {
    assert_eq!(timeframe_value(0), "1d");
    assert_eq!(timeframe_value(1), "1w");
    assert_eq!(timeframe_value(2), "1M");
}

#[test]
fn timeframe_index_round_trips() {
    for idx in 0..3 {
        assert_eq!(timeframe_index_from_value(timeframe_label(idx)), idx);
    }
    assert_eq!(timeframe_index_from_value("1m"), 0, "matching is case-sensitive");
    assert_eq!(timeframe_index_from_value("5d"), 0, "unknown falls back to 1d");
    assert_eq!(timeframe_index_from_value(""), 0);
}

#[test]
fn normalize_language_maps_valid_and_invalid_values() {
    assert_eq!(normalize_language("zh"), "zh");
    assert_eq!(normalize_language("en"), "en");
    assert_eq!(normalize_language(""), "zh", "empty string must fall back");
    assert_eq!(
        normalize_language("fr"),
        "zh",
        "unknown language must fall back"
    );
    assert_eq!(normalize_language("ZH"), "zh", "matching is case-sensitive");
    assert_eq!(normalize_language("EN"), "zh");
}

#[test]
fn window_title_stays_english_brand_not_keyed() {
    assert!(
        WINDOW_TITLE.contains("Compass — Stock Chart"),
        "the window title literal must stay the English brand (not keyed)"
    );
}

#[test]
fn unsupported_languages_are_reported() {
    assert!(is_supported_language("zh"));
    assert!(is_supported_language("en"));
    for raw in ["", "fr", "ZH", "EN", " en"] {
        assert!(!is_supported_language(raw), "{raw:?} must be reported");
        assert_eq!(normalize_language(raw), "zh");
    }
}

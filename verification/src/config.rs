//! Application settings: the window title, the chart timeframes, the UI
//! language and the `[llm]` section of the configuration file.

use vstd::prelude::*;

use crate::text::{owned, same_text};
use vstd::string::StrSliceExecFns;

verus! {

/// Title of the main window (an English brand name, never localised).
pub const WINDOW_TITLE: &'static str = "Compass — Stock Chart";

/// The timeframe value of a toolbar index: `1d`, `1w`, `1M`; any other
/// index means `1d`.
pub open spec fn timeframe_label_spec(idx: usize) -> Seq<char> {
    if idx == 1 {
        "1w"@
    } else if idx == 2 {
        "1M"@
    } else {
        "1d"@
    }
}

/// The toolbar index of a timeframe value: 1 for `1w`, 2 for `1M`, 0 for
/// anything else (so an unexpected configured value still selects `1d`).
pub open spec fn timeframe_index_spec(value: Seq<char>) -> usize {
    if value == "1w"@ {
        1
    } else if value == "1M"@ {
        2
    } else {
        0
    }
}

/// Map a timeframe index to its value.
pub fn timeframe_label(idx: usize) -> (r: &'static str)
    ensures
        r@ == timeframe_label_spec(idx),
{
    match idx {
        0 => "1d",
        1 => "1w",
        2 => "1M",
        _ => "1d",
    }
}

/// Map a timeframe value back to its index.
pub fn timeframe_index_from_value(value: &str) -> (r: usize)
    ensures
        r == timeframe_index_spec(value@),
{
    if same_text(value, "1w") {
        1
    } else if same_text(value, "1M") {
        2
    } else {
        0
    }
}

/// The timeframe value of an index, as an owned string.
pub fn timeframe_value(idx: usize) -> (r: String)
    ensures
        r@ == timeframe_label_spec(idx),
{
    owned(timeframe_label(idx))
}

/// The three timeframe values are distinct.
proof fn lemma_timeframes_distinct()
    ensures
        "1d"@ != "1w"@,
        "1d"@ != "1M"@,
        "1w"@ != "1M"@,
{
    reveal_strlit("1d");
    reveal_strlit("1w");
    reveal_strlit("1M");
    assert("1d"@[1] != "1w"@[1]);
    assert("1d"@[1] != "1M"@[1]);
    assert("1w"@[1] != "1M"@[1]);
}

/// Index and value round-trip: every index of the toolbar maps to a value
/// that maps back to it, and every value the toolbar produces maps to an
/// index that maps back to it.
pub proof fn lemma_timeframe_round_trip(idx: usize)
    ensures
        idx < 3 ==> timeframe_index_spec(timeframe_label_spec(idx)) == idx,
        timeframe_label_spec(timeframe_index_spec(timeframe_label_spec(idx))) == timeframe_label_spec(
            idx,
        ),
{
    lemma_timeframes_distinct();
}

/// The supported UI language of a configured value: `zh` and `en` as they
/// are (case-sensitively), `zh` for anything else.
pub open spec fn normalize_language_spec(raw: Seq<char>) -> Seq<char> {
    if raw == "en"@ {
        "en"@
    } else {
        "zh"@
    }
}

/// Normalize a configured language value to `zh` or `en`.
pub fn normalize_language(raw: &str) -> (r: &'static str)
    ensures
        r@ == normalize_language_spec(raw@),
{
    proof {
        reveal_strlit("zh");
        reveal_strlit("en");
        assert("zh"@[0] != "en"@[0]);
    }
    if same_text(raw, "zh") {
        "zh"
    } else if same_text(raw, "en") {
        "en"
    } else {
        "zh"
    }
}

/// Whether a configured language value is one of the supported codes,
/// `zh` or `en` (case-sensitively). Any other value falls back to `zh`
/// and deserves a warning naming it.
pub fn is_supported_language(raw: &str) -> (r: bool)
    ensures
        r == (raw@ == "zh"@ || raw@ == "en"@),
        !r ==> normalize_language_spec(raw@) == "zh"@,
{
    same_text(raw, "zh") || same_text(raw, "en")
}

/// Default chat-completions base URL.
pub const DEFAULT_LLM_BASE_URL: &'static str = "https://api.openai.com/v1";

/// Default model name.
pub const DEFAULT_LLM_MODEL: &'static str = "gpt-4o-mini";

/// The `[llm]` configuration section: an OpenAI-compatible endpoint. Without
/// an API key the natural-language entry is off and nothing is sent.
#[derive(Debug, Clone, PartialEq)]
pub struct LlmSection {
    /// Endpoint base URL (empty: the default).
    pub base_url: String,
    /// API key (empty: not configured).
    pub api_key: String,
    /// Model name (empty: the default).
    pub model: String,
}

/// The settings the LLM client is built from.
#[derive(Debug, Clone, PartialEq)]
pub struct LlmConfig {
    /// Endpoint base URL.
    pub base_url: String,
    /// API key.
    pub api_key: String,
    /// Model name.
    pub model: String,
}

/// A configured value, or the default when it is empty.
pub open spec fn or_default(value: Seq<char>, default: Seq<char>) -> Seq<char> {
    if value.len() == 0 {
        default
    } else {
        value
    }
}

impl Default for LlmSection {
    fn default() -> (r: Self)
        ensures
            r.base_url@ == DEFAULT_LLM_BASE_URL@,
            r.api_key@ == Seq::<char>::empty(),
            r.model@ == DEFAULT_LLM_MODEL@,
    {
        LlmSection {
            base_url: owned(DEFAULT_LLM_BASE_URL),
            api_key: String::new(),
            model: owned(DEFAULT_LLM_MODEL),
        }
    }
}

/// A string, or the default when it is empty.
fn owned_or_default(value: &String, default: &str) -> (r: String)
    ensures
        r@ == or_default(value@, default@),
{
    if value.as_str().unicode_len() == 0 {
        owned(default)
    } else {
        value.clone()
    }
}

impl LlmSection {
    /// The feature is on exactly when an API key is present.
    pub fn is_configured(&self) -> (r: bool)
        ensures
            r == (self.api_key@.len() > 0),
    {
        self.api_key.as_str().unicode_len() > 0
    }

    /// The client settings, or `None` without an API key; an empty base
    /// URL or model falls back to the default.
    pub fn to_client_config(&self) -> (r: Option<LlmConfig>)
        ensures
            r is None <==> self.api_key@.len() == 0,
            r matches Some(c) ==> c.api_key@ == self.api_key@ && c.base_url@ == or_default(
                self.base_url@,
                DEFAULT_LLM_BASE_URL@,
            ) && c.model@ == or_default(self.model@, DEFAULT_LLM_MODEL@),
    {
        if !self.is_configured() {
            return None;
        }
        Some(
            LlmConfig {
                base_url: owned_or_default(&self.base_url, DEFAULT_LLM_BASE_URL),
                api_key: self.api_key.clone(),
                model: owned_or_default(&self.model, DEFAULT_LLM_MODEL),
            },
        )
    }
}

/// Normalizing a language twice is normalizing it once, and the result is
/// always `zh` or `en`.
pub proof fn lemma_normalize_language_idempotent(raw: Seq<char>)
    ensures
        normalize_language_spec(normalize_language_spec(raw)) == normalize_language_spec(raw),
        normalize_language_spec(raw) == "zh"@ || normalize_language_spec(raw) == "en"@,
{
}

} // verus!

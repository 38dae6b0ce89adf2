//! Data-name localisation: data names (index / industry / concept / theme)
//! carry a Chinese name and an optional English name. The English name is
//! shown only in the `en` locale and only when it is non-empty; everything
//! else renders the Chinese name, so a label is never blank because of an
//! empty English column.

use vstd::prelude::*;

use crate::text::{owned, same_text};
use vstd::string::StrSliceExecFns;

verus! {

/// The name shown for a data row: `en` when the locale is exactly `"en"` and
/// the English name is present and non-empty, `zh` otherwise.
pub open spec fn display_name_spec(locale: Seq<char>, zh: Seq<char>, en: Option<Seq<char>>) -> Seq<
    char,
> {
    match en {
        Some(e) => if locale == "en"@ && e.len() > 0 {
            e
        } else {
            zh
        },
        None => zh,
    }
}

/// The view of an optional string slice.
pub open spec fn opt_str_view(s: Option<&str>) -> Option<Seq<char>> {
    match s {
        Some(x) => Some(x@),
        None => None,
    }
}

/// Resolve the display name of a data row for the given locale.
pub fn display_name(locale: &str, zh: &str, en: Option<&str>) -> (r: String)
    ensures
        r@ == display_name_spec(locale@, zh@, opt_str_view(en)),
{
    match en {
        Some(e) => {
            if same_text(locale, "en") && e.unicode_len() > 0 {
                owned(e)
            } else {
                owned(zh)
            }
        },
        None => owned(zh),
    }
}

/// A data name is never blank when its Chinese name is not: whatever the
/// locale and the English column hold.
pub proof fn lemma_display_name_never_blank(locale: Seq<char>, zh: Seq<char>, en: Option<Seq<char>>)
    requires
        zh.len() > 0,
    ensures
        display_name_spec(locale, zh, en).len() > 0,
{
}

/// The English name is shown only in the `en` locale.
pub proof fn lemma_english_only_in_en(locale: Seq<char>, zh: Seq<char>, en: Option<Seq<char>>)
    requires
        locale != "en"@,
    ensures
        display_name_spec(locale, zh, en) == zh,
{
}

/// In the `en` locale a present, non-empty English name is shown; an absent
/// or empty one falls back to the Chinese name.
pub proof fn lemma_english_shown_in_en(zh: Seq<char>, en: Option<Seq<char>>)
    ensures
        en is Some && en->Some_0.len() > 0 ==> display_name_spec("en"@, zh, en) == en->Some_0,
        en is None || en->Some_0.len() == 0 ==> display_name_spec("en"@, zh, en) == zh,
{
}

} // verus!

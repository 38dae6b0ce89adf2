//! The toolbar's decisions: when the fetch button fetches, and when the
//! theme and language dropdowns switch (only to a choice that differs from
//! the current one).

use vstd::prelude::*;

use crate::text::same_text;

verus! {

/// A click on the fetch button fetches only while no fetch is loading.
pub fn fetch_requested(clicked: bool, loading: bool) -> (r: bool)
    ensures
        r == (clicked && !loading),
{
    clicked && !loading
}

/// I18n key of the fetch button's label.
pub open spec fn fetch_label_key_spec(loading: bool) -> Seq<char> {
    if loading {
        "toolbar.loading"@
    } else {
        "toolbar.fetch"@
    }
}

/// I18n key of the fetch button's label: "loading" while a fetch runs.
pub fn fetch_label_key(loading: bool) -> (r: &'static str)
    ensures
        r@ == fetch_label_key_spec(loading),
{
    if loading {
        "toolbar.loading"
    } else {
        "toolbar.fetch"
    }
}

/// The language dropdown's options are Chinese (position 0) and English
/// (position 1); a language code's position: 1 for "en", 0 otherwise.
pub open spec fn language_position(lang: Seq<char>) -> int {
    if lang == "en"@ {
        1
    } else {
        0
    }
}

/// The language code of a dropdown position: "en" for 1, "zh" otherwise.
pub open spec fn language_at(idx: int) -> Seq<char> {
    if idx == 1 {
        "en"@
    } else {
        "zh"@
    }
}

/// The dropdown position showing `lang` as selected.
pub fn language_index(lang: &str) -> (r: usize)
    ensures
        r == language_position(lang@),
{
    if same_text(lang, "en") {
        1
    } else {
        0
    }
}

/// The language picked at dropdown position `idx`, when it differs from
/// `current`; `None` (no switch) when it is the current one.
pub fn language_switch(current: &str, idx: usize) -> (r: Option<&'static str>)
    ensures
        language_at(idx as int) != current@ ==> r is Some && r->Some_0@ == language_at(idx as int),
        language_at(idx as int) == current@ ==> r is None,
{
    let picked = if idx == 1 {
        "en"
    } else {
        "zh"
    };
    if same_text(picked, current) {
        None
    } else {
        Some(picked)
    }
}

/// The two positions and the two codes correspond one to one.
pub proof fn lemma_language_round_trip(idx: int, lang: Seq<char>)
    ensures
        (idx == 0 || idx == 1) ==> language_position(language_at(idx)) == idx,
        (lang == "zh"@ || lang == "en"@) ==> language_at(language_position(lang)) == lang,
{
    reveal_strlit("en");
    reveal_strlit("zh");
    assert("zh"@[0] != "en"@[0]);
}

/// `i` is the first position holding the name `current`.
pub open spec fn is_first_named(names: Seq<String>, current: Seq<char>, i: int) -> bool {
    &&& 0 <= i < names.len()
    &&& names[i]@ == current
    &&& forall|k: int| 0 <= k < i ==> names[k]@ != current
}

/// The theme dropdown's selected position: the first position of the
/// current theme's name, 0 when it is not listed.
pub open spec fn theme_position(names: Seq<String>, current: Seq<char>) -> int {
    if exists|i: int| is_first_named(names, current, i) {
        choose|i: int| is_first_named(names, current, i)
    } else {
        0
    }
}

/// The dropdown position showing the current theme as selected.
pub fn theme_index(names: &Vec<String>, current: &str) -> (r: usize)
    ensures
        r == theme_position(names@, current@),
{
    let mut i: usize = 0;
    while i < names.len()
        invariant
            i <= names@.len(),
            forall|k: int| 0 <= k < i ==> names@[k]@ != current@,
        decreases names@.len() - i,
    {
        if same_text(names[i].as_str(), current) {
            proof {
                assert(is_first_named(names@, current@, i as int));
                let c = choose|c: int| is_first_named(names@, current@, c);
                if c < i {
                    assert(names@[c]@ != current@);
                } else if c > i {
                    assert(names@[i as int]@ != current@);
                }
            }
            return i;
        }
        i = i + 1;
    }
    proof {
        assert(!exists|c: int| is_first_named(names@, current@, c));
    }
    0
}

/// Picking position `idx` of the theme list switches the theme only when
/// the name there differs from the current theme's.
pub fn theme_switches(names: &Vec<String>, current: &str, idx: usize) -> (r: bool)
    requires
        idx < names@.len(),
    ensures
        r == (names@[idx as int]@ != current@),
{
    !same_text(names[idx].as_str(), current)
}

} // verus!

//! The editors of a condition card's parameters: which dropdown position
//! shows a card's current value, which value a picked position sets, and
//! what the delisted checkbox does to its card.

use vstd::prelude::*;

use crate::screener_builder::MaKind;
use crate::text::owned;

verus! {

/// The listing-years dropdown: unlimited, then at least 1, 3 and 5 years.
pub open spec fn list_years_at(idx: int) -> Option<u32> {
    if idx == 1 {
        Some(1)
    } else if idx == 2 {
        Some(3)
    } else if idx == 3 {
        Some(5)
    } else {
        None
    }
}

/// The dropdown position of a listing-years bound; a bound the dropdown does
/// not offer shows the first position (unlimited).
pub open spec fn list_years_position(years: Option<u32>) -> int {
    match years {
        Some(1) => 1,
        Some(3) => 2,
        Some(5) => 3,
        _ => 0,
    }
}

/// The dropdown position showing a card's listing-years bound.
pub fn list_years_index(years: Option<u32>) -> (r: usize)
    ensures
        r == list_years_position(years),
{
    match years {
        Some(1) => 1,
        Some(3) => 2,
        Some(5) => 3,
        _ => 0,
    }
}

/// The listing-years bound picked at dropdown position `idx`.
pub fn list_years_value(idx: usize) -> (r: Option<u32>)
    requires
        idx < 4,
    ensures
        r == list_years_at(idx as int),
{
    if idx == 1 {
        Some(1)
    } else if idx == 2 {
        Some(3)
    } else if idx == 3 {
        Some(5)
    } else {
        None
    }
}

/// Picking the position that shows a bound keeps the bound, for every bound
/// the dropdown offers; and each position shows the bound it sets.
pub proof fn lemma_list_years_round_trip(years: Option<u32>, idx: int)
    ensures
        (years is None || years == Some(1u32) || years == Some(3u32) || years == Some(5u32))
            ==> list_years_at(list_years_position(years)) == years,
        0 <= idx < 4 ==> list_years_position(list_years_at(idx)) == idx,
{
}

/// The MA dropdown: above MA20, above MA60, bullish alignment.
pub open spec fn ma_kind_position(kind: MaKind) -> int {
    match kind {
        MaKind::AboveMa20 => 0,
        MaKind::AboveMa60 => 1,
        MaKind::BullishAlign => 2,
    }
}

/// The MA selection picked at dropdown position `idx` (any position past
/// the list picks the first).
pub open spec fn ma_kind_at(idx: int) -> MaKind {
    if idx == 1 {
        MaKind::AboveMa60
    } else if idx == 2 {
        MaKind::BullishAlign
    } else {
        MaKind::AboveMa20
    }
}

/// The dropdown position showing a card's MA selection.
pub fn ma_kind_index(kind: MaKind) -> (r: usize)
    ensures
        r == ma_kind_position(kind),
{
    match kind {
        MaKind::AboveMa20 => 0,
        MaKind::AboveMa60 => 1,
        MaKind::BullishAlign => 2,
    }
}

/// The MA selection picked at dropdown position `idx`.
pub fn ma_kind_value(idx: usize) -> (r: MaKind)
    ensures
        r == ma_kind_at(idx as int),
{
    if idx == 1 {
        MaKind::AboveMa60
    } else if idx == 2 {
        MaKind::BullishAlign
    } else {
        MaKind::AboveMa20
    }
}

/// The MA positions and selections correspond one to one.
pub proof fn lemma_ma_kind_round_trip(kind: MaKind, idx: int)
    ensures
        ma_kind_at(ma_kind_position(kind)) == kind,
        0 <= idx < 3 ==> ma_kind_position(ma_kind_at(idx)) == idx,
{
}

/// The delisted card's "exclude delisted" checkbox is ticked while the
/// card's flag says delisted stocks are not included. `checked` is the box
/// after this frame: ticking it clears the flag (delisted excluded),
/// unticking it removes the card (the returned flag); an unchanged box
/// changes nothing.
pub fn delisted_checkbox(included: &mut bool, checked: bool) -> (remove: bool)
    ensures
        checked == !*old(included) ==> !remove && *final(included) == *old(included),
        checked != !*old(included) && checked ==> !remove && !*final(included),
        checked != !*old(included) && !checked ==> remove && *final(included) == *old(included),
{
    if checked != !*included {
        if checked {
            *included = false;
            false
        } else {
            true
        }
    } else {
        false
    }
}

/// The exchanges the exchange card offers.
pub open spec fn exchange_options_spec() -> Seq<Seq<char>> {
    seq!["SH"@, "SZ"@, "BJ"@]
}

/// The exchanges the exchange card offers: SH, SZ and BJ.
pub fn exchange_options() -> (r: Vec<String>)
    ensures
        r@.map_values(|s: String| s@) == exchange_options_spec(),
{
    let r = vec![owned("SH"), owned("SZ"), owned("BJ")];
    assert(r@.map_values(|s: String| s@) =~= exchange_options_spec());
    r
}

} // verus!

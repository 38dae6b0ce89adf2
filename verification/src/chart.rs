//! The chart panel's overlay cache: the MA/BOLL values are recomputed only
//! when the fingerprint of the bar series changes (symbol, bar count, first
//! and last bar times, last close), so a price revision inside an unchanged
//! date window, or a switch to another symbol with the same bar shape, is
//! never served stale values.

use vstd::prelude::*;

use crate::text::same_text;

verus! {

/// The fingerprint of a bar series.
#[derive(Debug, Clone, PartialEq)]
pub struct SeriesKey {
    /// The symbol shown.
    pub symbol: String,
    /// Number of bars.
    pub count: usize,
    /// Timestamp of the first bar.
    pub first_time: i64,
    /// Timestamp of the last bar.
    pub last_time: i64,
    /// Bits of the last close (`f64::to_bits`).
    pub last_close_bits: u64,
}

/// The view of a fingerprint.
pub open spec fn key_view(k: SeriesKey) -> (Seq<char>, usize, i64, i64, u64) {
    (k.symbol@, k.count, k.first_time, k.last_time, k.last_close_bits)
}

/// The view of an optional fingerprint.
pub open spec fn opt_key_view(k: Option<SeriesKey>) -> Option<(Seq<char>, usize, i64, i64, u64)> {
    match k {
        Some(x) => Some(key_view(x)),
        None => None,
    }
}

/// Whether two fingerprints are equal.
fn same_key(a: &SeriesKey, b: &SeriesKey) -> (r: bool)
    ensures
        r == (key_view(*a) == key_view(*b)),
{
    same_text(a.symbol.as_str(), b.symbol.as_str()) && a.count == b.count && a.first_time
        == b.first_time && a.last_time == b.last_time && a.last_close_bits == b.last_close_bits
}

/// The fingerprint the overlay was last computed for.
pub struct IndicatorCache {
    /// `None` until the first computation.
    pub key: Option<SeriesKey>,
}

impl IndicatorCache {
    /// Nothing computed yet.
    pub fn new() -> (r: Self)
        ensures
            r.key is None,
    {
        IndicatorCache { key: None }
    }

    /// Whether the overlay must be recomputed for a series with this
    /// fingerprint: exactly when it differs from the last one. The
    /// fingerprint is remembered either way.
    pub fn needs_recompute(&mut self, key: SeriesKey) -> (r: bool)
        ensures
            r == (opt_key_view(old(self).key) != Some(key_view(key))),
            opt_key_view(final(self).key) == Some(key_view(key)),
    {
        let changed = match &self.key {
            Some(k) => !same_key(k, &key),
            None => true,
        };
        if changed {
            self.key = Some(key);
        }
        changed
    }
}

} // verus!

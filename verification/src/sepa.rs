//! The SEPA ranking panel: its twelve table columns, the TOP-N switch (a
//! local truncation that never touches the shared data), the selected row,
//! and the industry cell (industry plus at most two themes, localised).

use vstd::prelude::*;

use crate::i18n_name::{display_name, display_name_spec};
use crate::market::{columns_view, ColumnSpec};
use crate::text::opt_view;
use vstd::string::{StrSliceExecFns, StringExecFns};

verus! {

/// The ranking table's columns: rank, code, name, the total and five module
/// scores, industry, latest price and change.
pub open spec fn sepa_columns_spec() -> Seq<(Seq<char>, bool)> {
    seq![
        ("sepa.table.rank"@, true),
        ("sepa.table.code"@, false),
        ("sepa.table.name"@, false),
        ("sepa.table.total"@, true),
        ("sepa.table.trend"@, true),
        ("sepa.table.theme"@, true),
        ("sepa.table.capital"@, true),
        ("sepa.table.pattern"@, true),
        ("sepa.table.risk"@, true),
        ("sepa.table.industry"@, false),
        ("sepa.table.latest"@, true),
        ("sepa.table.change"@, true),
    ]
}

/// The ranking table's columns.
pub fn sepa_columns() -> (r: Vec<ColumnSpec>)
    ensures
        columns_view(r@) == sepa_columns_spec(),
{
    let mut r: Vec<ColumnSpec> = Vec::new();
    r.push(ColumnSpec { header: "sepa.table.rank", numeric: true });
    r.push(ColumnSpec { header: "sepa.table.code", numeric: false });
    r.push(ColumnSpec { header: "sepa.table.name", numeric: false });
    r.push(ColumnSpec { header: "sepa.table.total", numeric: true });
    r.push(ColumnSpec { header: "sepa.table.trend", numeric: true });
    r.push(ColumnSpec { header: "sepa.table.theme", numeric: true });
    r.push(ColumnSpec { header: "sepa.table.capital", numeric: true });
    r.push(ColumnSpec { header: "sepa.table.pattern", numeric: true });
    r.push(ColumnSpec { header: "sepa.table.risk", numeric: true });
    r.push(ColumnSpec { header: "sepa.table.industry", numeric: false });
    r.push(ColumnSpec { header: "sepa.table.latest", numeric: true });
    r.push(ColumnSpec { header: "sepa.table.change", numeric: true });
    assert(columns_view(r@) =~= sepa_columns_spec());
    r
}

/// The TOP-N cap of a switch position: 30 for the second, 50 otherwise.
pub open spec fn top_n_of_segment(idx: usize) -> usize {
    if idx == 1 {
        30
    } else {
        50
    }
}

/// The switch position showing a cap: the second for 30, the first
/// otherwise.
pub open spec fn segment_of_top_n(top_n: usize) -> usize {
    if top_n == 30 {
        1
    } else {
        0
    }
}

/// The number of rows shown: all of them, at most the cap.
pub open spec fn shown_count_spec(rows: usize, top_n: usize) -> usize {
    if rows < top_n {
        rows
    } else {
        top_n
    }
}

/// The SEPA panel's own state.
pub struct SepaPanel {
    /// TOP-N cap (50 or 30), applied to a local copy of the rows only.
    pub top_n: usize,
    /// Position of the row shown in the detail panel.
    pub selected: Option<usize>,
}

impl SepaPanel {
    /// TOP 50, nothing selected.
    pub fn new() -> (r: Self)
        ensures
            r.top_n == 50,
            r.selected is None,
    {
        SepaPanel { top_n: 50, selected: None }
    }

    /// The switch position showing the current cap.
    pub fn top_n_segment(&self) -> (r: usize)
        ensures
            r == segment_of_top_n(self.top_n),
    {
        if self.top_n == 30 {
            1
        } else {
            0
        }
    }

    /// Pick a TOP-N switch position.
    pub fn select_top_n(&mut self, idx: usize)
        ensures
            final(self).top_n == top_n_of_segment(idx),
            final(self).selected == old(self).selected,
    {
        self.top_n = if idx == 1 {
            30
        } else {
            50
        };
    }

    /// The number of rows shown out of `rows`.
    pub fn shown_count(&self, rows: usize) -> (r: usize)
        ensures
            r == shown_count_spec(rows, self.top_n),
    {
        if rows < self.top_n {
            rows
        } else {
            self.top_n
        }
    }

    /// A row of the table was clicked.
    pub fn select_row(&mut self, idx: usize)
        ensures
            final(self).selected == Some(idx),
            final(self).top_n == old(self).top_n,
    {
        self.selected = Some(idx);
    }

    /// Drop the selection (after a refresh the old position means another
    /// row).
    pub fn reset_selection(&mut self)
        ensures
            final(self).selected is None,
            final(self).top_n == old(self).top_n,
    {
        self.selected = None;
    }
}

/// The industry cell after adding the first `n` themes: each localised name
/// is appended, after a `" · "` separator unless the cell is still empty.
pub open spec fn industry_cell_upto(
    locale: Seq<char>,
    base: Seq<char>,
    themes: Seq<String>,
    themes_en: Seq<Option<String>>,
    n: int,
) -> Seq<char>
    decreases n,
{
    if n <= 0 {
        base
    } else {
        let prev = industry_cell_upto(locale, base, themes, themes_en, n - 1);
        let name = display_name_spec(locale, themes[n - 1]@, opt_view(themes_en[n - 1]));
        if prev.len() > 0 {
            prev + " · "@ + name
        } else {
            name
        }
    }
}

/// The industry cell of a row: the localised industry name followed by the
/// localised names of its first two themes.
pub open spec fn industry_cell_spec(
    locale: Seq<char>,
    industry: Seq<char>,
    industry_en: Option<Seq<char>>,
    themes: Seq<String>,
    themes_en: Seq<Option<String>>,
) -> Seq<char> {
    let n = if themes.len() < 2 {
        themes.len() as int
    } else {
        2
    };
    industry_cell_upto(locale, display_name_spec(locale, industry, industry_en), themes, themes_en, n)
}

/// Build the industry cell of a row; `themes_en[i]` is the English name of
/// `themes[i]`, when one is mapped.
pub fn industry_cell(
    locale: &str,
    industry: &str,
    industry_en: Option<&str>,
    themes: &Vec<String>,
    themes_en: &Vec<Option<String>>,
) -> (r: String)
    requires
        themes_en@.len() == themes@.len(),
    ensures
        r@ == industry_cell_spec(
            locale@,
            industry@,
            crate::i18n_name::opt_str_view(industry_en),
            themes@,
            themes_en@,
        ),
{
    let mut cell = display_name(locale, industry, industry_en);
    let ghost base = cell@;
    let n: usize = if themes.len() < 2 {
        themes.len()
    } else {
        2
    };
    let mut i: usize = 0;
    while i < n
        invariant
            i <= n,
            n <= themes@.len(),
            themes_en@.len() == themes@.len(),
            cell@ == industry_cell_upto(locale@, base, themes@, themes_en@, i as int),
        decreases n - i,
    {
        if cell.as_str().unicode_len() > 0 {
            cell.append(" · ");
        }
        let en: Option<&str> = match &themes_en[i] {
            Some(e) => Some(e.as_str()),
            None => None,
        };
        let name = display_name(locale, themes[i].as_str(), en);
        cell.append(name.as_str());
        i = i + 1;
    }
    cell
}

/// The industry cell spelled out: the localised industry name, then the
/// localised names of the first two themes (later themes are left out),
/// each after a `" · "` separator unless nothing precedes it.
pub proof fn lemma_industry_cell_joins(
    locale: Seq<char>,
    industry: Seq<char>,
    industry_en: Option<Seq<char>>,
    themes: Seq<String>,
    themes_en: Seq<Option<String>>,
)
    requires
        themes_en.len() == themes.len(),
    ensures
        ({
            let cell = industry_cell_spec(locale, industry, industry_en, themes, themes_en);
            let base = display_name_spec(locale, industry, industry_en);
            let t0 = display_name_spec(locale, themes[0]@, opt_view(themes_en[0]));
            let t1 = display_name_spec(locale, themes[1]@, opt_view(themes_en[1]));
            &&& themes.len() == 0 ==> cell == base
            &&& themes.len() == 1 && base.len() > 0 ==> cell == base + " · "@ + t0
            &&& themes.len() == 1 && base.len() == 0 ==> cell == t0
            &&& themes.len() >= 2 && base.len() > 0 ==> cell == base + " · "@ + t0 + " · "@ + t1
            &&& themes.len() >= 2 && base.len() == 0 && t0.len() > 0 ==> cell == t0 + " · "@ + t1
        }),
{
    let base = display_name_spec(locale, industry, industry_en);
    if themes.len() >= 1 {
        let c1 = industry_cell_upto(locale, base, themes, themes_en, 1);
        assert(industry_cell_upto(locale, base, themes, themes_en, 0) == base);
        if themes.len() >= 2 {
            let t0 = display_name_spec(locale, themes[0]@, opt_view(themes_en[0]));
            if base.len() > 0 {
                assert(c1 == base + " · "@ + t0);
                assert(c1.len() > 0);
            } else if t0.len() > 0 {
                assert(c1 == t0);
            }
        }
    }
}

} // verus!

//! Once-per-session and confirm-then-act decisions of the main window: the
//! startup guide shown when no stock list is available, and removing a
//! watchlist symbol only after the danger dialog is confirmed.

use vstd::prelude::*;

use crate::text::{opt_view, owned, same_text};

verus! {

/// Whether the startup guide has been considered this session.
pub struct StartupGuide {
    /// The first frame has been handled.
    pub shown: bool,
}

impl StartupGuide {
    /// Nothing handled yet.
    pub fn new() -> (r: Self)
        ensures
            !r.shown,
    {
        StartupGuide { shown: false }
    }

    /// Whether this frame opens the guide: only on the first frame of the
    /// session, and only when the stock list is empty.
    pub fn due(&mut self, stock_list_empty: bool) -> (r: bool)
        ensures
            r == (!old(self).shown && stock_list_empty),
            final(self).shown,
    {
        let first = !self.shown;
        self.shown = true;
        first && stock_list_empty
    }
}

/// A watchlist removal waiting for the danger dialog.
pub struct DeleteConfirmation {
    /// The symbol the dialog asks about.
    pub pending: Option<String>,
    /// The dialog was confirmed.
    pub confirmed: bool,
}

impl DeleteConfirmation {
    /// Nothing pending.
    pub fn new() -> (r: Self)
        ensures
            r.pending is None,
            !r.confirmed,
    {
        DeleteConfirmation { pending: None, confirmed: false }
    }

    /// A delete was requested for `symbol`. Returns whether the dialog must
    /// be (re)opened: not when it is already open for the same symbol;
    /// otherwise the symbol becomes pending, unconfirmed.
    pub fn request(&mut self, symbol: &str, dialog_open: bool) -> (r: bool)
        ensures
            r == !(opt_view(old(self).pending) == Some(symbol@) && dialog_open),
            !r ==> opt_view(final(self).pending) == opt_view(old(self).pending)
                && final(self).confirmed == old(self).confirmed,
            r ==> opt_view(final(self).pending) == Some(symbol@) && !final(self).confirmed,
    {
        let same = match &self.pending {
            Some(p) => same_text(p.as_str(), symbol),
            None => false,
        };
        if same && dialog_open {
            return false;
        }
        self.pending = Some(owned(symbol));
        self.confirmed = false;
        true
    }

    /// The dialog's OK ran.
    pub fn confirm(&mut self)
        ensures
            final(self).confirmed,
            opt_view(final(self).pending) == opt_view(old(self).pending),
    {
        self.confirmed = true;
    }

    /// Settle a frame: a confirmed pending symbol is returned for removal
    /// (and the flag reset); a pending symbol whose dialog closed without
    /// confirmation is dropped.
    pub fn settle(&mut self, dialog_open: bool) -> (r: Option<String>)
        ensures
            old(self).confirmed && old(self).pending is Some ==> opt_view(r) == opt_view(
                old(self).pending,
            ) && final(self).pending is None && !final(self).confirmed,
            !(old(self).confirmed && old(self).pending is Some) ==> r is None,
            !(old(self).confirmed && old(self).pending is Some) && !dialog_open
                && !old(self).confirmed ==> final(self).pending is None && final(self).confirmed
                == old(self).confirmed,
            !(old(self).confirmed && old(self).pending is Some) && !(!dialog_open
                && !old(self).confirmed) ==> opt_view(final(self).pending) == opt_view(
                old(self).pending,
            ) && final(self).confirmed == old(self).confirmed,
    {
        if self.confirmed && self.pending.is_some() {
            let p = self.pending.take();
            self.confirmed = false;
            return p;
        }
        if !dialog_open && self.pending.is_some() && !self.confirmed {
            self.pending = None;
        }
        None
    }
}

} // verus!

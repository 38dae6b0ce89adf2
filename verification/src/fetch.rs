//! Bar fetching around the background worker: what routing a fetch request
//! does to the loading and error state, and what the worker answers for
//! each outcome of the store lookup.

use vstd::prelude::*;
use vstd::string::StringExecFns;

use crate::messages::AppMessage;
use crate::text::owned;

verus! {

/// The fetch indicators the panels read.
pub struct FetchState {
    /// A fetch is in flight.
    pub loading: bool,
    /// The last fetch error, if any.
    pub error: Option<String>,
}

/// The prefix of the log entry written when a request cannot be handed to
/// the worker.
pub open spec fn send_failed_prefix() -> Seq<char> {
    seq!['w', 'o', 'r', 'k', '_', 's', 'i', 'g', 'n', 'a', 'l', '.', 's', 'e', 'n', 'd', ' ',
        'f', 'a', 'i', 'l', 'e', 'd', ':', ' ']
}

/// The log entry for a request the worker channel refused with `e`.
pub open spec fn send_failed_entry(e: Seq<char>) -> Seq<char> {
    send_failed_prefix() + e
}

/// `work_signal.send failed: ` followed by the channel's error.
fn send_failed_message(e: &str) -> (r: String)
    ensures
        r@ == send_failed_entry(e@),
{
    let mut s = String::new();
    s.append("work_signal.send failed: ");
    proof {
        reveal_strlit("work_signal.send failed: ");
    }
    s.append(e);
    s
}

/// Route an application message. `FetchBars` sets the loading indicator
/// and clears the error before the request goes to the worker; when the
/// hand-over failed (`send_error` is the channel's error) loading is reset
/// and the returned log entry says why.
pub fn handle(msg: AppMessage, state: &mut FetchState, send_error: Option<&str>) -> (log: Option<
    String,
>)
    ensures
        final(state).error is None,
        final(state).loading == (send_error is None),
        match send_error {
            None => log is None,
            Some(e) => log is Some && log->Some_0@ == send_failed_entry(e@),
        },
{
    match msg {
        AppMessage::FetchBars => {
            state.loading = true;
            state.error = None;
            match send_error {
                Some(e) => {
                    state.loading = false;
                    Some(send_failed_message(e))
                },
                None => None,
            }
        },
    }
}

/// A row click in the screener or SEPA panel: the shared symbol becomes the
/// clicked one and a `FetchBars` request for it is routed as [`handle`]
/// routes it.
pub fn dispatch_symbol_fetch(
    current_symbol: &mut String,
    state: &mut FetchState,
    symbol: &str,
    send_error: Option<&str>,
) -> (log: Option<String>)
    ensures
        final(current_symbol)@ == symbol@,
        final(state).error is None,
        final(state).loading == (send_error is None),
        match send_error {
            None => log is None,
            Some(e) => log is Some && log->Some_0@ == send_failed_entry(e@),
        },
{
    *current_symbol = owned(symbol);
    handle(AppMessage::FetchBars, state, send_error)
}

/// Why a fetch produced no bars.
#[derive(Debug, Clone, PartialEq)]
pub enum FetchError {
    /// The lookup succeeded but found no bars for the symbol.
    NoData { symbol: String },
    /// The lookup failed; the store's error text.
    Failed(String),
}

/// The view of a fetch error.
pub enum FetchErrorView {
    NoData { symbol: Seq<char> },
    Failed(Seq<char>),
}

/// The view of an optional fetch error.
pub open spec fn fetch_error_view(e: Option<FetchError>) -> Option<FetchErrorView> {
    match e {
        None => None,
        Some(FetchError::NoData { symbol }) => Some(FetchErrorView::NoData { symbol: symbol@ }),
        Some(FetchError::Failed(t)) => Some(FetchErrorView::Failed(t@)),
    }
}

/// The worker's answer to a fetch of `symbol` whose store lookup gave
/// `fetched`: the bars and no error when some were found; no bars and a
/// no-data error naming the symbol when none were; no bars and the store's
/// error text when the lookup failed.
pub fn fetch_response<B>(symbol: &str, fetched: Result<Vec<B>, String>) -> (r: (
    Vec<B>,
    Option<FetchError>,
))
    ensures
        match fetched {
            Ok(bars) => if bars@.len() > 0 {
                r.0@ == bars@ && r.1 is None
            } else {
                r.0@.len() == 0 && fetch_error_view(r.1) == Some(
                    FetchErrorView::NoData { symbol: symbol@ },
                )
            },
            Err(e) => r.0@.len() == 0 && fetch_error_view(r.1) == Some(FetchErrorView::Failed(e@)),
        },
{
    match fetched {
        Ok(bars) => {
            if bars.len() == 0 {
                (Vec::new(), Some(FetchError::NoData { symbol: owned(symbol) }))
            } else {
                (bars, None)
            }
        },
        Err(e) => (Vec::new(), Some(FetchError::Failed(e))),
    }
}

} // verus!

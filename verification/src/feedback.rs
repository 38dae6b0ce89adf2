//! Fetch feedback: which toasts a frame raises from the fetch state. An
//! error toasts once, when the error changes to a new one; success toasts
//! when loading ends without an error.

use vstd::prelude::*;

use crate::text::{opt_view, same_text};

verus! {

/// A toast a frame raises.
#[derive(Debug, Clone, PartialEq)]
pub enum FetchNotice {
    /// An error toast with the error's text.
    Error(String),
    /// The fetch-succeeded toast.
    Success,
}

/// The view of a notice.
pub enum NoticeView {
    Error(Seq<char>),
    Success,
}

/// The views of a list of notices.
pub open spec fn notices_view(v: Seq<FetchNotice>) -> Seq<NoticeView> {
    v.map_values(
        |n: FetchNotice|
            match n {
                FetchNotice::Error(s) => NoticeView::Error(s@),
                FetchNotice::Success => NoticeView::Success,
            },
    )
}

/// What the previous frame saw of the fetch state.
pub struct FetchFeedback {
    /// The error seen last frame.
    pub last_error: Option<String>,
    /// Whether a fetch was loading last frame.
    pub last_loading: bool,
}

/// The toasts of a frame seeing `error` and `loading` after a frame that
/// saw `last_error` and `last_loading`.
pub open spec fn frame_notices(
    last_error: Option<Seq<char>>,
    last_loading: bool,
    error: Option<Seq<char>>,
    loading: bool,
) -> Seq<NoticeView> {
    let on_error = if error != last_error && error is Some {
        seq![NoticeView::Error(error->Some_0)]
    } else {
        Seq::empty()
    };
    let on_success = if last_loading && !loading && error is None {
        seq![NoticeView::Success]
    } else {
        Seq::empty()
    };
    on_error + on_success
}

/// Whether two optional strings are equal.
fn same_opt(a: &Option<String>, b: &Option<String>) -> (r: bool)
    ensures
        r == (opt_view(*a) == opt_view(*b)),
{
    match (a, b) {
        (Some(x), Some(y)) => same_text(x.as_str(), y.as_str()),
        (None, None) => true,
        _ => false,
    }
}

impl FetchFeedback {
    /// Nothing seen yet: no error, not loading.
    pub fn new() -> (r: Self)
        ensures
            r.last_error is None,
            !r.last_loading,
    {
        FetchFeedback { last_error: None, last_loading: false }
    }

    /// Observe this frame's fetch state, returning the toasts to raise and
    /// remembering the state for the next frame.
    pub fn observe(&mut self, error: Option<String>, loading: bool) -> (r: Vec<FetchNotice>)
        ensures
            notices_view(r@) == frame_notices(
                opt_view(old(self).last_error),
                old(self).last_loading,
                opt_view(error),
                loading,
            ),
            opt_view(final(self).last_error) == opt_view(error),
            final(self).last_loading == loading,
    {
        let mut out: Vec<FetchNotice> = Vec::new();
        let error_free = error.is_none();
        if !same_opt(&error, &self.last_error) {
            match &error {
                Some(e) => out.push(FetchNotice::Error(e.clone())),
                None => {},
            }
            self.last_error = error;
        }
        if self.last_loading && !loading && error_free {
            out.push(FetchNotice::Success);
        }
        self.last_loading = loading;
        proof {
            let v = notices_view(out@);
            assert(v =~= frame_notices(
                opt_view(old(self).last_error),
                old(self).last_loading,
                opt_view(error),
                loading,
            ));
        }
        out
    }
}

/// An error that stays the same toasts once: a frame that sees the error
/// the previous frame saw raises no error toast (and no success toast).
pub proof fn lemma_same_error_toasts_once(e: Seq<char>, last_loading: bool, loading: bool)
    ensures
        frame_notices(Some(e), last_loading, Some(e), loading) == Seq::<NoticeView>::empty(),
{
    assert(frame_notices(Some(e), last_loading, Some(e), loading) =~= Seq::<NoticeView>::empty());
}

/// Success toasts exactly when loading ends without an error.
pub proof fn lemma_success_when_loading_ends(last_error: Option<Seq<char>>, last_loading: bool, loading: bool)
    ensures
        frame_notices(last_error, last_loading, None, loading).contains(NoticeView::Success)
            <==> (last_loading && !loading),
{
    let v = frame_notices(last_error, last_loading, None, loading);
    if last_loading && !loading {
        assert(v[v.len() - 1] == NoticeView::Success);
    }
}

} // verus!

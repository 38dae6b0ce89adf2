//! Messages between the panels and the background workers that carry only
//! library values.

use vstd::prelude::*;

use crate::filter::Filter;

verus! {

/// An application-level request routed by the dispatcher.
#[derive(Debug, Clone, Copy, PartialEq, Eq, Structural)]
pub enum AppMessage {
    /// Fetch the bars of the current symbol and timeframe.
    FetchBars,
}

/// Ask for a SEPA scoring run (the TOP-N cap is a display setting and is not
/// sent).
#[derive(Debug, Clone, Copy, PartialEq, Eq, Structural)]
pub struct RunSepaRequest {}

/// Ask for a market snapshot (it always covers every index and board).
#[derive(Debug, Clone, Copy, PartialEq, Eq, Structural)]
pub struct RunIndexSnapshotRequest {}

/// Ask the model for a filter matching a free-text request.
#[derive(Debug, Clone, PartialEq)]
pub struct RunLlmRequest {
    /// The user's request.
    pub prompt: String,
    /// The request's sequence number (responses to older ones are dropped).
    pub seq: u64,
}

/// The model's answer to a request.
#[derive(Debug, PartialEq)]
pub struct RunLlmResponse {
    /// The generated filter, when the answer parsed.
    pub filter: Option<Filter>,
    /// Why no filter came back.
    pub error: Option<String>,
    /// The sequence number of the request answered.
    pub seq: u64,
}

} // verus!

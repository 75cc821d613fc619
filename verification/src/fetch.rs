//! The shape of a completed provider exchange.
//!
//! The pipeline never performs network calls itself: the surrounding
//! program issues one GET per stage and reports what happened as an
//! `HttpOutcome`. The stage logic then decides, for every possible
//! outcome, whether the stage succeeded and with what.

use vstd::prelude::*;

verus! {

/// Everything a single GET can come back with: a transport-level
/// failure, or a response with its status, body text, and the body
/// decoded into the expected shape (`None` when it did not decode).
#[derive(Debug)]
pub enum HttpOutcome<T> {
    Transport { message: String },
    Response { status: u16, body: String, parsed: Option<T> },
}

/// A success (2xx) HTTP status.
pub open spec fn is_success_status(status: u16) -> bool {
    200 <= status < 300
}

pub fn success_status(status: u16) -> (b: bool)
    ensures
        b == is_success_status(status),
{
    200 <= status && status < 300
}

} // verus!

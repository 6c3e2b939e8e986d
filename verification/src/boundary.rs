//! The service boundary adapter: mapping dispatcher outcomes and decode
//! failures to boundary responses (status class and payload text).
//!
//! Capacity faults (`QueueFull`, `WorkerGone`) render as the retryable
//! "temporarily overloaded" class (503); an inference fault renders as the
//! internal class (500) with its detail; a rejected payload is the caller's
//! fault (400).

use vstd::prelude::*;
use crate::audio::{decode_error_text, DecodeError};
use crate::dispatcher::{status_code_of, worker_error_text, WorkerError};

verus! {

/// The boundary response (status code, body text) for one transcription
/// attempt.
pub open spec fn rendered_outcome(r: Result<String, WorkerError>) -> (u16, Seq<char>) {
    match r {
        Ok(text) => (200, text@),
        Err(e) => (status_code_of(e), worker_error_text(e)),
    }
}

/// Renders the dispatcher's verdict for one request: 200 with the
/// transcript on success; a failure gets its status class — 503 for
/// capacity faults, 500 for inference faults — and its message.
pub fn render_outcome(r: Result<String, WorkerError>) -> (resp: (u16, String))
    ensures
        resp.0 == rendered_outcome(r).0,
        resp.1@ == rendered_outcome(r).1,
{
    match r {
        Ok(text) => (200, text),
        Err(e) => {
            let code = e.status_code();
            let m = e.message();
            (code, m)
        },
    }
}

/// Renders a rejected payload: the caller's input fault, status 400 with
/// the decoder's message, never retried by the service.
pub fn render_decode_failure(e: &DecodeError) -> (resp: (u16, String))
    ensures
        resp.0 == 400,
        resp.1@ == decode_error_text(*e),
{
    (400, e.message())
}

} // verus!

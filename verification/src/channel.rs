//! The single-use result handoff between the worker and one submitter.
//!
//! Every job carries one private channel. The worker writes at most once;
//! the submitter reads at most once (reading consumes the receiving side).
//! A write after the reader has abandoned the wait is a no-op, not an error,
//! and touches nothing but that one channel value — abandonment can never
//! block or fail any other job.

use vstd::prelude::*;
use crate::dispatcher::{JobOutcome, WorkerError};

verus! {

/// The state of one job's private result channel.
pub struct ResultChannel {
    /// The delivered outcome, if the worker has answered.
    pub message: Option<JobOutcome>,
    /// Whether the single write has happened.
    pub sent: bool,
    /// Whether the writing side vanished without answering (worker death).
    pub sender_dropped: bool,
    /// Whether the reader gave up waiting (e.g. the client disconnected).
    pub abandoned: bool,
}

impl ResultChannel {
    /// A fresh, unused channel: nothing sent, both sides alive.
    pub fn new() -> (c: ResultChannel)
        ensures
            c.message is None,
            !c.sent,
            !c.sender_dropped,
            !c.abandoned,
    {
        ResultChannel { message: None, sent: false, sender_dropped: false, abandoned: false }
    }

    /// The worker delivers the outcome. This is the single write; it
    /// succeeds identically whether or not the reader has abandoned the
    /// wait — delivery to an abandoned channel is a silent no-op for the
    /// system, and no other job or channel is touched.
    pub fn send(&mut self, outcome: JobOutcome)
        requires
            !old(self).sent,
            !old(self).sender_dropped,
        ensures
            final(self).sent,
            final(self).message == Some(outcome),
            final(self).sender_dropped == old(self).sender_dropped,
            final(self).abandoned == old(self).abandoned,
    {
        self.message = Some(outcome);
        self.sent = true;
    }

    /// The writing side goes away without answering (the worker terminated
    /// or crashed before replying): the reader will observe the absence.
    pub fn drop_sender(&mut self)
        requires
            !old(self).sent,
        ensures
            final(self).sender_dropped,
            final(self).sent == old(self).sent,
            final(self).message == old(self).message,
            final(self).abandoned == old(self).abandoned,
    {
        self.sender_dropped = true;
    }

    /// The reader stops waiting. The channel value stays alive for the
    /// worker's eventual write, which will simply never be read.
    pub fn abandon(&mut self)
        ensures
            final(self).abandoned,
            final(self).sent == old(self).sent,
            final(self).message == old(self).message,
            final(self).sender_dropped == old(self).sender_dropped,
    {
        self.abandoned = true;
    }

    /// The submitter's await completes; it consumes the reading side, so a
    /// result is read at most once. Possible only once the worker has
    /// answered or vanished: the delivered outcome, or `None` when the
    /// worker went away without replying.
    pub fn recv(self) -> (r: Option<JobOutcome>)
        requires
            self.sent || self.sender_dropped,
            !self.abandoned,
        ensures
            self.sent ==> r == self.message,
            !self.sent ==> r is None,
    {
        if self.sent {
            self.message
        } else {
            None
        }
    }
}

/// What the submitter's await resolves to, given what the channel yielded.
pub open spec fn resolved_reply(reply: Option<JobOutcome>) -> Result<String, WorkerError> {
    match reply {
        Some(JobOutcome::Transcript(text)) => Ok(text),
        Some(JobOutcome::Failed(detail)) => Err(WorkerError::Transcription(detail)),
        None => Err(WorkerError::WorkerGone),
    }
}

/// Maps what the reply channel yielded to the submitter's result: the
/// transcript on success, `Transcription` with the engine's detail when the
/// job failed, `WorkerGone` when the worker vanished before answering.
pub fn resolve_reply(reply: Option<JobOutcome>) -> (r: Result<String, WorkerError>)
    ensures
        r == resolved_reply(reply),
{
    match reply {
        Some(JobOutcome::Transcript(text)) => Ok(text),
        Some(JobOutcome::Failed(detail)) => Err(WorkerError::Transcription(detail)),
        None => Err(WorkerError::WorkerGone),
    }
}

} // verus!

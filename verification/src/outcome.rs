//! The single result of a job.

use crate::error::JobError;
use vstd::prelude::*;
use vstd::string::*;

verus! {

/// How a job ended. A job ends exactly once, in one of these three ways.
#[derive(Debug, PartialEq)]
pub enum JobOutcome {
    /// The worker exited with success and wrote this document.
    Success(serde_json::Value),
    /// The job failed; the message says why, in words fit for the caller.
    Failure(String),
    /// The caller withdrew the job before it completed. Not an error.
    Cancelled,
}

/// A `JobOutcome` with its message as text.
pub enum JobOutcomeView {
    Success(serde_json::Value),
    Failure(Seq<char>),
    Cancelled,
}

impl View for JobOutcome {
    type V = JobOutcomeView;

    open spec fn view(&self) -> JobOutcomeView {
        match self {
            JobOutcome::Success(payload) => JobOutcomeView::Success(*payload),
            JobOutcome::Failure(message) => JobOutcomeView::Failure(message@),
            JobOutcome::Cancelled => JobOutcomeView::Cancelled,
        }
    }
}

/// The message under which a cancelled job is reported where the caller
/// expects either a document or an error text.
pub open spec fn cancelled_text() -> Seq<char> {
    "Command cancelled"@
}

impl JobOutcome {
    /// The outcome of a job that met `error`: a failure with the error's
    /// message.
    pub fn from_error(error: &JobError) -> (outcome: JobOutcome)
        ensures
            outcome@ == JobOutcomeView::Failure(error.message_text()),
    {
        JobOutcome::Failure(error.message())
    }

    /// Whether the job delivered a document.
    pub fn is_success(&self) -> (success: bool)
        ensures
            success == (self@ is Success),
    {
        match self {
            JobOutcome::Success(_) => true,
            _ => false,
        }
    }

    /// Whether the job was cancelled.
    pub fn is_cancelled(&self) -> (cancelled: bool)
        ensures
            cancelled == (self@ is Cancelled),
    {
        match self {
            JobOutcome::Cancelled => true,
            _ => false,
        }
    }

    /// Folds the outcome into a document or an error text. A cancelled job
    /// becomes an error whose text is `cancelled_text()`.
    pub fn into_result(self) -> (result: Result<serde_json::Value, String>)
        ensures
            match self@ {
                JobOutcomeView::Success(payload) => result == Ok::<serde_json::Value, String>(
                    payload,
                ),
                JobOutcomeView::Failure(message) => result matches Err(text) && text@ == message,
                JobOutcomeView::Cancelled => result matches Err(text) && text@ == cancelled_text(),
            },
    {
        match self {
            JobOutcome::Success(payload) => Ok(payload),
            JobOutcome::Failure(message) => Err(message),
            JobOutcome::Cancelled => Err(String::from_str("Command cancelled")),
        }
    }
}

} // verus!

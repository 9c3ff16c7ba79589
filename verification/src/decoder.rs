//! The result decoder: from the bytes a finished worker left on its output
//! streams to the outcome of the job.
//!
//! A worker that exits with success owes one JSON document on its standard
//! output. A worker that exits otherwise has, at best, written a JSON object
//! with a string member `error` to its standard error; failing that, whatever
//! it wrote is passed on as it is.

use crate::json::{
    error_text, json_error_text, json_member, json_parse, json_string, lossy_text, member,
    parse_json, string_of, text_of_bytes,
};
use crate::outcome::{JobOutcome, JobOutcomeView};
use vstd::prelude::*;
use vstd::string::*;

verus! {

/// The message of a job whose worker exited with success but did not write a
/// JSON document; `detail` is the parser's complaint.
pub open spec fn decode_failure_text(detail: Seq<char>) -> Seq<char> {
    "Failed to parse algorithm output as JSON: "@ + detail
}

/// The message of a failed worker that left nothing to report.
pub open spec fn unknown_failure_text() -> Seq<char> {
    "Unknown error occurred in algorithm"@
}

/// The outcome of a worker that exited with success, given what parsing its
/// output returned.
pub open spec fn success_view(
    parsed: Result<serde_json::Value, serde_json::Error>,
) -> JobOutcomeView {
    match parsed {
        Ok(document) => JobOutcomeView::Success(document),
        Err(error) => JobOutcomeView::Failure(decode_failure_text(json_error_text(error))),
    }
}

/// The message that a worker reported in a document: the text of the member
/// `error`, if the document is an object that has one and it is a string.
pub open spec fn reported_in(document: serde_json::Value) -> Option<Seq<char>> {
    match json_member(document, "error"@) {
        Some(inner) => json_string(inner),
        None => None,
    }
}

/// The message that a worker reported, given what parsing its error output
/// returned.
pub open spec fn reported_message(
    parsed: Result<serde_json::Value, serde_json::Error>,
) -> Option<Seq<char>> {
    match parsed {
        Ok(document) => reported_in(document),
        Err(_) => None,
    }
}

/// The message of a failed worker: what it reported; else its raw error
/// output, word for word; else, if that is empty, a fixed text.
pub open spec fn failure_text(reported: Option<Seq<char>>, raw: Seq<char>) -> Seq<char> {
    match reported {
        Some(message) => message,
        None => if raw.len() == 0 {
            unknown_failure_text()
        } else {
            raw
        },
    }
}

/// The outcome of a finished worker, as a function of how it exited and of
/// the bytes on its two streams.
pub open spec fn decoded_view(success: bool, stdout: Seq<u8>, stderr: Seq<u8>) -> JobOutcomeView {
    if success {
        success_view(json_parse(lossy_text(stdout)))
    } else {
        JobOutcomeView::Failure(
            failure_text(reported_message(json_parse(lossy_text(stderr))), lossy_text(stderr)),
        )
    }
}

/// The message for output that is no JSON document.
pub fn decode_failure_message(detail: &str) -> (message: String)
    ensures
        message@ == decode_failure_text(detail@),
{
    String::from_str("Failed to parse algorithm output as JSON: ").concat(detail)
}

/// Turns what the parser made of a successful worker's output into the
/// outcome: the document itself, untouched, or a failure that carries the
/// parser's complaint. A parse error is never a success.
pub fn success_from_parsed(parsed: Result<serde_json::Value, serde_json::Error>) -> (outcome:
    JobOutcome)
    ensures
        outcome@ == success_view(parsed),
        parsed is Err ==> outcome@ is Failure,
{
    match parsed {
        Ok(document) => JobOutcome::Success(document),
        Err(error) => {
            let detail = error_text(&error);
            JobOutcome::Failure(decode_failure_message(detail.as_str()))
        },
    }
}

/// Decodes the standard output of a worker that exited with success.
pub fn decode_success(stdout: &[u8]) -> (outcome: JobOutcome)
    ensures
        outcome@ == success_view(json_parse(lossy_text(stdout@))),
{
    let text = text_of_bytes(stdout);
    success_from_parsed(parse_json(text.as_str()))
}

/// Chooses the message of a failed worker from what it reported, if
/// anything, and its raw error output.
pub fn failure_message(reported: Option<&str>, raw: &str) -> (message: String)
    ensures
        message@ == failure_text(
            match reported {
                Some(text) => Some(text@),
                None => None,
            },
            raw@,
        ),
{
    match reported {
        Some(text) => text.to_owned(),
        None => {
            if raw.is_empty() {
                String::from_str("Unknown error occurred in algorithm")
            } else {
                raw.to_owned()
            }
        },
    }
}

/// Looks up the message that a worker reported in a document.
pub fn reported_error(document: &serde_json::Value) -> (reported: Option<&str>)
    ensures
        match reported {
            Some(text) => reported_in(*document) == Some(text@),
            None => reported_in(*document) is None,
        },
{
    match member(document, "error") {
        Some(inner) => string_of(inner),
        None => None,
    }
}

/// Turns what the parser made of a failed worker's error output, and that
/// output itself, into the failure's message.
pub fn failure_from_parsed(
    parsed: &Result<serde_json::Value, serde_json::Error>,
    raw: &str,
) -> (message: String)
    ensures
        message@ == failure_text(reported_message(*parsed), raw@),
{
    match parsed {
        Ok(document) => failure_message(reported_error(document), raw),
        Err(_) => failure_message(None, raw),
    }
}

/// Decodes the standard error of a worker that exited without success.
pub fn decode_failure(stderr: &[u8]) -> (outcome: JobOutcome)
    ensures
        outcome@ == JobOutcomeView::Failure(
            failure_text(reported_message(json_parse(lossy_text(stderr@))), lossy_text(stderr@)),
        ),
{
    let text = text_of_bytes(stderr);
    let parsed = parse_json(text.as_str());
    JobOutcome::Failure(failure_from_parsed(&parsed, text.as_str()))
}

/// Decodes the output of a finished worker: its standard output if it
/// exited with success, its standard error if not. The stream that is not
/// read has no influence on the outcome.
pub fn decode_output(success: bool, stdout: &[u8], stderr: &[u8]) -> (outcome: JobOutcome)
    ensures
        outcome@ == decoded_view(success, stdout@, stderr@),
        !success ==> outcome@ is Failure,
{
    if success {
        decode_success(stdout)
    } else {
        decode_failure(stderr)
    }
}

} // verus!

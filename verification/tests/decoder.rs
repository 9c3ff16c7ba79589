use job_core::decoder::{
    decode_failure, decode_failure_message, decode_output, decode_success, failure_from_parsed,
    failure_message, reported_error, success_from_parsed,
};
use job_core::outcome::JobOutcome;
use serde_json::Value;

fn document(text: &str) -> Value {
    serde_json::from_str(text).unwrap()
}

fn failed(message: &str) -> JobOutcome {
    JobOutcome::Failure(message.to_string())
}

#[test]
fn well_formed_output_is_returned_as_that_document() {
    let text = "{\"assignments\":[{\"tutor\":\"ana\",\"course\":101,\"score\":9.5}],\"ok\":true,\"note\":null}";
    let outcome = decode_output(true, text.as_bytes(), b"");
    assert_eq!(outcome, JobOutcome::Success(document(text)));
    match outcome {
        JobOutcome::Success(payload) => {
            assert_eq!(payload["assignments"][0]["tutor"], Value::String("ana".to_string()));
            assert_eq!(payload["assignments"][0]["course"].as_i64(), Some(101));
            assert_eq!(payload["assignments"][0]["score"].as_f64(), Some(9.5));
            assert_eq!(payload["ok"], Value::Bool(true));
            assert_eq!(payload["note"], Value::Null);
        }
        _ => panic!("a success was expected"),
    }
}

#[test]
fn output_may_be_any_json_value() {
    assert_eq!(decode_success(b"[1,2,3]"), JobOutcome::Success(document("[1,2,3]")));
    assert_eq!(decode_success(b"\"done\""), JobOutcome::Success(Value::String("done".to_string())));
    assert_eq!(decode_success(b"null"), JobOutcome::Success(Value::Null));
    assert_eq!(decode_success(b"  {\"a\" : 1}\n"), JobOutcome::Success(document("{\"a\":1}")));
}

#[test]
fn multi_line_output_is_read_whole() {
    let text = "{\n  \"a\": [\n    1,\n    2\n  ],\n  \"b\": \"x\"\n}\n";
    assert_eq!(decode_success(text.as_bytes()), JobOutcome::Success(document(text)));
}

#[test]
fn error_output_is_ignored_on_success() {
    let outcome = decode_output(true, b"{\"a\":1}", b"{\"error\":\"ignored\"}");
    assert_eq!(outcome, JobOutcome::Success(document("{\"a\":1}")));
}

#[test]
fn reported_error_is_surfaced() {
    let outcome = decode_output(false, b"", b"{\"error\":\"bad input\"}");
    assert_eq!(outcome, failed("bad input"));
}

#[test]
fn reported_error_wins_over_standard_output() {
    let outcome = decode_output(false, b"{\"a\":1}", b"{\"error\":\"bad input\",\"code\":3}");
    assert_eq!(outcome, failed("bad input"));
}

#[test]
fn raw_error_text_is_surfaced_when_it_is_no_json() {
    assert_eq!(decode_output(false, b"", b"segfault"), failed("segfault"));
    assert_eq!(decode_failure(b"line one\nline two\n"), failed("line one\nline two\n"));
}

#[test]
fn non_json_output_of_a_successful_worker_is_a_failure() {
    let outcome = decode_output(true, b"all done", b"");
    assert_eq!(
        outcome,
        failed("Failed to parse algorithm output as JSON: expected value at line 1 column 1")
    );
    assert!(!outcome.is_success());
}

#[test]
fn empty_output_of_a_successful_worker_is_a_failure() {
    assert_eq!(
        decode_output(true, b"", b""),
        failed(
            "Failed to parse algorithm output as JSON: EOF while parsing a value at line 1 column 0"
        )
    );
}

#[test]
fn trailing_text_after_the_document_is_a_failure() {
    assert_eq!(
        decode_success(b"{\"a\":1} extra"),
        failed("Failed to parse algorithm output as JSON: trailing characters at line 1 column 9")
    );
}

#[test]
fn decode_error_carries_the_complaint_of_the_parser() {
    let text = "{\"a\":";
    let complaint = serde_json::from_str::<Value>(text).unwrap_err().to_string();
    assert_eq!(
        decode_success(text.as_bytes()),
        JobOutcome::Failure(format!("Failed to parse algorithm output as JSON: {}", complaint))
    );
}

#[test]
fn empty_error_output_gives_the_fixed_text() {
    assert_eq!(decode_output(false, b"", b""), failed("Unknown error occurred in algorithm"));
    assert_eq!(
        decode_output(false, b"{\"a\":1}", b""),
        failed("Unknown error occurred in algorithm")
    );
}

#[test]
fn blank_error_output_is_not_empty() {
    assert_eq!(decode_failure(b" \n"), failed(" \n"));
}

#[test]
fn json_error_output_without_the_member_is_surfaced_raw() {
    assert_eq!(decode_failure(b"{\"message\":\"oops\"}"), failed("{\"message\":\"oops\"}"));
    assert_eq!(decode_failure(b"[\"error\"]"), failed("[\"error\"]"));
    assert_eq!(decode_failure(b"\"error\""), failed("\"error\""));
    assert_eq!(decode_failure(b"42"), failed("42"));
}

#[test]
fn a_member_that_is_no_string_is_not_a_message() {
    assert_eq!(decode_failure(b"{\"error\":404}"), failed("{\"error\":404}"));
    assert_eq!(decode_failure(b"{\"error\":null}"), failed("{\"error\":null}"));
    assert_eq!(
        decode_failure(b"{\"error\":{\"text\":\"deep\"}}"),
        failed("{\"error\":{\"text\":\"deep\"}}")
    );
}

#[test]
fn an_empty_reported_message_is_still_the_message() {
    assert_eq!(decode_failure(b"{\"error\":\"\"}"), failed(""));
}

#[test]
fn reported_message_is_unescaped() {
    assert_eq!(
        decode_failure(b"{\"error\":\"row 3: \\\"grade\\\" missing\\n\"}"),
        failed("row 3: \"grade\" missing\n")
    );
}

#[test]
fn ill_formed_bytes_are_replaced_in_the_text() {
    assert_eq!(decode_failure(b"bad \xff byte"), failed("bad \u{fffd} byte"));
    assert_eq!(
        decode_failure(b"{\"error\":\"caf\xc3\xa9 \xfe\"}"),
        failed("caf\u{e9} \u{fffd}")
    );
    assert_eq!(
        decode_success(b"\"\xff\""),
        JobOutcome::Success(Value::String("\u{fffd}".to_string()))
    );
}

#[test]
fn failure_message_prefers_the_report() {
    assert_eq!(failure_message(Some("bad input"), "raw"), "bad input");
    assert_eq!(failure_message(Some(""), "raw"), "");
    assert_eq!(failure_message(None, "raw"), "raw");
    assert_eq!(failure_message(None, ""), "Unknown error occurred in algorithm");
    assert_eq!(failure_message(Some("m"), ""), "m");
}

#[test]
fn reported_error_reads_the_member() {
    assert_eq!(reported_error(&document("{\"error\":\"bad input\"}")), Some("bad input"));
    assert_eq!(reported_error(&document("{\"Error\":\"bad input\"}")), None);
    assert_eq!(reported_error(&document("{\"error\":[\"bad input\"]}")), None);
    assert_eq!(reported_error(&document("[{\"error\":\"bad input\"}]")), None);
    assert_eq!(reported_error(&Value::Null), None);
    assert_eq!(reported_error(&Value::String("error".to_string())), None);
}

#[test]
fn failure_from_a_parse_result() {
    let parsed = serde_json::from_str::<Value>("{\"error\":\"bad input\"}");
    assert_eq!(failure_from_parsed(&parsed, "{\"error\":\"bad input\"}"), "bad input");
    let broken = serde_json::from_str::<Value>("segfault");
    assert_eq!(failure_from_parsed(&broken, "segfault"), "segfault");
    let empty = serde_json::from_str::<Value>("");
    assert_eq!(failure_from_parsed(&empty, ""), "Unknown error occurred in algorithm");
}

#[test]
fn success_from_a_parse_result() {
    let parsed = serde_json::from_str::<Value>("{\"a\":[true,false]}");
    assert_eq!(
        success_from_parsed(parsed),
        JobOutcome::Success(document("{\"a\":[true,false]}"))
    );
    let broken = serde_json::from_str::<Value>("{");
    assert_eq!(
        success_from_parsed(broken),
        failed(
            "Failed to parse algorithm output as JSON: EOF while parsing an object at line 1 column 1"
        )
    );
}

#[test]
fn decode_failure_message_prefixes_the_detail() {
    assert_eq!(
        decode_failure_message("expected value at line 1 column 1"),
        "Failed to parse algorithm output as JSON: expected value at line 1 column 1"
    );
    assert_eq!(decode_failure_message(""), "Failed to parse algorithm output as JSON: ");
}

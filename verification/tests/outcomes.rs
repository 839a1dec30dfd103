use std::fmt;

use console_logger::level::Stream;
use console_logger::line::Emission;
use console_logger::log::{log_info, log_outcome, log_result, log_warning};

struct DiskFull;

impl fmt::Display for DiskFull {
    fn fmt(&self, f: &mut fmt::Formatter<'_>) -> fmt::Result {
        f.write_str("no space left on device")
    }
}

fn without_colors(text: &str) -> String {
    let mut plain = String::new();
    let mut rest = text;
    while let Some(at) = rest.find('\x1b') {
        plain.push_str(&rest[..at]);
        let end = rest[at..].find('m').unwrap();
        rest = &rest[at + end + 1..];
    }
    plain.push_str(rest);
    plain
}

#[test]
fn success_is_logged_as_info() {
    let out = log_result(Some(true), "x", Ok::<(), DiskFull>(()), "step").unwrap();
    assert_eq!(out.stream, Stream::Stdout);
    assert_eq!(out.text, "\x1b[32m[INFO]\x1b[0m x :: Success: step\n");
    assert_eq!(without_colors(&out.text), "[INFO] x :: Success: step\n");
}

#[test]
fn failure_is_logged_as_warning_with_the_error() {
    let out = log_result(Some(true), "x", Err(DiskFull), "step").unwrap();
    assert_eq!(out.stream, Stream::Stderr);
    assert_eq!(out.text, "\x1b[33m[WARNING]\x1b[0m x :: Failed: step - no space left on device\n");
    assert_eq!(
        without_colors(&out.text),
        format!("[WARNING] x :: Failed: step - {}\n", DiskFull),
    );
}

#[test]
fn failure_shows_any_displayable_error() {
    let number = log_result(Some(true), "fetch", Err(404), "get page").unwrap();
    assert_eq!(number.text, "\x1b[33m[WARNING]\x1b[0m fetch :: Failed: get page - 404\n");
    let text = log_result(Some(true), "fetch", Err("timed out"), "get page").unwrap();
    assert_eq!(text.text, "\x1b[33m[WARNING]\x1b[0m fetch :: Failed: get page - timed out\n");
    let owned = log_result(Some(true), "fetch", Err(String::new()), "").unwrap();
    assert_eq!(owned.text, "\x1b[33m[WARNING]\x1b[0m fetch :: Failed:  - \n");
}

#[test]
fn outcome_is_silent_while_disabled() {
    assert_eq!(log_result(None, "x", Ok::<(), DiskFull>(()), "step"), None);
    assert_eq!(log_result(None, "x", Err(DiskFull), "step"), None);
    assert_eq!(log_result(Some(false), "x", Ok::<(), DiskFull>(()), "step"), None);
    assert_eq!(log_result(Some(false), "x", Err(DiskFull), "step"), None);
    assert_eq!(log_outcome(None, "x", Ok(()), "step"), None);
    assert_eq!(log_outcome(Some(false), "x", Err("boom"), "step"), None);
}

#[test]
fn outcome_with_shown_error_matches_result() {
    assert_eq!(
        log_outcome(Some(true), "x", Err("no space left on device"), "step"),
        log_result(Some(true), "x", Err(DiskFull), "step"),
    );
    assert_eq!(
        log_outcome(Some(true), "x", Ok(()), "step"),
        log_result(Some(true), "x", Ok::<(), DiskFull>(()), "step"),
    );
}

#[test]
fn outcome_is_an_info_or_a_warning_call() {
    assert_eq!(
        log_outcome(Some(true), "x", Ok(()), "step"),
        log_info(Some(true), "x", "Success: step"),
    );
    assert_eq!(
        log_outcome(Some(true), "x", Err("boom"), "step"),
        log_warning(Some(true), "x", "Failed: step - boom"),
    );
    assert_eq!(
        log_outcome(Some(true), "x", Err("boom"), "step"),
        Some(Emission {
            stream: Stream::Stderr,
            text: String::from("\x1b[33m[WARNING]\x1b[0m x :: Failed: step - boom\n"),
        }),
    );
}

#[test]
fn repeated_outcome_repeats_its_line() {
    let first = log_result(Some(true), "x", Err(DiskFull), "step");
    let second = log_result(Some(true), "x", Err(DiskFull), "step");
    assert!(first.is_some());
    assert_eq!(first, second);
}

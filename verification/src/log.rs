//! The logging entry points. Each decides whether a line is written and, if
//! so, says on which stream and with what text; writing it is left to the
//! caller.

use vstd::prelude::*;
use vstd::string::to_string_from_display_ensures;
use crate::flag::{debug_mode, enabled};
use crate::level::Level;
use crate::line::{line_text, render, Emission, EmissionView};

verus! {

/// What a log call at `level` emits under `flag`: nothing while logging is
/// disabled, otherwise one line on the stream of the level.
pub open spec fn emitted(
    flag: Option<bool>,
    level: Level,
    feature: Seq<char>,
    message: Seq<char>,
) -> Option<EmissionView> {
    if enabled(flag) {
        Some(EmissionView { stream: level.stream(), text: line_text(level, feature, message) })
    } else {
        None
    }
}

/// The message logged for a step that succeeded.
pub open spec fn success_text(message: Seq<char>) -> Seq<char> {
    "Success: "@ + message
}

/// The message logged for a step that failed with an error shown as `error`.
pub open spec fn failure_text(message: Seq<char>, error: Seq<char>) -> Seq<char> {
    "Failed: "@ + message + " - "@ + error
}

/// Logs `message` for `feature` at `level`.
pub fn log_line(
    flag: Option<bool>,
    level: Level,
    feature: &str,
    message: &str,
) -> (out: Option<Emission>)
    ensures
        out.deep_view() == emitted(flag, level, feature@, message@),
{
    if debug_mode(flag) {
        Some(Emission { stream: level.target(), text: render(level, feature, message) })
    } else {
        None
    }
}

/// Logs a debugging detail of `feature`.
pub fn log_debug(flag: Option<bool>, feature: &str, message: &str) -> (out: Option<Emission>)
    ensures
        out.deep_view() == emitted(flag, Level::Debug, feature@, message@),
{
    log_line(flag, Level::Debug, feature, message)
}

/// Logs general information about `feature`.
pub fn log_info(flag: Option<bool>, feature: &str, message: &str) -> (out: Option<Emission>)
    ensures
        out.deep_view() == emitted(flag, Level::Info, feature@, message@),
{
    log_line(flag, Level::Info, feature, message)
}

/// Logs a warning about `feature`.
pub fn log_warning(flag: Option<bool>, feature: &str, message: &str) -> (out: Option<Emission>)
    ensures
        out.deep_view() == emitted(flag, Level::Warning, feature@, message@),
{
    log_line(flag, Level::Warning, feature, message)
}

/// Logs an error of `feature`.
pub fn log_error(flag: Option<bool>, feature: &str, message: &str) -> (out: Option<Emission>)
    ensures
        out.deep_view() == emitted(flag, Level::Error, feature@, message@),
{
    log_line(flag, Level::Error, feature, message)
}

/// Logs the outcome of a step whose error, if any, has already been turned
/// into text.
pub fn log_outcome(
    flag: Option<bool>,
    feature: &str,
    outcome: Result<(), &str>,
    message: &str,
) -> (out: Option<Emission>)
    ensures
        outcome is Ok ==> out.deep_view() == emitted(
            flag,
            Level::Info,
            feature@,
            success_text(message@),
        ),
        outcome matches Err(error) ==> out.deep_view() == emitted(
            flag,
            Level::Warning,
            feature@,
            failure_text(message@, error@),
        ),
{
    match outcome {
        Ok(_) => {
            let mut text = String::new();
            text.append("Success: ");
            text.append(message);
            log_info(flag, feature, text.as_str())
        },
        Err(error) => {
            let mut text = String::new();
            text.append("Failed: ");
            text.append(message);
            text.append(" - ");
            text.append(error);
            log_warning(flag, feature, text.as_str())
        },
    }
}

/// Logs the outcome of a step: an info line if it succeeded, a warning line
/// with the error as it displays if it failed. The outcome itself is only
/// observed.
pub fn log_result<E: std::fmt::Display>(
    flag: Option<bool>,
    feature: &str,
    result: Result<(), E>,
    message: &str,
) -> (out: Option<Emission>)
    ensures
        result is Ok ==> out.deep_view() == emitted(
            flag,
            Level::Info,
            feature@,
            success_text(message@),
        ),
        result matches Err(error) ==> exists|shown: String|
            to_string_from_display_ensures::<E>(&error, shown) && out.deep_view() == emitted(
                flag,
                Level::Warning,
                feature@,
                failure_text(message@, shown@),
            ),
{
    match result {
        Ok(_) => log_outcome(flag, feature, Ok(()), message),
        Err(error) => {
            let shown = error.to_string();
            log_outcome(flag, feature, Err(shown.as_str()), message)
        },
    }
}

} // verus!

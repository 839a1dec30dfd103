//! The layout of a log line, and the text that is written for it.

use vstd::prelude::*;
use crate::level::{Level, Stream};

verus! {

/// The escape sequence that ends the coloured part of a line.
pub open spec fn reset() -> Seq<char> {
    "\x1b[0m"@
}

/// What stands between the feature and the message.
pub open spec fn separator() -> Seq<char> {
    " :: "@
}

/// What ends a line.
pub open spec fn terminator() -> Seq<char> {
    "\n"@
}

/// The coloured tag that opens every line of a level: the colour, the tag,
/// the reset, and one space.
pub open spec fn prefix(level: Level) -> Seq<char> {
    level.color() + level.tag() + reset() + " "@
}

/// The text written for one log line: the coloured tag, the feature, the
/// separator, the message and the line terminator, in that order.
pub open spec fn line_text(level: Level, feature: Seq<char>, message: Seq<char>) -> Seq<char> {
    prefix(level) + feature + separator() + message + terminator()
}

/// A line that is ready to be written: the stream it goes to, and its exact
/// text with the line terminator.
#[derive(Debug, PartialEq, Eq)]
pub struct Emission {
    pub stream: Stream,
    pub text: String,
}

/// The mathematical value of an [`Emission`].
pub struct EmissionView {
    pub stream: Stream,
    pub text: Seq<char>,
}

impl View for Emission {
    type V = EmissionView;

    open spec fn view(&self) -> EmissionView {
        EmissionView { stream: self.stream, text: self.text@ }
    }
}

impl DeepView for Emission {
    type V = EmissionView;

    open spec fn deep_view(&self) -> EmissionView {
        self@
    }
}

/// Lays out the text of one line of the given level.
pub fn render(level: Level, feature: &str, message: &str) -> (text: String)
    ensures
        text@ == line_text(level, feature@, message@),
{
    let mut text = String::new();
    text.append(level.color_str());
    text.append(level.tag_str());
    text.append("\x1b[0m");
    text.append(" ");
    text.append(feature);
    text.append(" :: ");
    text.append(message);
    text.append("\n");
    text
}

} // verus!

//! Severity levels, and what each level fixes about a line: its tag, its
//! colour and the stream it is written to.

use vstd::prelude::*;

verus! {

/// The severity of a log line.
#[derive(Clone, Copy, Debug, PartialEq, Eq, Structural)]
pub enum Level {
    Debug,
    Info,
    Warning,
    Error,
}

/// One of the two standard streams of the process.
#[derive(Clone, Copy, Debug, PartialEq, Eq, Structural)]
pub enum Stream {
    Stdout,
    Stderr,
}

impl Level {
    /// The bracketed tag that names the level in a line.
    pub open spec fn tag(self) -> Seq<char> {
        match self {
            Level::Debug => "[DEBUG]"@,
            Level::Info => "[INFO]"@,
            Level::Warning => "[WARNING]"@,
            Level::Error => "[ERROR]"@,
        }
    }

    /// The escape sequence that colours the tag: blue, green, yellow, red.
    pub open spec fn color(self) -> Seq<char> {
        match self {
            Level::Debug => "\x1b[34m"@,
            Level::Info => "\x1b[32m"@,
            Level::Warning => "\x1b[33m"@,
            Level::Error => "\x1b[31m"@,
        }
    }

    /// The stream a line of this level goes to: diagnostics of normal
    /// operation to standard output, warnings and errors to standard error.
    pub open spec fn stream(self) -> Stream {
        match self {
            Level::Debug | Level::Info => Stream::Stdout,
            Level::Warning | Level::Error => Stream::Stderr,
        }
    }

    /// The tag of the level as text.
    pub fn tag_str(self) -> (text: &'static str)
        ensures
            text@ == self.tag(),
    {
        match self {
            Level::Debug => "[DEBUG]",
            Level::Info => "[INFO]",
            Level::Warning => "[WARNING]",
            Level::Error => "[ERROR]",
        }
    }

    /// The colour escape sequence of the level as text.
    pub fn color_str(self) -> (text: &'static str)
        ensures
            text@ == self.color(),
    {
        match self {
            Level::Debug => "\x1b[34m",
            Level::Info => "\x1b[32m",
            Level::Warning => "\x1b[33m",
            Level::Error => "\x1b[31m",
        }
    }

    /// The stream that lines of this level are written to.
    pub fn target(self) -> (stream: Stream)
        ensures
            stream == self.stream(),
    {
        match self {
            Level::Debug | Level::Info => Stream::Stdout,
            Level::Warning | Level::Error => Stream::Stderr,
        }
    }
}

} // verus!

//! A leveled console logger gated by a single debug flag.
//!
//! Every entry point takes the current reading of the flag and returns what
//! is to be written: nothing while logging is disabled, otherwise the stream
//! and the exact text of one line. The library itself writes nothing and
//! keeps no state, so the caller decides how the flag is stored and how the
//! streams are reached.

pub mod flag;
pub mod laws;
pub mod level;
pub mod line;
pub mod log;

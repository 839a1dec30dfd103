//! The debug flag that gates every log line.

use vstd::prelude::*;

verus! {

/// Whether a flag reading enables logging: only a flag that has been set to
/// `true` does. A flag that was never set counts as disabled.
pub open spec fn enabled(flag: Option<bool>) -> bool {
    flag == Some(true)
}

/// Reads the debug flag, treating a flag that was never set as disabled.
pub fn debug_mode(flag: Option<bool>) -> (on: bool)
    ensures
        on == enabled(flag),
{
    match flag {
        Some(value) => value,
        None => false,
    }
}

} // verus!

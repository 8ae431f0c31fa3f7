//! The wall clock, read through the standard library.

use vstd::prelude::*;

verus! {

/// Reads the wall clock through `std::time::SystemTime::now` as whole seconds
/// since the Unix epoch. Nothing is stated of the value: it is the time. It
/// is an error, carrying the standard library's message, when the clock
/// reads before the epoch.
#[verifier::external_body]
pub(crate) fn try_now_secs() -> (r: Result<u64, String>) {
    match std::time::SystemTime::now().duration_since(std::time::UNIX_EPOCH) {
        Ok(d) => Ok(d.as_secs()),
        Err(e) => Err(format!("{e}")),
    }
}

} // verus!

//! The time of day, as notes record it.

use vstd::prelude::*;

verus! {

/// The present moment in UTC as text, year first and second last.
///
/// This asks `chrono::Utc::now` for the time and has `DateTime::format`
/// write it with `"%F %T"`. The answer depends on the clock of the machine,
/// so nothing is claimed of it here. `Utc::now` panics where that clock is
/// set before 1970.
#[verifier::external_body]
pub(crate) fn utc_timestamp() -> (timestamp: String) {
    chrono::Utc::now().format("%F %T").to_string()
}

} // verus!

//! The coordinator's one view of wall-clock time: the timestamp it stamps
//! into a mining snapshot.

use vstd::prelude::*;

verus! {

/// Relies on chrono's `Utc::now`, read as whole seconds since the Unix
/// epoch. Nothing is promised of the value: every contract downstream
/// holds for whatever timestamp the clock hands back.
#[verifier::external_body]
pub(crate) fn current_timestamp() -> i64 {
    chrono::Utc::now().timestamp()
}

} // verus!

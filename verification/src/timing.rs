//! Durations of the services' configurations.

use vstd::prelude::*;
use std::time::Duration;

verus! {

/// The duration of a whole number of seconds.
pub uninterp spec fn duration_of_secs(secs: u64) -> Duration;

/// `Duration::from_secs(secs)`.
#[verifier::external_body]
pub(crate) fn secs_duration(secs: u64) -> (d: Duration)
    ensures
        d == duration_of_secs(secs),
{
    Duration::from_secs(secs)
}

} // verus!

//! The wall clock, read through `chrono`.

use chrono::{DateTime, Utc};
use std::time::SystemTime;
use vstd::prelude::*;

verus! {

/// Reads the current time as whole seconds since the Unix epoch: the system
/// time of `SystemTime::now()`, turned into a `DateTime<Utc>` by `chrono`'s
/// `From<SystemTime>` and read by `DateTime::timestamp()`.
///
/// Nothing is claimed of the value: it depends on the machine's clock, and two
/// readings may differ. A clock that stands before the Unix epoch gives a
/// negative number. The conversion returns for every time within the dates
/// that `chrono` can hold, which reach some 262,000 years to either side of
/// the epoch.
#[verifier::external_body]
pub(crate) fn unix_time_secs() -> i64 {
    DateTime::<Utc>::from(SystemTime::now()).timestamp()
}

} // verus!

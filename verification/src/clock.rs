//! The current time.

use vstd::prelude::*;
use crate::model::Timestamp;

verus! {

/// A time read from the clock. Only the clock makes one, so a value of this
/// type is a time that the clock actually read; `@` is that time.
pub struct ClockReading {
    at: Timestamp,
}

impl View for ClockReading {
    type V = Timestamp;

    closed spec fn view(&self) -> Timestamp {
        self.at
    }
}

impl ClockReading {
    /// The time read.
    pub fn timestamp(&self) -> (t: Timestamp)
        ensures
            t == self@,
    {
        self.at
    }
}

/// Calls `chrono::Utc::now()` and converts the result into a
/// `DateTime<FixedOffset>` (the type of a poll's dates), as the service does
/// when it opens or ends a poll. The value depends on the clock, so nothing is
/// claimed of it but what the conversion from `Utc` shows: the offset is zero.
#[verifier::external_body]
pub(crate) fn now_utc() -> (r: ClockReading)
    ensures
        r@.utc_offset_seconds == 0,
{
    let now: chrono::DateTime<chrono::FixedOffset> = chrono::Utc::now().into();
    ClockReading { at: Timestamp { unix_micros: now.timestamp_micros(), utc_offset_seconds: now.offset().local_minus_utc() } }
}

} // verus!

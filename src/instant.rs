//! Instants as whole Unix seconds, restricted to the range that the `time`
//! crate can represent as an `OffsetDateTime`.
use vstd::prelude::*;

verus! {

/// Unix seconds of -9999-01-01T00:00:00Z, the earliest representable instant.
pub const MIN_UNIX_SECONDS: i64 = -377705116800;

/// Unix seconds of 9999-12-31T23:59:59Z, the latest representable instant.
pub const MAX_UNIX_SECONDS: i64 = 253402300799;

/// Whether `seconds` names an instant that `OffsetDateTime` can hold.
pub open spec fn valid_unix_seconds(seconds: int) -> bool {
    MIN_UNIX_SECONDS <= seconds <= MAX_UNIX_SECONDS
}

/// Relies on `time::OffsetDateTime::from_unix_timestamp`, which returns an error
/// exactly when the timestamp lies outside `Date::MIN` midnight ..= `Date::MAX`
/// 23:59:59 UTC (years -9999 ..= 9999, the `time` build without `large-dates`).
#[verifier::external_body]
fn time_accepts_unix_seconds(seconds: i64) -> (r: bool)
    ensures
        r == valid_unix_seconds(seconds as int),
{
    time::OffsetDateTime::from_unix_timestamp(seconds).is_ok()
}

/// A UTC instant with one-second resolution.
#[derive(Clone, Copy, Debug, PartialEq, Eq, Structural)]
pub struct Timestamp {
    seconds: i64,
}

impl View for Timestamp {
    type V = int;

    /// The instant as Unix seconds.
    closed spec fn view(&self) -> int {
        self.seconds as int
    }
}

impl Timestamp {
    #[verifier::type_invariant]
    spec fn in_range(self) -> bool {
        valid_unix_seconds(self.seconds as int)
    }

    /// Converts external Unix seconds into an instant; `None` when the value
    /// is outside the representable range.
    pub fn from_unix_timestamp(seconds: i64) -> (r: Option<Timestamp>)
        ensures
            r is Some <==> valid_unix_seconds(seconds as int),
            r matches Some(t) ==> t@ == seconds as int,
    {
        if time_accepts_unix_seconds(seconds) {
            Some(Timestamp { seconds })
        } else {
            None
        }
    }

    /// The instant as Unix seconds; it always lies in the representable range.
    pub fn unix_timestamp(&self) -> (r: i64)
        ensures
            r as int == self@,
            valid_unix_seconds(self@),
    {
        proof {
            use_type_invariant(self);
        }
        self.seconds
    }

    /// The instant `delta` seconds later (earlier when negative); `None` when
    /// that instant is not representable.
    pub fn checked_add_seconds(&self, delta: i64) -> (r: Option<Timestamp>)
        ensures
            r is Some <==> valid_unix_seconds(self@ + delta),
            r matches Some(t) ==> t@ == self@ + delta,
    {
        proof {
            use_type_invariant(self);
        }
        if delta > MAX_UNIX_SECONDS - self.seconds || delta < MIN_UNIX_SECONDS - self.seconds {
            None
        } else {
            Timestamp::from_unix_timestamp(self.seconds + delta)
        }
    }
}

} // verus!

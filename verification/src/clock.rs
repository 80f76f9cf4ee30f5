//! The UTC clock and the age of a timestamp.
use vstd::prelude::*;

verus! {

/// A moment of the UTC clock: whole seconds since the epoch, and nanoseconds into the second.
#[derive(Clone, Copy, Debug, PartialEq, Eq)]
pub struct Timestamp {
    pub seconds: i64,
    pub nanos: u32,
}

/// The seconds since the epoch that a calendar date can express: from the first second of the
/// year -262143 to the last second of the year 262142.
pub open spec fn representable(seconds: int) -> bool {
    -8_334_601_228_800 <= seconds <= 8_210_266_876_799
}

impl Timestamp {
    /// A moment that a calendar date can express.
    pub open spec fn valid(self) -> bool {
        representable(self.seconds as int) && self.nanos < 1_000_000_000
    }

    /// Nanoseconds since the epoch.
    pub open spec fn total_nanos(self) -> int {
        self.seconds * 1_000_000_000 + self.nanos
    }
}

/// The whole seconds in a span of nanoseconds, rounded towards zero.
pub open spec fn whole_seconds(nanos: int) -> int {
    if nanos >= 0 {
        nanos / 1_000_000_000
    } else {
        -((-nanos) / 1_000_000_000)
    }
}

/// The whole seconds that have passed at `now` since the second `then`; negative if `then` is
/// yet to come.
pub open spec fn seconds_since(now: Timestamp, then: int) -> int {
    whole_seconds(now.total_nanos() - then * 1_000_000_000)
}

/// Between two moments that a calendar can express lie fewer seconds than a signed 64-bit number
/// can hold.
pub proof fn lemma_seconds_since_fits(now: Timestamp, then: int)
    requires
        now.valid(),
        representable(then),
    ensures
        i64::MIN < seconds_since(now, then) < i64::MAX,
{
}

/// Whether `chrono::Utc::now` can show this moment.
pub uninterp spec fn can_show(now: Timestamp) -> bool;

/// `chrono::Utc::now`, with `timestamp` and `timestamp_subsec_nanos`: the wall clock. The moment is
/// one that [`can_show`] names, not before the epoch, and a calendar date can express it. Nothing
/// else is claimed of it.
#[verifier::external_body]
pub(crate) fn utc_now() -> (now: Timestamp)
    ensures
        can_show(now),
        now.valid(),
        now.seconds >= 0,
{
    let now = chrono::Utc::now();
    Timestamp { seconds: now.timestamp(), nanos: now.timestamp_subsec_nanos() }
}

/// `chrono::DateTime::from_timestamp`: a moment is made of exactly the seconds for which there is a
/// calendar date.
#[verifier::external_body]
pub(crate) fn is_representable(seconds: i64) -> (r: bool)
    ensures
        r == representable(seconds as int),
{
    chrono::DateTime::from_timestamp(seconds, 0).is_some()
}

/// `chrono::DateTime::signed_duration_since` and `chrono::TimeDelta::num_seconds`: the span between
/// two moments in whole seconds, rounded towards zero.
#[verifier::external_body]
pub(crate) fn whole_seconds_since(now: Timestamp, then: i64) -> (seconds: i64)
    requires
        now.valid(),
        representable(then as int),
    ensures
        seconds == seconds_since(now, then as int),
{
    let at = chrono::DateTime::from_timestamp(now.seconds, now.nanos).unwrap();
    at.signed_duration_since(chrono::DateTime::from_timestamp(then, 0).unwrap()).num_seconds()
}

} // verus!
